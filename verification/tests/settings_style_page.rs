use sniffnet::gui::pages::settings_style_page::{
    get_extra_palettes, get_palette, get_palette_container, gradients_row,
    lazy_custom_style_input, settings_style_page, GradientButton, PaletteButton, PalettePreview,
    PreviewSegment, BUTTON_WIDTH, PREVIEW_WIDTH,
};
use sniffnet::gui::styles::color::Color;
use sniffnet::gui::styles::gradient_type::GradientType;
use sniffnet::gui::styles::palette::PaletteData;
use sniffnet::gui::styles::palette_file::ValidationError;
use sniffnet::gui::styles::style_registry::{
    all_styles, BuiltInStyle, BundledStyle, ExtraStyleId, StyleIdentifier,
};
use sniffnet::gui::styles::style_resolver::ResolvedStyle;
use sniffnet::translations::language::Language;

fn sample() -> PaletteData {
    PaletteData::from_rgb(
        "Custom",
        [0x010203, 0x040506, 0x070809, 0x0a0b0c, 0x0d0e0f, 0x101112, 0x131415],
    )
}

fn custom() -> StyleIdentifier {
    StyleIdentifier::Extra(ExtraStyleId::CustomFile(sample()))
}

fn night() -> StyleIdentifier {
    StyleIdentifier::BuiltIn(BuiltInStyle::Night)
}

fn preview_of(palette: &PaletteData, height: u16) -> PalettePreview {
    PalettePreview {
        height,
        primary: PreviewSegment { color: palette.primary, width: 120 },
        secondary: PreviewSegment { color: palette.secondary, width: 80 },
        outgoing: PreviewSegment { color: palette.outgoing, width: 60 },
        buttons: PreviewSegment { color: palette.buttons, width: 40 },
    }
}

#[test]
fn preview_shows_four_colors_of_the_palette() {
    let preview = get_palette(&sample(), false);
    assert_eq!(preview.height, 40);
    assert_eq!(preview.primary, PreviewSegment { color: Color::from_rgb(0x010203), width: 120 });
    assert_eq!(preview.secondary, PreviewSegment { color: Color::from_rgb(0x040506), width: 80 });
    assert_eq!(preview.outgoing, PreviewSegment { color: Color::from_rgb(0x070809), width: 60 });
    assert_eq!(preview.buttons, PreviewSegment { color: Color::from_rgb(0x0d0e0f), width: 40 });
    assert_eq!(get_palette(&sample(), true), preview_of(&sample(), 25));
}

#[test]
fn preview_fills_its_width() {
    for is_custom in [false, true] {
        let preview = get_palette(&sample(), is_custom);
        let total = preview.primary.width
            + preview.secondary.width
            + preview.outgoing.width
            + preview.buttons.width;
        assert_eq!(total, PREVIEW_WIDTH);
    }
    assert_eq!(PREVIEW_WIDTH, 300);
    assert_eq!(BUTTON_WIDTH, 380);
}

#[test]
fn button_of_a_built_in_style_describes_it() {
    let button = get_palette_container(
        &night(),
        String::from("Yeti Day"),
        String::from("The light one"),
        StyleIdentifier::BuiltIn(BuiltInStyle::Day),
    );
    assert_eq!(
        button,
        PaletteButton {
            style: StyleIdentifier::BuiltIn(BuiltInStyle::Day),
            name: String::from("Yeti Day"),
            description: Some(String::from("The light one")),
            selected: false,
            height: 110,
            preview: preview_of(&BuiltInStyle::Day.palette(), 40),
        }
    );
}

#[test]
fn button_of_the_active_style_is_selected() {
    let button =
        get_palette_container(&night(), String::from("Yeti Night"), String::new(), night());
    assert!(button.selected);
    assert_eq!(button.description, Some(String::new()));
    let button = get_palette_container(&custom(), String::from("Mine"), String::new(), custom());
    assert!(button.selected);
}

#[test]
fn button_of_an_extra_style_is_compact() {
    let nord = StyleIdentifier::Extra(ExtraStyleId::Bundled(BundledStyle::NordDark));
    let button = get_palette_container(
        &night(),
        String::from("Nord (Night)"),
        String::from("never shown"),
        nord.clone(),
    );
    assert_eq!(
        button,
        PaletteButton {
            style: nord,
            name: String::from("Nord (Night)"),
            description: None,
            selected: false,
            height: 75,
            preview: preview_of(&BundledStyle::NordDark.palette(), 25),
        }
    );
    let button = get_palette_container(&night(), String::from("Mine"), String::new(), custom());
    assert_eq!(button.height, 75);
    assert_eq!(button.description, None);
    assert_eq!(button.preview, preview_of(&sample(), 25));
}

#[test]
fn extra_styles_stand_two_in_a_row() {
    let styles = ExtraStyleId::all_styles();
    let rows = get_extra_palettes(&styles, &night());
    assert_eq!(rows.len(), 4);
    for (i, row) in rows.iter().enumerate() {
        assert_eq!(row.first.style, StyleIdentifier::Extra(styles[2 * i].clone()));
        assert_eq!(
            row.second.as_ref().map(|button| button.style.clone()),
            Some(StyleIdentifier::Extra(styles[2 * i + 1].clone()))
        );
        assert_eq!(row.first.name, row.first.style.display_name());
        assert_eq!(row.first.description, None);
        assert_eq!(row.first.height, 75);
        assert!(!row.first.selected);
    }
    assert_eq!(rows[1].first.name, "Gruvbox (Night)");
    assert_eq!(rows[3].second.as_ref().unwrap().name, "Solarized (Day)");
}

#[test]
fn odd_count_leaves_the_last_button_alone() {
    let styles = ExtraStyleId::all_styles();
    let rows = get_extra_palettes(&styles[..3], &night());
    assert_eq!(rows.len(), 2);
    assert_eq!(rows[0].second.as_ref().unwrap().name, "Dracula (Day)");
    assert_eq!(rows[1].first.name, "Gruvbox (Night)");
    assert_eq!(rows[1].second, None);
    let rows = get_extra_palettes(&styles[..1], &night());
    assert_eq!(rows.len(), 1);
    assert_eq!(rows[0].first.name, "Dracula (Night)");
    assert_eq!(rows[0].second, None);
    assert_eq!(get_extra_palettes(&[], &night()), vec![]);
}

#[test]
fn active_extra_style_is_selected_in_its_row() {
    let active = StyleIdentifier::Extra(ExtraStyleId::Bundled(BundledStyle::NordLight));
    let rows = get_extra_palettes(&ExtraStyleId::all_styles(), &active);
    let mut selected = Vec::new();
    for row in &rows {
        selected.push(row.first.selected);
        selected.push(row.second.as_ref().unwrap().selected);
    }
    assert_eq!(selected, vec![false, false, false, false, false, true, false, false]);
}

#[test]
fn input_without_a_path_is_neutral() {
    let input = lazy_custom_style_input(Language::EN, "", &night(), &ResolvedStyle::Unset);
    assert_eq!(input.label, "Custom style");
    assert_eq!(input.path, "");
    assert!(!input.is_error);
    assert_eq!(input.preview, None);
    assert_eq!(input.height, 75);
    assert!(!input.selected);
}

#[test]
fn input_with_a_faulty_file_is_marked() {
    let input = lazy_custom_style_input(
        Language::IT,
        "missing.toml",
        &night(),
        &ResolvedStyle::Error(ValidationError::Io),
    );
    assert_eq!(input.label, "Stile personalizzato");
    assert_eq!(input.path, "missing.toml");
    assert!(input.is_error);
    assert_eq!(input.preview, None);
    assert_eq!(input.height, 75);
    assert!(!input.selected);
}

#[test]
fn input_previews_the_palette_of_the_file() {
    let input = lazy_custom_style_input(
        Language::EN,
        "palette.toml",
        &night(),
        &ResolvedStyle::Palette(sample()),
    );
    assert!(!input.is_error);
    assert_eq!(input.preview, Some(preview_of(&sample(), 25)));
    assert_eq!(input.height, 110);
    assert!(!input.selected);
}

#[test]
fn input_previews_the_active_file_backed_style() {
    let other = PaletteData::from_rgb("Custom", [7, 6, 5, 4, 3, 2, 1]);
    let input = lazy_custom_style_input(
        Language::EN,
        "palette.toml",
        &custom(),
        &ResolvedStyle::Palette(other),
    );
    assert_eq!(input.preview, Some(preview_of(&sample(), 25)));
    assert_eq!(input.height, 110);
    assert!(input.selected);
    assert!(!input.is_error);
    let input = lazy_custom_style_input(
        Language::EN,
        "gone.toml",
        &custom(),
        &ResolvedStyle::Error(ValidationError::Io),
    );
    assert_eq!(input.preview, Some(preview_of(&sample(), 25)));
    assert_eq!(input.height, 110);
    assert!(input.selected);
    assert!(input.is_error);
    let input = lazy_custom_style_input(Language::EN, "", &custom(), &ResolvedStyle::Unset);
    assert_eq!(input.height, 110);
    assert!(!input.is_error);
}

#[test]
fn gradient_in_use_has_the_wide_button() {
    let row = gradients_row(GradientType::Mild, Language::EN);
    assert_eq!(row.label, "Apply color gradients:");
    assert_eq!(
        row.buttons,
        vec![
            GradientButton { gradient: GradientType::Plain, icon_size: 12, width: 20 },
            GradientButton { gradient: GradientType::Mild, icon_size: 13, width: 60 },
            GradientButton { gradient: GradientType::Wild, icon_size: 13, width: 20 },
        ]
    );
    let row = gradients_row(GradientType::Plain, Language::IT);
    assert_eq!(row.label, "Applica sfumature di colore:");
    let widths: Vec<u16> = row.buttons.iter().map(|button| button.width).collect();
    assert_eq!(widths, vec![60, 20, 20]);
    let row = gradients_row(GradientType::Wild, Language::KO);
    let widths: Vec<u16> = row.buttons.iter().map(|button| button.width).collect();
    assert_eq!(widths, vec![20, 20, 60]);
    assert_eq!(GradientType::default(), GradientType::Plain);
}

#[test]
fn page_lists_the_catalog_in_its_order() {
    let page = settings_style_page(
        &night(),
        "",
        GradientType::Plain,
        Language::EN,
        &ResolvedStyle::Unset,
    );
    assert_eq!(page.title, "Choose your favorite theme");
    assert_eq!(page.gradients, gradients_row(GradientType::Plain, Language::EN));
    let mut listed = Vec::new();
    for row in page.built_in.iter().chain(page.extra.iter()) {
        listed.push(row.first.style.clone());
        listed.push(row.second.as_ref().unwrap().style.clone());
    }
    assert_eq!(listed, all_styles());
    assert_eq!(page.built_in.len(), 2);
    assert_eq!(page.extra, get_extra_palettes(&ExtraStyleId::all_styles(), &night()));
    assert_eq!(
        page.custom,
        lazy_custom_style_input(Language::EN, "", &night(), &ResolvedStyle::Unset)
    );
}

#[test]
fn page_describes_the_built_in_styles() {
    let page = settings_style_page(
        &night(),
        "palette.toml",
        GradientType::Wild,
        Language::EN,
        &ResolvedStyle::Palette(sample()),
    );
    let night_button = &page.built_in[0].first;
    assert_eq!(night_button.name, "Yeti Night");
    assert_eq!(
        night_button.description,
        Some(String::from("Sniffnet's classic dark theme"))
    );
    assert!(night_button.selected);
    assert_eq!(night_button.height, 110);
    assert_eq!(night_button.preview, preview_of(&BuiltInStyle::Night.palette(), 40));
    let day_button = page.built_in[0].second.as_ref().unwrap();
    assert_eq!(day_button.name, "Yeti Day");
    assert_eq!(day_button.description, Some(String::from("Sniffnet's classic light theme")));
    assert!(!day_button.selected);
    let sea_button = &page.built_in[1].first;
    assert_eq!(sea_button.name, "Deep Sea");
    assert_eq!(sea_button.description, Some(String::from("To dive into network traffic")));
    let amour_button = page.built_in[1].second.as_ref().unwrap();
    assert_eq!(amour_button.name, "Mon Amour");
    assert_eq!(amour_button.description, Some(String::from("Lovely theme made for dreamers")));
    assert_eq!(page.custom.preview, Some(preview_of(&sample(), 25)));
    assert_eq!(page.custom.path, "palette.toml");
}

#[test]
fn page_is_translated() {
    let page = settings_style_page(
        &custom(),
        "",
        GradientType::Plain,
        Language::IT,
        &ResolvedStyle::Unset,
    );
    assert_eq!(page.title, "Scegli il tuo tema preferito");
    assert_eq!(
        page.built_in[1].first.description,
        Some(String::from("Per immergersi nel traffico di rete"))
    );
    assert_eq!(page.custom.label, "Stile personalizzato");
    assert!(page.custom.selected);
    for row in page.built_in.iter().chain(page.extra.iter()) {
        assert!(!row.first.selected);
        assert!(!row.second.as_ref().unwrap().selected);
    }
}
