use sniffnet::gui::styles::color::Color;
use sniffnet::gui::styles::palette::PaletteData;
use sniffnet::gui::styles::style_registry::{
    all_styles, BuiltInStyle, BundledStyle, ExtraStyleId, StyleIdentifier, StyleKind,
};

fn custom(name: &str) -> StyleIdentifier {
    StyleIdentifier::Extra(ExtraStyleId::CustomFile(PaletteData::from_rgb(
        name,
        [1, 2, 3, 4, 5, 6, 7],
    )))
}

#[test]
fn catalog_lists_built_in_then_bundled_styles() {
    assert_eq!(
        all_styles(),
        vec![
            StyleIdentifier::BuiltIn(BuiltInStyle::Night),
            StyleIdentifier::BuiltIn(BuiltInStyle::Day),
            StyleIdentifier::BuiltIn(BuiltInStyle::DeepSea),
            StyleIdentifier::BuiltIn(BuiltInStyle::MonAmour),
            StyleIdentifier::Extra(ExtraStyleId::Bundled(BundledStyle::DraculaDark)),
            StyleIdentifier::Extra(ExtraStyleId::Bundled(BundledStyle::DraculaLight)),
            StyleIdentifier::Extra(ExtraStyleId::Bundled(BundledStyle::GruvboxDark)),
            StyleIdentifier::Extra(ExtraStyleId::Bundled(BundledStyle::GruvboxLight)),
            StyleIdentifier::Extra(ExtraStyleId::Bundled(BundledStyle::NordDark)),
            StyleIdentifier::Extra(ExtraStyleId::Bundled(BundledStyle::NordLight)),
            StyleIdentifier::Extra(ExtraStyleId::Bundled(BundledStyle::SolarizedDark)),
            StyleIdentifier::Extra(ExtraStyleId::Bundled(BundledStyle::SolarizedLight)),
        ]
    );
}

#[test]
fn catalog_is_the_same_each_time() {
    assert_eq!(all_styles(), all_styles());
    assert_eq!(ExtraStyleId::all_styles(), ExtraStyleId::all_styles());
}

#[test]
fn catalog_holds_no_style_twice_and_none_from_a_file() {
    let styles = all_styles();
    for (i, a) in styles.iter().enumerate() {
        assert!(!a.is_file_backed());
        for (j, b) in styles.iter().enumerate() {
            assert_eq!(a.same_as(b), i == j);
        }
    }
}

#[test]
fn extra_styles_are_the_bundled_ones() {
    let extras = ExtraStyleId::all_styles();
    let bundled = BundledStyle::all_styles();
    assert_eq!(extras.len(), 8);
    assert_eq!(bundled.len(), 8);
    for (extra, style) in extras.iter().zip(bundled.iter()) {
        assert_eq!(*extra, ExtraStyleId::Bundled(*style));
    }
    assert_eq!(bundled[0], BundledStyle::DraculaDark);
    assert_eq!(bundled[7], BundledStyle::SolarizedLight);
}

#[test]
fn styles_have_their_names() {
    let names: Vec<String> = all_styles().iter().map(|style| style.display_name()).collect();
    assert_eq!(
        names,
        vec![
            "Yeti Night",
            "Yeti Day",
            "Deep Sea",
            "Mon Amour",
            "Dracula (Night)",
            "Dracula (Day)",
            "Gruvbox (Night)",
            "Gruvbox (Day)",
            "Nord (Night)",
            "Nord (Day)",
            "Solarized (Night)",
            "Solarized (Day)",
        ]
    );
    assert_eq!(BuiltInStyle::DeepSea.display_name(), "Deep Sea");
    assert_eq!(BundledStyle::NordLight.display_name(), "Nord (Day)");
    assert_eq!(custom("Mine").display_name(), "Mine");
}

#[test]
fn palettes_go_by_the_name_of_their_style() {
    for style in all_styles() {
        assert_eq!(style.palette().name, style.display_name());
    }
}

#[test]
fn built_in_palettes_have_their_colors() {
    let night = BuiltInStyle::Night.palette();
    assert_eq!(night.primary, Color { r: 0x33, g: 0x33, b: 0x33, a: 255 });
    assert_eq!(night.secondary, Color { r: 0xb3, g: 0x59, b: 0x00, a: 255 });
    assert_eq!(night.text_body, Color { r: 255, g: 255, b: 255, a: 255 });
    let sea = StyleIdentifier::BuiltIn(BuiltInStyle::DeepSea).palette();
    assert_eq!(
        sea,
        PaletteData::from_rgb(
            "Deep Sea",
            [0x1c315e, 0x227c70, 0xfefe86, 0x227c70, 0x30475e, 0x000000, 0xffffff]
        )
    );
    assert_eq!(
        BuiltInStyle::Day.palette(),
        PaletteData::from_rgb(
            "Yeti Day",
            [0xffffff, 0x0059b3, 0xb34d00, 0x0059b3, 0xcccccc, 0xffffff, 0x000000]
        )
    );
    assert_eq!(
        BuiltInStyle::MonAmour.palette(),
        PaletteData::from_rgb(
            "Mon Amour",
            [0xf5f5f5, 0x6f1ab6, 0xff0032, 0x6f1ab6, 0xf2e5e5, 0xffffff, 0x000000]
        )
    );
}

#[test]
fn bundled_palettes_have_their_colors() {
    assert_eq!(
        BundledStyle::DraculaDark.palette(),
        PaletteData::from_rgb(
            "Dracula (Night)",
            [0x282a36, 0xff79c6, 0x8be9fd, 0xff79c6, 0x6272a4, 0x282a36, 0xf8f8f2]
        )
    );
    assert_eq!(
        StyleIdentifier::Extra(ExtraStyleId::Bundled(BundledStyle::SolarizedLight)).palette(),
        PaletteData::from_rgb(
            "Solarized (Day)",
            [0xfdf6e3, 0x859900, 0x268bd2, 0x859900, 0x93a1a1, 0xfdf6e3, 0x002b36]
        )
    );
    assert_eq!(BundledStyle::GruvboxLight.palette().buttons, Color::from_rgb(0xd5c4a1));
    assert_eq!(BundledStyle::NordDark.palette().outgoing, Color::from_rgb(0xb48ead));
}

#[test]
fn file_backed_style_carries_its_palette() {
    let style = custom("Mine");
    assert!(style.is_file_backed());
    assert_eq!(style.kind(), StyleKind::CustomFile);
    assert_eq!(style.palette(), PaletteData::from_rgb("Mine", [1, 2, 3, 4, 5, 6, 7]));
}

#[test]
fn kinds_tell_the_styles_apart() {
    assert_eq!(StyleIdentifier::BuiltIn(BuiltInStyle::Day).kind(), StyleKind::BuiltIn);
    assert_eq!(
        StyleIdentifier::Extra(ExtraStyleId::Bundled(BundledStyle::NordDark)).kind(),
        StyleKind::Bundled
    );
    assert!(!StyleIdentifier::BuiltIn(BuiltInStyle::Day).is_file_backed());
    assert!(!StyleIdentifier::Extra(ExtraStyleId::Bundled(BundledStyle::NordDark)).is_file_backed());
}

#[test]
fn same_as_compares_the_carried_palette() {
    assert!(custom("Mine").same_as(&custom("Mine")));
    assert!(!custom("Mine").same_as(&custom("Yours")));
    assert!(!custom("Mine").same_as(&StyleIdentifier::BuiltIn(BuiltInStyle::Night)));
    assert!(!StyleIdentifier::BuiltIn(BuiltInStyle::Night).same_as(&custom("Mine")));
    assert!(!StyleIdentifier::BuiltIn(BuiltInStyle::Night)
        .same_as(&StyleIdentifier::Extra(ExtraStyleId::Bundled(BundledStyle::NordDark))));
}

#[test]
fn clone_keeps_the_style() {
    for style in all_styles() {
        assert_eq!(style.clone(), style);
    }
    assert_eq!(custom("Mine").clone(), custom("Mine"));
}
