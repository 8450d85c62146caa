//! The appearance page of the settings: what it shows, before any widget is
//! built.
//!
//! The page lists the styles of the catalog as buttons, two in a row, each
//! with a preview of its palette, and below them an input for the path of a
//! palette file. Everything here is a plain value; sizes are in pixels.

use vstd::prelude::*;
use vstd::string::StringExecFns;

use crate::gui::styles::color::Color;
use crate::gui::styles::gradient_type::GradientType;
use crate::gui::styles::palette::{PaletteData, PaletteModel};
use crate::gui::styles::style_registry::{
    bundled_catalog, BuiltInStyle, ExtraStyleId, StyleIdentifier, StyleModel,
};
use crate::gui::styles::style_resolver::{ResolvedModel, ResolvedStyle};
use crate::translations::language::Language;
use crate::translations::translations::{
    appearance_title_text, appearance_title_translation, color_gradients_text,
    color_gradients_translation, deep_sea_text, deep_sea_translation, mon_amour_text,
    mon_amour_translation, yeti_day_text, yeti_day_translation, yeti_night_text,
    yeti_night_translation,
};
use crate::translations::translations_3::{custom_style_text, custom_style_translation};

verus! {

/// Width of the colored bar that previews a palette.
pub const PREVIEW_WIDTH: u16 = 300;

/// Width of a button that offers a style, and of the custom style input.
pub const BUTTON_WIDTH: u16 = 380;

/// A stretch of the bar that previews a palette.
#[derive(Clone, Copy, Debug, PartialEq, Eq, Structural)]
pub struct PreviewSegment {
    pub color: Color,
    pub width: u16,
}

/// The bar that previews a palette: four of its colors side by side.
#[derive(Clone, Copy, Debug, PartialEq, Eq, Structural)]
pub struct PalettePreview {
    pub height: u16,
    pub primary: PreviewSegment,
    pub secondary: PreviewSegment,
    pub outgoing: PreviewSegment,
    pub buttons: PreviewSegment,
}

/// The preview of `palette`. That of an extra style is lower than that of a
/// built-in one.
pub open spec fn palette_preview(palette: PaletteModel, is_custom: bool) -> PalettePreview {
    PalettePreview {
        height: if is_custom {
            25
        } else {
            40
        },
        primary: PreviewSegment { color: palette.primary, width: 120 },
        secondary: PreviewSegment { color: palette.secondary, width: 80 },
        outgoing: PreviewSegment { color: palette.outgoing, width: 60 },
        buttons: PreviewSegment { color: palette.buttons, width: 40 },
    }
}

/// The segments of a preview fill its width.
pub proof fn lemma_preview_fills_its_width(palette: PaletteModel, is_custom: bool)
    ensures
        ({
            let preview = palette_preview(palette, is_custom);
            preview.primary.width + preview.secondary.width + preview.outgoing.width
                + preview.buttons.width == PREVIEW_WIDTH
        }),
{
}

/// The preview of `palette`, see [`palette_preview`].
pub fn get_palette(palette: &PaletteData, is_custom: bool) -> (preview: PalettePreview)
    ensures
        preview == palette_preview(palette@, is_custom),
{
    PalettePreview {
        height: if is_custom {
            25
        } else {
            40
        },
        primary: PreviewSegment { color: palette.primary, width: 120 },
        secondary: PreviewSegment { color: palette.secondary, width: 80 },
        outgoing: PreviewSegment { color: palette.outgoing, width: 60 },
        buttons: PreviewSegment { color: palette.buttons, width: 40 },
    }
}

/// A button that offers a style.
#[derive(Debug, PartialEq, Eq)]
pub struct PaletteButton {
    /// The style that pressing the button makes the active one.
    pub style: StyleIdentifier,
    pub name: String,
    /// The line below the preview, if there is one.
    pub description: Option<String>,
    /// Whether the button is drawn as the current choice.
    pub selected: bool,
    pub height: u16,
    pub preview: PalettePreview,
}

/// The mathematical content of a [`PaletteButton`].
pub struct PaletteButtonModel {
    pub style: StyleModel,
    pub name: Seq<char>,
    pub description: Option<Seq<char>>,
    pub selected: bool,
    pub height: u16,
    pub preview: PalettePreview,
}

impl View for PaletteButton {
    type V = PaletteButtonModel;

    open spec fn view(&self) -> PaletteButtonModel {
        PaletteButtonModel {
            style: self.style@,
            name: self.name@,
            description: match self.description {
                Some(text) => Some(text@),
                None => None,
            },
            selected: self.selected,
            height: self.height,
            preview: self.preview,
        }
    }
}

/// The button that offers `on_press` while `current` is the active style.
///
/// The button of an extra style is compact: it is lower and shows no
/// description. The button of the active style is drawn as selected.
pub open spec fn palette_container(
    current: StyleModel,
    name: Seq<char>,
    description: Seq<char>,
    on_press: StyleModel,
) -> PaletteButtonModel {
    let is_custom = !(on_press is BuiltIn);
    PaletteButtonModel {
        style: on_press,
        name,
        description: if is_custom {
            None
        } else {
            Some(description)
        },
        selected: on_press == current,
        height: if is_custom {
            75
        } else {
            110
        },
        preview: palette_preview(on_press.palette(), is_custom),
    }
}

/// The button that offers `on_press`, see [`palette_container`].
pub fn get_palette_container(
    style: &StyleIdentifier,
    name: String,
    description: String,
    on_press: StyleIdentifier,
) -> (button: PaletteButton)
    ensures
        button@ == palette_container(style@, name@, description@, on_press@),
{
    let is_custom = match &on_press {
        StyleIdentifier::BuiltIn(_) => false,
        StyleIdentifier::Extra(_) => true,
    };
    let preview = get_palette(&on_press.palette(), is_custom);
    let selected = on_press.same_as(style);
    PaletteButton {
        style: on_press,
        name,
        description: if is_custom {
            None
        } else {
            Some(description)
        },
        selected,
        height: if is_custom {
            75
        } else {
            110
        },
        preview,
    }
}

/// A row of the list of styles: two buttons, or one where the list ends on
/// an odd count.
#[derive(Debug, PartialEq, Eq)]
pub struct PaletteRow {
    pub first: PaletteButton,
    pub second: Option<PaletteButton>,
}

/// The mathematical content of a [`PaletteRow`].
pub struct PaletteRowModel {
    pub first: PaletteButtonModel,
    pub second: Option<PaletteButtonModel>,
}

impl View for PaletteRow {
    type V = PaletteRowModel;

    open spec fn view(&self) -> PaletteRowModel {
        PaletteRowModel {
            first: self.first@,
            second: match self.second {
                Some(button) => Some(button@),
                None => None,
            },
        }
    }
}

/// The models of a list of rows.
pub open spec fn rows_model(rows: Seq<PaletteRow>) -> Seq<PaletteRowModel> {
    rows.map_values(|row: PaletteRow| row@)
}

/// The models of a list of extra styles.
pub open spec fn styles_model(styles: Seq<ExtraStyleId>) -> Seq<StyleModel> {
    styles.map_values(|style: ExtraStyleId| style@)
}

/// The button of an extra style: it goes by the name of the style.
pub open spec fn extra_button(current: StyleModel, style: StyleModel) -> PaletteButtonModel {
    palette_container(current, style.display_name(), Seq::empty(), style)
}

/// The rows that offer `styles`, two in a row and in their order. An odd
/// count leaves the last button alone in its row.
pub open spec fn extra_palettes(styles: Seq<StyleModel>, current: StyleModel) -> Seq<
    PaletteRowModel,
> {
    Seq::new(
        ((styles.len() + 1) / 2) as nat,
        |i: int|
            PaletteRowModel {
                first: extra_button(current, styles[2 * i]),
                second: if 2 * i + 1 < styles.len() {
                    Some(extra_button(current, styles[2 * i + 1]))
                } else {
                    None
                },
            },
    )
}

/// Every style is offered once: the rows hold as many buttons as there are
/// styles, in the order of the styles.
pub proof fn lemma_rows_hold_every_style(styles: Seq<StyleModel>, current: StyleModel, k: int)
    requires
        0 <= k < styles.len(),
    ensures
        k / 2 < extra_palettes(styles, current).len(),
        k % 2 == 0 ==> extra_palettes(styles, current)[k / 2].first.style == styles[k],
        k % 2 == 1 ==> extra_palettes(styles, current)[k / 2].second == Some(
            extra_button(current, styles[k]),
        ),
{
}

fn extra_palette_button(style: &ExtraStyleId, current_style: &StyleIdentifier) -> (button:
    PaletteButton)
    ensures
        button@ == extra_button(current_style@, style@),
{
    let on_press = StyleIdentifier::Extra(style.clone());
    let name = on_press.display_name();
    get_palette_container(current_style, name, String::new(), on_press)
}

/// The rows that offer the extra `styles`, see [`extra_palettes`].
pub fn get_extra_palettes(styles: &[ExtraStyleId], current_style: &StyleIdentifier) -> (rows: Vec<
    PaletteRow,
>)
    ensures
        rows_model(rows@) == extra_palettes(styles_model(styles@), current_style@),
{
    let count = styles.len();
    let ghost wanted = extra_palettes(styles_model(styles@), current_style@);
    let mut rows: Vec<PaletteRow> = Vec::new();
    let mut next: usize = 0;
    while next < count
        invariant
            count == styles@.len(),
            wanted == extra_palettes(styles_model(styles@), current_style@),
            next <= count,
            next % 2 == 0 || next == count,
            rows@.len() == (next + 1) / 2,
            forall|i: int| 0 <= i < rows@.len() ==> (#[trigger] rows@[i])@ == wanted[i],
        decreases count - next,
    {
        let first = extra_palette_button(&styles[next], current_style);
        let second = if next + 1 < count {
            Some(extra_palette_button(&styles[next + 1], current_style))
        } else {
            None
        };
        rows.push(PaletteRow { first, second });
        next = if next + 1 < count {
            next + 2
        } else {
            count
        };
    }
    assert(rows_model(rows@) =~= wanted);
    rows
}


/// The input for the path of a palette file, with what the file gave.
#[derive(Debug, PartialEq, Eq)]
pub struct CustomStyleInput {
    pub label: &'static str,
    /// The path as the user typed it.
    pub path: String,
    /// Whether the input is drawn as faulty.
    pub is_error: bool,
    /// The preview below the input, if there is one.
    pub preview: Option<PalettePreview>,
    pub height: u16,
    /// Whether the input is drawn as the current choice.
    pub selected: bool,
}

/// The mathematical content of a [`CustomStyleInput`].
pub struct CustomStyleInputModel {
    pub label: Seq<char>,
    pub path: Seq<char>,
    pub is_error: bool,
    pub preview: Option<PalettePreview>,
    pub height: u16,
    pub selected: bool,
}

impl View for CustomStyleInput {
    type V = CustomStyleInputModel;

    open spec fn view(&self) -> CustomStyleInputModel {
        CustomStyleInputModel {
            label: self.label@,
            path: self.path@,
            is_error: self.is_error,
            preview: self.preview,
            height: self.height,
            selected: self.selected,
        }
    }
}

/// The input while `style` is the active style and the file at `path`
/// resolved to `file`.
///
/// The input is faulty exactly when the file gave an error: no path at all
/// is no fault. While the file-backed style is active the input is selected
/// and previews the palette that the style carries; else it previews the
/// palette of the file, if the file holds one. With a preview the input is
/// higher.
pub open spec fn custom_style_input(
    language: Language,
    path: Seq<char>,
    style: StyleModel,
    file: ResolvedModel,
) -> CustomStyleInputModel {
    let selected = style.is_file_backed();
    CustomStyleInputModel {
        label: custom_style_text(language),
        path,
        is_error: file is Error,
        preview: if selected {
            Some(palette_preview(style.palette(), true))
        } else {
            match file {
                ResolvedModel::Palette(palette) => Some(palette_preview(palette, true)),
                _ => None,
            }
        },
        height: if file is Palette || selected {
            110
        } else {
            75
        },
        selected,
    }
}

/// The input for the path of a palette file, see [`custom_style_input`].
/// `file` is what the file at `custom_path` resolved to.
pub fn lazy_custom_style_input(
    language: Language,
    custom_path: &str,
    style: &StyleIdentifier,
    file: &ResolvedStyle,
) -> (input: CustomStyleInput)
    ensures
        input@ == custom_style_input(language, custom_path@, style@, file@),
{
    let is_custom_toml_style_set = style.is_file_backed();
    let is_error = match file {
        ResolvedStyle::Error(_) => true,
        _ => false,
    };
    let is_palette = match file {
        ResolvedStyle::Palette(_) => true,
        _ => false,
    };
    let preview = if is_custom_toml_style_set {
        Some(get_palette(&style.palette(), true))
    } else {
        match file {
            ResolvedStyle::Palette(palette) => Some(get_palette(palette, true)),
            _ => None,
        }
    };
    CustomStyleInput {
        label: custom_style_translation(language),
        path: String::from_str(custom_path),
        is_error,
        preview,
        height: if is_palette || is_custom_toml_style_set {
            110
        } else {
            75
        },
        selected: is_custom_toml_style_set,
    }
}

/// A button that offers a color gradient.
#[derive(Clone, Copy, Debug, PartialEq, Eq, Structural)]
pub struct GradientButton {
    /// The gradient that pressing the button applies.
    pub gradient: GradientType,
    pub icon_size: u16,
    pub width: u16,
}

/// The button that offers `gradient` while `current` is applied: the button
/// of the gradient that is applied is three times as wide.
pub open spec fn gradient_button(current: GradientType, gradient: GradientType) -> GradientButton {
    GradientButton {
        gradient,
        icon_size: if gradient is Plain {
            12
        } else {
            13
        },
        width: if current == gradient {
            60
        } else {
            20
        },
    }
}

/// The row that offers the color gradients.
#[derive(Debug, PartialEq, Eq)]
pub struct GradientsRow {
    pub label: String,
    pub buttons: Vec<GradientButton>,
}

fn gradient_button_for(current: GradientType, gradient: GradientType) -> (button: GradientButton)
    ensures
        button == gradient_button(current, gradient),
{
    GradientButton {
        gradient,
        icon_size: match gradient {
            GradientType::Plain => 12,
            _ => 13,
        },
        width: if current == gradient {
            60
        } else {
            20
        },
    }
}

/// The row that offers the color gradients, from none to the strongest, under
/// a label that ends in a colon.
pub fn gradients_row(color_gradient: GradientType, language: Language) -> (row: GradientsRow)
    ensures
        row.label@ == color_gradients_text(language) + ":"@,
        row.buttons@ == seq![
            gradient_button(color_gradient, GradientType::Plain),
            gradient_button(color_gradient, GradientType::Mild),
            gradient_button(color_gradient, GradientType::Wild),
        ],
{
    let mut label = String::from_str(color_gradients_translation(language));
    label.append(":");
    let buttons = vec![
        gradient_button_for(color_gradient, GradientType::Plain),
        gradient_button_for(color_gradient, GradientType::Mild),
        gradient_button_for(color_gradient, GradientType::Wild),
    ];
    GradientsRow { label, buttons }
}

/// The line that describes a built-in style.
pub open spec fn built_in_description(style: BuiltInStyle, language: Language) -> Seq<char> {
    match style {
        BuiltInStyle::Night => yeti_night_text(language),
        BuiltInStyle::Day => yeti_day_text(language),
        BuiltInStyle::DeepSea => deep_sea_text(language),
        BuiltInStyle::MonAmour => mon_amour_text(language),
    }
}

/// The button of a built-in style: it goes by the name of the style and
/// describes it.
pub open spec fn built_in_button(
    current: StyleModel,
    style: BuiltInStyle,
    language: Language,
) -> PaletteButtonModel {
    palette_container(
        current,
        StyleModel::BuiltIn(style).display_name(),
        built_in_description(style, language),
        StyleModel::BuiltIn(style),
    )
}

/// The rows of the built-in styles.
pub open spec fn built_in_rows(current: StyleModel, language: Language) -> Seq<PaletteRowModel> {
    seq![
        PaletteRowModel {
            first: built_in_button(current, BuiltInStyle::Night, language),
            second: Some(built_in_button(current, BuiltInStyle::Day, language)),
        },
        PaletteRowModel {
            first: built_in_button(current, BuiltInStyle::DeepSea, language),
            second: Some(built_in_button(current, BuiltInStyle::MonAmour, language)),
        },
    ]
}

fn built_in_palette_button(current: &StyleIdentifier, style: BuiltInStyle, language: Language) -> (button:
    PaletteButton)
    ensures
        button@ == built_in_button(current@, style, language),
{
    let description = match style {
        BuiltInStyle::Night => yeti_night_translation(language),
        BuiltInStyle::Day => yeti_day_translation(language),
        BuiltInStyle::DeepSea => deep_sea_translation(language),
        BuiltInStyle::MonAmour => mon_amour_translation(language),
    };
    get_palette_container(
        current,
        String::from_str(style.display_name()),
        String::from_str(description),
        StyleIdentifier::BuiltIn(style),
    )
}

/// What the appearance page shows.
#[derive(Debug, PartialEq, Eq)]
pub struct StylePage {
    pub title: &'static str,
    pub gradients: GradientsRow,
    /// The rows of the built-in styles.
    pub built_in: Vec<PaletteRow>,
    /// The rows of the bundled extra styles.
    pub extra: Vec<PaletteRow>,
    pub custom: CustomStyleInput,
}

/// The models of the bundled styles, in the order of the catalog.
pub open spec fn bundled_models() -> Seq<StyleModel> {
    Seq::new(bundled_catalog().len(), |i: int| StyleModel::Bundled(bundled_catalog()[i]))
}

/// What the appearance page shows while `style` is the active style.
///
/// The styles of the catalog stand in their order, two in a row: first the
/// built-in ones, then the bundled ones. The input for the palette file comes
/// last; `file` is what the file at `style_path` resolved to.
pub fn settings_style_page(
    style: &StyleIdentifier,
    style_path: &str,
    color_gradient: GradientType,
    language: Language,
    file: &ResolvedStyle,
) -> (page: StylePage)
    ensures
        page.title@ == appearance_title_text(language),
        page.gradients.label@ == color_gradients_text(language) + ":"@,
        page.gradients.buttons@ == seq![
            gradient_button(color_gradient, GradientType::Plain),
            gradient_button(color_gradient, GradientType::Mild),
            gradient_button(color_gradient, GradientType::Wild),
        ],
        rows_model(page.built_in@) == built_in_rows(style@, language),
        rows_model(page.extra@) == extra_palettes(bundled_models(), style@),
        page.custom@ == custom_style_input(language, style_path@, style@, file@),
{
    let mut built_in: Vec<PaletteRow> = Vec::new();
    built_in.push(
        PaletteRow {
            first: built_in_palette_button(style, BuiltInStyle::Night, language),
            second: Some(built_in_palette_button(style, BuiltInStyle::Day, language)),
        },
    );
    built_in.push(
        PaletteRow {
            first: built_in_palette_button(style, BuiltInStyle::DeepSea, language),
            second: Some(built_in_palette_button(style, BuiltInStyle::MonAmour, language)),
        },
    );
    assert(rows_model(built_in@) =~= built_in_rows(style@, language));
    let extras = ExtraStyleId::all_styles();
    assert(styles_model(extras@) =~= bundled_models());
    let extra = get_extra_palettes(extras.as_slice(), style);
    StylePage {
        title: appearance_title_translation(language),
        gradients: gradients_row(color_gradient, language),
        built_in,
        extra,
        custom: lazy_custom_style_input(language, style_path, style, file),
    }
}

} // verus!
