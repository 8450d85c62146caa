//! The catalog of styles: the built-in palettes, the bundled extra palettes,
//! and the one style whose palette comes from a file.

use vstd::prelude::*;
use vstd::string::StringExecFns;

use crate::gui::styles::palette::{opaque_palette, PaletteData, PaletteModel};

verus! {

/// A palette that the application has always had.
#[derive(Clone, Copy, Debug, PartialEq, Eq, Hash, Structural)]
pub enum BuiltInStyle {
    Night,
    Day,
    DeepSea,
    MonAmour,
}

/// An extra palette that ships with the application.
#[derive(Clone, Copy, Debug, PartialEq, Eq, Hash, Structural)]
pub enum BundledStyle {
    DraculaDark,
    DraculaLight,
    GruvboxDark,
    GruvboxLight,
    NordDark,
    NordLight,
    SolarizedDark,
    SolarizedLight,
}

/// An extra style: a bundled palette, or the palette that was read from the
/// user's file. The latter is carried in the value: the catalog has no entry
/// for it.
#[derive(Debug, PartialEq, Eq)]
pub enum ExtraStyleId {
    Bundled(BundledStyle),
    CustomFile(PaletteData),
}

/// A style that the user can make the active one.
#[derive(Debug, PartialEq, Eq)]
pub enum StyleIdentifier {
    BuiltIn(BuiltInStyle),
    Extra(ExtraStyleId),
}

/// What kind of style an identifier is, without its content.
#[derive(Clone, Copy, Debug, PartialEq, Eq, Hash, Structural)]
pub enum StyleKind {
    BuiltIn,
    Bundled,
    CustomFile,
}

/// The mathematical content of a [`StyleIdentifier`].
pub enum StyleModel {
    BuiltIn(BuiltInStyle),
    Bundled(BundledStyle),
    CustomFile(PaletteModel),
}

impl View for ExtraStyleId {
    type V = StyleModel;

    open spec fn view(&self) -> StyleModel {
        match self {
            ExtraStyleId::Bundled(style) => StyleModel::Bundled(*style),
            ExtraStyleId::CustomFile(palette) => StyleModel::CustomFile(palette@),
        }
    }
}

impl View for StyleIdentifier {
    type V = StyleModel;

    open spec fn view(&self) -> StyleModel {
        match self {
            StyleIdentifier::BuiltIn(style) => StyleModel::BuiltIn(*style),
            StyleIdentifier::Extra(extra) => extra@,
        }
    }
}

/// The name under which a built-in style is shown.
pub open spec fn built_in_name(style: BuiltInStyle) -> Seq<char> {
    match style {
        BuiltInStyle::Night => "Yeti Night"@,
        BuiltInStyle::Day => "Yeti Day"@,
        BuiltInStyle::DeepSea => "Deep Sea"@,
        BuiltInStyle::MonAmour => "Mon Amour"@,
    }
}

/// The name under which a bundled style is shown.
pub open spec fn bundled_name(style: BundledStyle) -> Seq<char> {
    match style {
        BundledStyle::DraculaDark => "Dracula (Night)"@,
        BundledStyle::DraculaLight => "Dracula (Day)"@,
        BundledStyle::GruvboxDark => "Gruvbox (Night)"@,
        BundledStyle::GruvboxLight => "Gruvbox (Day)"@,
        BundledStyle::NordDark => "Nord (Night)"@,
        BundledStyle::NordLight => "Nord (Day)"@,
        BundledStyle::SolarizedDark => "Solarized (Night)"@,
        BundledStyle::SolarizedLight => "Solarized (Day)"@,
    }
}

/// The colors of a built-in style as `0xRRGGBB`, in palette order.
pub open spec fn built_in_rgb(style: BuiltInStyle) -> Seq<u32> {
    match style {
        BuiltInStyle::Night => seq![
            0x333333, 0xb35900, 0x4d4dcc, 0xb35900, 0x1a1a1a, 0x000000, 0xffffff,
        ],
        BuiltInStyle::Day => seq![
            0xffffff, 0x0059b3, 0xb34d00, 0x0059b3, 0xcccccc, 0xffffff, 0x000000,
        ],
        BuiltInStyle::DeepSea => seq![
            0x1c315e, 0x227c70, 0xfefe86, 0x227c70, 0x30475e, 0x000000, 0xffffff,
        ],
        BuiltInStyle::MonAmour => seq![
            0xf5f5f5, 0x6f1ab6, 0xff0032, 0x6f1ab6, 0xf2e5e5, 0xffffff, 0x000000,
        ],
    }
}

/// The colors of a bundled style as `0xRRGGBB`, in palette order.
pub open spec fn bundled_rgb(style: BundledStyle) -> Seq<u32> {
    match style {
        BundledStyle::DraculaDark => seq![
            0x282a36, 0xff79c6, 0x8be9fd, 0xff79c6, 0x6272a4, 0x282a36, 0xf8f8f2,
        ],
        BundledStyle::DraculaLight => seq![
            0xf8f8f2, 0x9c1a6d, 0x0b6e7c, 0x9c1a6d, 0xcfcfde, 0xf8f8f2, 0x282a36,
        ],
        BundledStyle::GruvboxDark => seq![
            0x282828, 0xd79921, 0x458588, 0xd79921, 0x504945, 0x1d2021, 0xebdbb2,
        ],
        BundledStyle::GruvboxLight => seq![
            0xfbf1c7, 0xd65d0e, 0x076678, 0xd65d0e, 0xd5c4a1, 0xf9f5d7, 0x3c3836,
        ],
        BundledStyle::NordDark => seq![
            0x2e3440, 0x88c0d0, 0xb48ead, 0x88c0d0, 0x4c566a, 0x2e3440, 0xe5e9f0,
        ],
        BundledStyle::NordLight => seq![
            0xeceff4, 0x5e81ac, 0xb48ead, 0x5e81ac, 0xd8dee9, 0xeceff4, 0x2e3440,
        ],
        BundledStyle::SolarizedDark => seq![
            0x002b36, 0x859900, 0x268bd2, 0x859900, 0x586e75, 0x002b36, 0xeee8d5,
        ],
        BundledStyle::SolarizedLight => seq![
            0xfdf6e3, 0x859900, 0x268bd2, 0x859900, 0x93a1a1, 0xfdf6e3, 0x002b36,
        ],
    }
}

/// The palette of a built-in style.
pub open spec fn built_in_palette(style: BuiltInStyle) -> PaletteModel {
    opaque_palette(built_in_name(style), built_in_rgb(style))
}

/// The palette of a bundled style.
pub open spec fn bundled_palette(style: BundledStyle) -> PaletteModel {
    opaque_palette(bundled_name(style), bundled_rgb(style))
}

impl StyleModel {
    /// Whether the palette of the style comes from a file.
    pub open spec fn is_file_backed(self) -> bool {
        self is CustomFile
    }

    /// What kind of style this is.
    pub open spec fn kind(self) -> StyleKind {
        match self {
            StyleModel::BuiltIn(_) => StyleKind::BuiltIn,
            StyleModel::Bundled(_) => StyleKind::Bundled,
            StyleModel::CustomFile(_) => StyleKind::CustomFile,
        }
    }

    /// The palette that the style stands for. That of the file-backed style
    /// is the one it carries.
    pub open spec fn palette(self) -> PaletteModel {
        match self {
            StyleModel::BuiltIn(style) => built_in_palette(style),
            StyleModel::Bundled(style) => bundled_palette(style),
            StyleModel::CustomFile(palette) => palette,
        }
    }

    /// The name under which the style is shown: that of its palette.
    pub open spec fn display_name(self) -> Seq<char> {
        self.palette().name
    }
}

/// The bundled styles, in the order in which they are offered.
pub open spec fn bundled_catalog() -> Seq<BundledStyle> {
    seq![
        BundledStyle::DraculaDark,
        BundledStyle::DraculaLight,
        BundledStyle::GruvboxDark,
        BundledStyle::GruvboxLight,
        BundledStyle::NordDark,
        BundledStyle::NordLight,
        BundledStyle::SolarizedDark,
        BundledStyle::SolarizedLight,
    ]
}

/// The styles of the catalog, in the order in which they are offered: the
/// built-in ones, then the bundled ones.
pub open spec fn catalog() -> Seq<StyleModel> {
    seq![
        StyleModel::BuiltIn(BuiltInStyle::Night),
        StyleModel::BuiltIn(BuiltInStyle::Day),
        StyleModel::BuiltIn(BuiltInStyle::DeepSea),
        StyleModel::BuiltIn(BuiltInStyle::MonAmour),
    ] + bundled_catalog().map_values(|style: BundledStyle| StyleModel::Bundled(style))
}

impl BuiltInStyle {
    /// The name under which the style is shown.
    pub fn display_name(self) -> (name: &'static str)
        ensures
            name@ == built_in_name(self),
    {
        match self {
            BuiltInStyle::Night => "Yeti Night",
            BuiltInStyle::Day => "Yeti Day",
            BuiltInStyle::DeepSea => "Deep Sea",
            BuiltInStyle::MonAmour => "Mon Amour",
        }
    }

    /// The palette of the style.
    pub fn palette(self) -> (palette: PaletteData)
        ensures
            palette@ == built_in_palette(self),
    {
        let rgb: [u32; 7] = match self {
            BuiltInStyle::Night => [
                0x333333, 0xb35900, 0x4d4dcc, 0xb35900, 0x1a1a1a, 0x000000, 0xffffff,
            ],
            BuiltInStyle::Day => [
                0xffffff, 0x0059b3, 0xb34d00, 0x0059b3, 0xcccccc, 0xffffff, 0x000000,
            ],
            BuiltInStyle::DeepSea => [
                0x1c315e, 0x227c70, 0xfefe86, 0x227c70, 0x30475e, 0x000000, 0xffffff,
            ],
            BuiltInStyle::MonAmour => [
                0xf5f5f5, 0x6f1ab6, 0xff0032, 0x6f1ab6, 0xf2e5e5, 0xffffff, 0x000000,
            ],
        };
        PaletteData::from_rgb(self.display_name(), rgb)
    }
}

impl BundledStyle {
    /// The name under which the style is shown.
    pub fn display_name(self) -> (name: &'static str)
        ensures
            name@ == bundled_name(self),
    {
        match self {
            BundledStyle::DraculaDark => "Dracula (Night)",
            BundledStyle::DraculaLight => "Dracula (Day)",
            BundledStyle::GruvboxDark => "Gruvbox (Night)",
            BundledStyle::GruvboxLight => "Gruvbox (Day)",
            BundledStyle::NordDark => "Nord (Night)",
            BundledStyle::NordLight => "Nord (Day)",
            BundledStyle::SolarizedDark => "Solarized (Night)",
            BundledStyle::SolarizedLight => "Solarized (Day)",
        }
    }

    /// The palette of the style.
    pub fn palette(self) -> (palette: PaletteData)
        ensures
            palette@ == bundled_palette(self),
    {
        let rgb: [u32; 7] = match self {
            BundledStyle::DraculaDark => [
                0x282a36, 0xff79c6, 0x8be9fd, 0xff79c6, 0x6272a4, 0x282a36, 0xf8f8f2,
            ],
            BundledStyle::DraculaLight => [
                0xf8f8f2, 0x9c1a6d, 0x0b6e7c, 0x9c1a6d, 0xcfcfde, 0xf8f8f2, 0x282a36,
            ],
            BundledStyle::GruvboxDark => [
                0x282828, 0xd79921, 0x458588, 0xd79921, 0x504945, 0x1d2021, 0xebdbb2,
            ],
            BundledStyle::GruvboxLight => [
                0xfbf1c7, 0xd65d0e, 0x076678, 0xd65d0e, 0xd5c4a1, 0xf9f5d7, 0x3c3836,
            ],
            BundledStyle::NordDark => [
                0x2e3440, 0x88c0d0, 0xb48ead, 0x88c0d0, 0x4c566a, 0x2e3440, 0xe5e9f0,
            ],
            BundledStyle::NordLight => [
                0xeceff4, 0x5e81ac, 0xb48ead, 0x5e81ac, 0xd8dee9, 0xeceff4, 0x2e3440,
            ],
            BundledStyle::SolarizedDark => [
                0x002b36, 0x859900, 0x268bd2, 0x859900, 0x586e75, 0x002b36, 0xeee8d5,
            ],
            BundledStyle::SolarizedLight => [
                0xfdf6e3, 0x859900, 0x268bd2, 0x859900, 0x93a1a1, 0xfdf6e3, 0x002b36,
            ],
        };
        PaletteData::from_rgb(self.display_name(), rgb)
    }

    /// The bundled styles, in the order in which they are offered.
    pub fn all_styles() -> (styles: Vec<BundledStyle>)
        ensures
            styles@ == bundled_catalog(),
    {
        vec![
            BundledStyle::DraculaDark,
            BundledStyle::DraculaLight,
            BundledStyle::GruvboxDark,
            BundledStyle::GruvboxLight,
            BundledStyle::NordDark,
            BundledStyle::NordLight,
            BundledStyle::SolarizedDark,
            BundledStyle::SolarizedLight,
        ]
    }
}


impl Clone for ExtraStyleId {
    fn clone(&self) -> (copy: ExtraStyleId)
        ensures
            copy == *self,
    {
        match self {
            ExtraStyleId::Bundled(style) => ExtraStyleId::Bundled(*style),
            ExtraStyleId::CustomFile(palette) => ExtraStyleId::CustomFile(palette.clone()),
        }
    }
}

impl Clone for StyleIdentifier {
    fn clone(&self) -> (copy: StyleIdentifier)
        ensures
            copy == *self,
    {
        match self {
            StyleIdentifier::BuiltIn(style) => StyleIdentifier::BuiltIn(*style),
            StyleIdentifier::Extra(extra) => StyleIdentifier::Extra(extra.clone()),
        }
    }
}

impl ExtraStyleId {
    /// The bundled extra styles, in the order in which they are offered. The
    /// file-backed style is not among them.
    pub fn all_styles() -> (styles: Vec<ExtraStyleId>)
        ensures
            styles@.len() == bundled_catalog().len(),
            forall|i: int|
                0 <= i < styles@.len() ==> (#[trigger] styles@[i])@ == StyleModel::Bundled(
                    bundled_catalog()[i],
                ),
    {
        vec![
            ExtraStyleId::Bundled(BundledStyle::DraculaDark),
            ExtraStyleId::Bundled(BundledStyle::DraculaLight),
            ExtraStyleId::Bundled(BundledStyle::GruvboxDark),
            ExtraStyleId::Bundled(BundledStyle::GruvboxLight),
            ExtraStyleId::Bundled(BundledStyle::NordDark),
            ExtraStyleId::Bundled(BundledStyle::NordLight),
            ExtraStyleId::Bundled(BundledStyle::SolarizedDark),
            ExtraStyleId::Bundled(BundledStyle::SolarizedLight),
        ]
    }
}

impl StyleIdentifier {
    /// What kind of style this is.
    pub fn kind(&self) -> (kind: StyleKind)
        ensures
            kind == self@.kind(),
    {
        match self {
            StyleIdentifier::BuiltIn(_) => StyleKind::BuiltIn,
            StyleIdentifier::Extra(ExtraStyleId::Bundled(_)) => StyleKind::Bundled,
            StyleIdentifier::Extra(ExtraStyleId::CustomFile(_)) => StyleKind::CustomFile,
        }
    }

    /// Whether the palette of the style comes from a file.
    pub fn is_file_backed(&self) -> (yes: bool)
        ensures
            yes == self@.is_file_backed(),
    {
        match self {
            StyleIdentifier::Extra(ExtraStyleId::CustomFile(_)) => true,
            _ => false,
        }
    }

    /// The palette that the style stands for. Nothing is read: the palette of
    /// the file-backed style is the one that the identifier carries.
    pub fn palette(&self) -> (palette: PaletteData)
        ensures
            palette@ == self@.palette(),
    {
        match self {
            StyleIdentifier::BuiltIn(style) => style.palette(),
            StyleIdentifier::Extra(ExtraStyleId::Bundled(style)) => style.palette(),
            StyleIdentifier::Extra(ExtraStyleId::CustomFile(palette)) => palette.clone(),
        }
    }

    /// The name under which the style is shown.
    pub fn display_name(&self) -> (name: String)
        ensures
            name@ == self@.display_name(),
    {
        match self {
            StyleIdentifier::BuiltIn(style) => String::from_str(style.display_name()),
            StyleIdentifier::Extra(ExtraStyleId::Bundled(style)) => String::from_str(
                style.display_name(),
            ),
            StyleIdentifier::Extra(ExtraStyleId::CustomFile(palette)) => palette.name.clone(),
        }
    }

    /// Whether two identifiers name the same style. Two file-backed styles
    /// are the same if they carry the same palette.
    pub fn same_as(&self, other: &StyleIdentifier) -> (same: bool)
        ensures
            same == (self@ == other@),
    {
        match (self, other) {
            (StyleIdentifier::BuiltIn(a), StyleIdentifier::BuiltIn(b)) => *a == *b,
            (
                StyleIdentifier::Extra(ExtraStyleId::Bundled(a)),
                StyleIdentifier::Extra(ExtraStyleId::Bundled(b)),
            ) => *a == *b,
            (
                StyleIdentifier::Extra(ExtraStyleId::CustomFile(a)),
                StyleIdentifier::Extra(ExtraStyleId::CustomFile(b)),
            ) => a.same_as(b),
            _ => false,
        }
    }
}

/// The styles of the catalog, in the order in which they are offered. The
/// order never changes, so a screen that lists them lays them out the same
/// way each time.
pub fn all_styles() -> (styles: Vec<StyleIdentifier>)
    ensures
        styles@.len() == catalog().len(),
        forall|i: int| 0 <= i < styles@.len() ==> (#[trigger] styles@[i])@ == catalog()[i],
{
    let styles = vec![
        StyleIdentifier::BuiltIn(BuiltInStyle::Night),
        StyleIdentifier::BuiltIn(BuiltInStyle::Day),
        StyleIdentifier::BuiltIn(BuiltInStyle::DeepSea),
        StyleIdentifier::BuiltIn(BuiltInStyle::MonAmour),
        StyleIdentifier::Extra(ExtraStyleId::Bundled(BundledStyle::DraculaDark)),
        StyleIdentifier::Extra(ExtraStyleId::Bundled(BundledStyle::DraculaLight)),
        StyleIdentifier::Extra(ExtraStyleId::Bundled(BundledStyle::GruvboxDark)),
        StyleIdentifier::Extra(ExtraStyleId::Bundled(BundledStyle::GruvboxLight)),
        StyleIdentifier::Extra(ExtraStyleId::Bundled(BundledStyle::NordDark)),
        StyleIdentifier::Extra(ExtraStyleId::Bundled(BundledStyle::NordLight)),
        StyleIdentifier::Extra(ExtraStyleId::Bundled(BundledStyle::SolarizedDark)),
        StyleIdentifier::Extra(ExtraStyleId::Bundled(BundledStyle::SolarizedLight)),
    ];
    proof {
        lemma_catalog();
    }
    styles
}

/// The catalog holds the four built-in styles and then the eight bundled
/// ones.
pub proof fn lemma_catalog()
    ensures
        catalog().len() == 12,
        catalog()[0] == StyleModel::BuiltIn(BuiltInStyle::Night),
        catalog()[1] == StyleModel::BuiltIn(BuiltInStyle::Day),
        catalog()[2] == StyleModel::BuiltIn(BuiltInStyle::DeepSea),
        catalog()[3] == StyleModel::BuiltIn(BuiltInStyle::MonAmour),
        catalog()[4] == StyleModel::Bundled(BundledStyle::DraculaDark),
        catalog()[5] == StyleModel::Bundled(BundledStyle::DraculaLight),
        catalog()[6] == StyleModel::Bundled(BundledStyle::GruvboxDark),
        catalog()[7] == StyleModel::Bundled(BundledStyle::GruvboxLight),
        catalog()[8] == StyleModel::Bundled(BundledStyle::NordDark),
        catalog()[9] == StyleModel::Bundled(BundledStyle::NordLight),
        catalog()[10] == StyleModel::Bundled(BundledStyle::SolarizedDark),
        catalog()[11] == StyleModel::Bundled(BundledStyle::SolarizedLight),
{
}

/// The catalog holds every style but the file-backed one, each once.
pub proof fn lemma_catalog_is_the_static_styles()
    ensures
        forall|style: StyleModel| !style.is_file_backed() <==> catalog().contains(style),
        forall|i: int, j: int|
            0 <= i < j < catalog().len() ==> #[trigger] catalog()[i] != #[trigger] catalog()[j],
{
    lemma_catalog();
    assert forall|style: StyleModel| !style.is_file_backed() implies catalog().contains(style) by {
        let at: int = match style {
            StyleModel::BuiltIn(BuiltInStyle::Night) => 0,
            StyleModel::BuiltIn(BuiltInStyle::Day) => 1,
            StyleModel::BuiltIn(BuiltInStyle::DeepSea) => 2,
            StyleModel::BuiltIn(BuiltInStyle::MonAmour) => 3,
            StyleModel::Bundled(BundledStyle::DraculaDark) => 4,
            StyleModel::Bundled(BundledStyle::DraculaLight) => 5,
            StyleModel::Bundled(BundledStyle::GruvboxDark) => 6,
            StyleModel::Bundled(BundledStyle::GruvboxLight) => 7,
            StyleModel::Bundled(BundledStyle::NordDark) => 8,
            StyleModel::Bundled(BundledStyle::NordLight) => 9,
            StyleModel::Bundled(BundledStyle::SolarizedDark) => 10,
            StyleModel::Bundled(BundledStyle::SolarizedLight) => 11,
            StyleModel::CustomFile(_) => 0,
        };
        assert(catalog()[at] == style);
    }
    assert forall|style: StyleModel| catalog().contains(style) implies !style.is_file_backed() by {
        let at = choose|i: int| 0 <= i < catalog().len() && catalog()[i] == style;
        assert(catalog()[at] == style);
    }
}

/// No style of the catalog depends on a file, and each has a palette under
/// its own name.
pub proof fn lemma_catalog_styles_are_static(i: int)
    requires
        0 <= i < catalog().len(),
    ensures
        !catalog()[i].is_file_backed(),
        catalog()[i].display_name() == catalog()[i].palette().name,
{
    lemma_catalog();
}

} // verus!
