//! Palettes: one color for each role, and a display name.

use vstd::prelude::*;
use vstd::string::StringExecFns;

use crate::gui::styles::color::{opaque_rgb, Color};

verus! {

/// What a color of a palette is used for.
#[derive(Clone, Copy, Debug, PartialEq, Eq, Hash, Structural)]
pub enum ColorRole {
    /// Background of the window.
    Primary,
    /// Background of headers and of highlighted areas.
    Secondary,
    /// Outgoing traffic in charts and badges.
    Outgoing,
    /// Incoming traffic in charts and badges.
    Incoming,
    /// Buttons and other controls.
    Buttons,
    /// Text on the secondary background.
    TextHeaders,
    /// Text on the primary background.
    TextBody,
}

/// Every role once, in the order in which a palette lists them.
pub open spec fn role_order() -> Seq<ColorRole> {
    seq![
        ColorRole::Primary,
        ColorRole::Secondary,
        ColorRole::Outgoing,
        ColorRole::Incoming,
        ColorRole::Buttons,
        ColorRole::TextHeaders,
        ColorRole::TextBody,
    ]
}

impl ColorRole {
    /// The name under which a palette file gives the color of this role.
    pub open spec fn key_text(self) -> Seq<char> {
        match self {
            ColorRole::Primary => "primary"@,
            ColorRole::Secondary => "secondary"@,
            ColorRole::Outgoing => "outgoing"@,
            ColorRole::Incoming => "incoming"@,
            ColorRole::Buttons => "buttons"@,
            ColorRole::TextHeaders => "text_headers"@,
            ColorRole::TextBody => "text_body"@,
        }
    }

    /// The position of this role in [`role_order`].
    pub open spec fn position(self) -> int {
        match self {
            ColorRole::Primary => 0,
            ColorRole::Secondary => 1,
            ColorRole::Outgoing => 2,
            ColorRole::Incoming => 3,
            ColorRole::Buttons => 4,
            ColorRole::TextHeaders => 5,
            ColorRole::TextBody => 6,
        }
    }

    /// The name under which a palette file gives the color of this role.
    pub fn key(self) -> (name: &'static str)
        ensures
            name@ == self.key_text(),
    {
        match self {
            ColorRole::Primary => "primary",
            ColorRole::Secondary => "secondary",
            ColorRole::Outgoing => "outgoing",
            ColorRole::Incoming => "incoming",
            ColorRole::Buttons => "buttons",
            ColorRole::TextHeaders => "text_headers",
            ColorRole::TextBody => "text_body",
        }
    }

    /// Every role once, in palette order.
    pub fn all() -> (roles: Vec<ColorRole>)
        ensures
            roles@ == role_order(),
    {
        vec![
            ColorRole::Primary,
            ColorRole::Secondary,
            ColorRole::Outgoing,
            ColorRole::Incoming,
            ColorRole::Buttons,
            ColorRole::TextHeaders,
            ColorRole::TextBody,
        ]
    }
}

/// Each role stands in [`role_order`], at its position and nowhere else.
pub proof fn lemma_role_order_is_complete()
    ensures
        role_order().len() == 7,
        forall|role: ColorRole|
            0 <= #[trigger] role.position() < 7 && role_order()[role.position()] == role,
        forall|i: int| 0 <= i < 7 ==> (#[trigger] role_order()[i]).position() == i,
{
}

/// The mathematical content of a [`PaletteData`].
pub struct PaletteModel {
    pub primary: Color,
    pub secondary: Color,
    pub outgoing: Color,
    pub incoming: Color,
    pub buttons: Color,
    pub text_headers: Color,
    pub text_body: Color,
    pub name: Seq<char>,
}

impl PaletteModel {
    /// The color that the palette gives to `role`.
    pub open spec fn color(self, role: ColorRole) -> Color {
        match role {
            ColorRole::Primary => self.primary,
            ColorRole::Secondary => self.secondary,
            ColorRole::Outgoing => self.outgoing,
            ColorRole::Incoming => self.incoming,
            ColorRole::Buttons => self.buttons,
            ColorRole::TextHeaders => self.text_headers,
            ColorRole::TextBody => self.text_body,
        }
    }

    /// The palette as a map from every role to its color.
    pub open spec fn roles(self) -> Map<ColorRole, Color> {
        Map::total(|role: ColorRole| self.color(role))
    }
}

/// The palette named `name` that gives each role the color of `roles`.
/// Meant for maps that hold every role.
pub open spec fn palette_of(name: Seq<char>, roles: Map<ColorRole, Color>) -> PaletteModel {
    PaletteModel {
        primary: roles[ColorRole::Primary],
        secondary: roles[ColorRole::Secondary],
        outgoing: roles[ColorRole::Outgoing],
        incoming: roles[ColorRole::Incoming],
        buttons: roles[ColorRole::Buttons],
        text_headers: roles[ColorRole::TextHeaders],
        text_body: roles[ColorRole::TextBody],
        name,
    }
}

/// The palette named `name` whose colors are opaque and given as `0xRRGGBB`,
/// in palette order.
pub open spec fn opaque_palette(name: Seq<char>, rgb: Seq<u32>) -> PaletteModel {
    PaletteModel {
        primary: opaque_rgb(rgb[0]),
        secondary: opaque_rgb(rgb[1]),
        outgoing: opaque_rgb(rgb[2]),
        incoming: opaque_rgb(rgb[3]),
        buttons: opaque_rgb(rgb[4]),
        text_headers: opaque_rgb(rgb[5]),
        text_body: opaque_rgb(rgb[6]),
        name,
    }
}

/// A palette: a color for every role, and the name under which the palette
/// is shown. There is no palette with a role left out.
#[derive(Debug, PartialEq, Eq)]
pub struct PaletteData {
    pub primary: Color,
    pub secondary: Color,
    pub outgoing: Color,
    pub incoming: Color,
    pub buttons: Color,
    pub text_headers: Color,
    pub text_body: Color,
    pub name: String,
}

impl View for PaletteData {
    type V = PaletteModel;

    open spec fn view(&self) -> PaletteModel {
        PaletteModel {
            primary: self.primary,
            secondary: self.secondary,
            outgoing: self.outgoing,
            incoming: self.incoming,
            buttons: self.buttons,
            text_headers: self.text_headers,
            text_body: self.text_body,
            name: self.name@,
        }
    }
}

impl Clone for PaletteData {
    fn clone(&self) -> (copy: PaletteData)
        ensures
            copy == *self,
    {
        PaletteData {
            primary: self.primary,
            secondary: self.secondary,
            outgoing: self.outgoing,
            incoming: self.incoming,
            buttons: self.buttons,
            text_headers: self.text_headers,
            text_body: self.text_body,
            name: self.name.clone(),
        }
    }
}

impl PaletteData {
    /// A palette of opaque colors, each given as `0xRRGGBB`, in palette
    /// order.
    pub fn from_rgb(name: &str, rgb: [u32; 7]) -> (palette: PaletteData)
        ensures
            palette@ == opaque_palette(name@, rgb@),
    {
        PaletteData {
            primary: Color::from_rgb(rgb[0]),
            secondary: Color::from_rgb(rgb[1]),
            outgoing: Color::from_rgb(rgb[2]),
            incoming: Color::from_rgb(rgb[3]),
            buttons: Color::from_rgb(rgb[4]),
            text_headers: Color::from_rgb(rgb[5]),
            text_body: Color::from_rgb(rgb[6]),
            name: String::from_str(name),
        }
    }

    /// The color that the palette gives to `role`.
    pub fn color(&self, role: ColorRole) -> (color: Color)
        ensures
            color == self@.color(role),
    {
        match role {
            ColorRole::Primary => self.primary,
            ColorRole::Secondary => self.secondary,
            ColorRole::Outgoing => self.outgoing,
            ColorRole::Incoming => self.incoming,
            ColorRole::Buttons => self.buttons,
            ColorRole::TextHeaders => self.text_headers,
            ColorRole::TextBody => self.text_body,
        }
    }

    /// Whether two palettes have the same name and give every role the same
    /// color.
    pub fn same_as(&self, other: &PaletteData) -> (same: bool)
        ensures
            same == (self@ == other@),
    {
        self.primary == other.primary && self.secondary == other.secondary && self.outgoing
            == other.outgoing && self.incoming == other.incoming && self.buttons == other.buttons
            && self.text_headers == other.text_headers && self.text_body == other.text_body
            && self.name == other.name
    }
}

/// Two palettes that agree on their names and on every role are the same
/// palette.
pub proof fn lemma_palette_is_its_roles(a: PaletteModel, b: PaletteModel)
    requires
        a.name == b.name,
        forall|role: ColorRole| a.color(role) == b.color(role),
    ensures
        a == b,
{
    assert(a.color(ColorRole::Primary) == b.color(ColorRole::Primary));
    assert(a.color(ColorRole::Secondary) == b.color(ColorRole::Secondary));
    assert(a.color(ColorRole::Outgoing) == b.color(ColorRole::Outgoing));
    assert(a.color(ColorRole::Incoming) == b.color(ColorRole::Incoming));
    assert(a.color(ColorRole::Buttons) == b.color(ColorRole::Buttons));
    assert(a.color(ColorRole::TextHeaders) == b.color(ColorRole::TextHeaders));
    assert(a.color(ColorRole::TextBody) == b.color(ColorRole::TextBody));
}

} // verus!
