//! Colours and the colour schemes of the editor.

use vstd::prelude::*;

verus! {

/// A colour by its four channels.
#[derive(Debug, Clone, Copy, PartialEq, Eq, Hash, Structural)]
pub struct Color {
    pub r: u8,
    pub g: u8,
    pub b: u8,
    pub a: u8,
}

/// Calls `egui::Color32::from_rgb` and reads the four channels of what it
/// returns. Trusted: the colour has the given red, green and blue and is
/// opaque, that is, its alpha is 255.
#[verifier::external_body]
fn opaque_rgb(r: u8, g: u8, b: u8) -> (color: Color)
    ensures
        color == (Color { r, g, b, a: 255 }),
{
    let made = egui::Color32::from_rgb(r, g, b);
    Color { r: made.r(), g: made.g(), b: made.b(), a: made.a() }
}

/// Calls `egui::Color32::from_gray` and reads the four channels of what it
/// returns. Trusted: red, green and blue all equal the given lightness, and
/// the colour is opaque.
#[verifier::external_body]
fn opaque_gray(l: u8) -> (color: Color)
    ensures
        color == (Color { r: l, g: l, b: l, a: 255 }),
{
    let made = egui::Color32::from_gray(l);
    Color { r: made.r(), g: made.g(), b: made.b(), a: made.a() }
}

/// The opaque colour with the given red, green and blue.
pub open spec fn rgb(r: u8, g: u8, b: u8) -> Color {
    Color { r, g, b, a: 255 }
}

/// The opaque gray of the given lightness.
pub open spec fn gray(l: u8) -> Color {
    Color { r: l, g: l, b: l, a: 255 }
}

/// A colour scheme: a name and the colours of the editor's surfaces.
#[derive(Clone, Debug, PartialEq, Eq)]
pub struct ColorPallet {
    pub label: String,
    pub grid: Color,
    pub grid_lines: Color,
    pub text: Color,
    pub base: Color,
    pub button: Color,
    pub button_hover: Color,
    pub button_pushed: Color,
    pub selection: Color,
    pub selection_text: Color,
}

/// A colour scheme as a plain value.
pub struct Scheme {
    pub label: Seq<char>,
    pub grid: Color,
    pub grid_lines: Color,
    pub text: Color,
    pub base: Color,
    pub button: Color,
    pub button_hover: Color,
    pub button_pushed: Color,
    pub selection: Color,
    pub selection_text: Color,
}

impl View for ColorPallet {
    type V = Scheme;

    open spec fn view(&self) -> Scheme {
        Scheme {
            label: self.label@,
            grid: self.grid,
            grid_lines: self.grid_lines,
            text: self.text,
            base: self.base,
            button: self.button,
            button_hover: self.button_hover,
            button_pushed: self.button_pushed,
            selection: self.selection,
            selection_text: self.selection_text,
        }
    }
}

impl ColorPallet {
    /// The scheme named "Default": grays with a blue selection.
    pub open spec fn default_scheme() -> Scheme {
        Scheme {
            label: "Default"@,
            grid: gray(40),
            grid_lines: gray(75),
            text: gray(210),
            base: gray(35),
            button: gray(50),
            button_hover: gray(40),
            button_pushed: gray(20),
            selection: rgb(77, 151, 255),
            selection_text: gray(15),
        }
    }

    /// The scheme named "Catppuccin Mocha".
    pub open spec fn catppuccin_mocha_scheme() -> Scheme {
        Scheme {
            label: "Catppuccin Mocha"@,
            grid: rgb(30, 30, 46),
            grid_lines: rgb(88, 91, 112),
            text: rgb(205, 214, 244),
            base: rgb(24, 24, 37),
            button: rgb(49, 50, 68),
            button_hover: rgb(24, 24, 37),
            button_pushed: rgb(17, 17, 27),
            selection: rgb(245, 194, 231),
            selection_text: rgb(17, 17, 27),
        }
    }

    /// The scheme named "Nord".
    pub open spec fn nord_scheme() -> Scheme {
        Scheme {
            label: "Nord"@,
            grid: rgb(67, 76, 94),
            grid_lines: rgb(76, 86, 106),
            text: rgb(236, 239, 244),
            base: rgb(59, 66, 82),
            button: rgb(76, 86, 106),
            button_hover: rgb(67, 76, 94),
            button_pushed: rgb(46, 52, 64),
            selection: rgb(129, 161, 193),
            selection_text: rgb(46, 52, 64),
        }
    }

    /// The scheme a name stands for: the two named schemes for their names,
    /// and the default scheme for every other name.
    pub open spec fn scheme_of(label: Seq<char>) -> Scheme {
        if label == "Catppuccin Mocha"@ {
            Self::catppuccin_mocha_scheme()
        } else if label == "Nord"@ {
            Self::nord_scheme()
        } else {
            Self::default_scheme()
        }
    }

    /// The scheme in use when none was chosen.
    pub fn default_pallet() -> (pallet: Self)
        ensures
            pallet@ == Self::default_scheme(),
    {
        ColorPallet {
            label: "Default".to_owned(),
            grid: opaque_gray(40),
            grid_lines: opaque_gray(75),
            text: opaque_gray(210),
            base: opaque_gray(35),
            button: opaque_gray(50),
            button_hover: opaque_gray(40),
            button_pushed: opaque_gray(20),
            selection: opaque_rgb(77, 151, 255),
            selection_text: opaque_gray(15),
        }
    }

    /// The scheme named "Catppuccin Mocha".
    pub fn catppuccin_mocha() -> (pallet: Self)
        ensures
            pallet@ == Self::catppuccin_mocha_scheme(),
    {
        ColorPallet {
            label: "Catppuccin Mocha".to_owned(),
            grid: opaque_rgb(30, 30, 46),
            grid_lines: opaque_rgb(88, 91, 112),
            text: opaque_rgb(205, 214, 244),
            base: opaque_rgb(24, 24, 37),
            button: opaque_rgb(49, 50, 68),
            button_hover: opaque_rgb(24, 24, 37),
            button_pushed: opaque_rgb(17, 17, 27),
            selection: opaque_rgb(245, 194, 231),
            selection_text: opaque_rgb(17, 17, 27),
        }
    }

    /// The scheme named "Nord".
    pub fn nord() -> (pallet: Self)
        ensures
            pallet@ == Self::nord_scheme(),
    {
        ColorPallet {
            label: "Nord".to_owned(),
            grid: opaque_rgb(67, 76, 94),
            grid_lines: opaque_rgb(76, 86, 106),
            text: opaque_rgb(236, 239, 244),
            base: opaque_rgb(59, 66, 82),
            button: opaque_rgb(76, 86, 106),
            button_hover: opaque_rgb(67, 76, 94),
            button_pushed: opaque_rgb(46, 52, 64),
            selection: opaque_rgb(129, 161, 193),
            selection_text: opaque_rgb(46, 52, 64),
        }
    }

    /// The names the settings offer, in the order they are listed.
    pub fn color_schemes() -> (names: Vec<&'static str>)
        ensures
            names@.len() == 4,
            names@[0]@ == "Defaut"@,
            names@[1]@ == "Catppuccin Mocha"@,
            names@[2]@ == "Nord"@,
            names@[3]@ == "Custom"@,
    {
        vec!["Defaut", "Catppuccin Mocha", "Nord", "Custom"]
    }

    /// The scheme of the given name; a name that belongs to no scheme gives
    /// the default one.
    pub fn from_label(label: &str) -> (pallet: Self)
        ensures
            pallet@ == Self::scheme_of(label@),
    {
        let name: String = label.to_owned();
        if name == "Catppuccin Mocha".to_owned() {
            Self::catppuccin_mocha()
        } else if name == "Nord".to_owned() {
            Self::nord()
        } else {
            Self::default_pallet()
        }
    }

    /// This scheme under the name "Custom", with its colours unchanged.
    pub fn as_custom(&self) -> (pallet: Self)
        ensures
            pallet@ == (Scheme { label: "Custom"@, ..self@ }),
    {
        ColorPallet {
            label: "Custom".to_owned(),
            grid: self.grid,
            grid_lines: self.grid_lines,
            text: self.text,
            base: self.base,
            button: self.button,
            button_hover: self.button_hover,
            button_pushed: self.button_pushed,
            selection: self.selection,
            selection_text: self.selection_text,
        }
    }

    /// The scheme to use once the entry `choice` of the settings was picked:
    /// "Custom" keeps the colours in use under that name, and every other
    /// entry gives the scheme of its name.
    pub fn choose_scheme(&self, choice: &str) -> (pallet: Self)
        ensures
            pallet@ == if choice@ == "Custom"@ {
                Scheme { label: "Custom"@, ..self@ }
            } else {
                Self::scheme_of(choice@)
            },
    {
        if choice.to_owned() == "Custom".to_owned() {
            self.as_custom()
        } else {
            Self::from_label(choice)
        }
    }
}

impl Default for ColorPallet {
    fn default() -> (pallet: Self)
        ensures
            pallet@ == Self::default_scheme(),
    {
        Self::default_pallet()
    }
}

/// The colour a part has when none was painted on it.
pub fn default_gate_color() -> (color: Color)
    ensures
        color == rgb(0xDF, 0x7F, 0x01),
{
    opaque_rgb(0xDF, 0x7F, 0x01)
}

/// The fill of a part that is not powered.
pub fn unpowered_color() -> (color: Color)
    ensures
        color == gray(35),
{
    opaque_gray(35)
}

/// The fill of a part that is powered.
pub fn powered_color() -> (color: Color)
    ensures
        color == rgb(0, 149, 255),
{
    opaque_rgb(0, 149, 255)
}

} // verus!
