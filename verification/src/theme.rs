//! The editor theme: a dark and a light palette and the mode that picks
//! between them.
//!
//! Strokes are at most one pixel wide in both palettes, so a stroke is
//! carried as the colour of a one-pixel line, or nothing. Font sizes are a
//! concern of the GUI toolkit and stay with the host.

use vstd::prelude::*;
use crate::color::{Color, hex_color_spec, hex_to_color};

verus! {

#[derive(Clone, Debug, PartialEq, Eq, Structural)]
pub enum Mode {
    Dark,
    Light,
}

/// The colours one theme mode paints the editor with.
#[derive(Clone, Debug)]
pub struct Palette {
    pub bg: Color,
    pub panel: Color,
    pub property: Color,
    pub values: Color,
    pub widget_bg: Color,
    pub widget_weak_bg: Color,
    /// Colour of the one-pixel widget stroke, if widgets are stroked.
    pub widget_stroke: Option<Color>,
    pub selection_bg: Color,
    /// Colour of the one-pixel selection stroke, if selections are stroked.
    pub selection_stroke: Option<Color>,
    /// Text colour override, if the palette sets one.
    pub text_color: Option<Color>,
    pub accent: Color,
    pub button: Color,
}

/// An opaque grey with the given value in every channel.
pub open spec fn gray_spec(v: u8) -> Color {
    Color { r: v, g: v, b: v, a: 255 }
}

/// The default dark palette.
pub open spec fn dark_palette_spec() -> Palette {
    Palette {
        bg: hex_color_spec("#1D1D1D"@),
        panel: hex_color_spec("#282828"@),
        property: hex_color_spec("#3D3D3D"@),
        values: hex_color_spec("#545454"@),
        widget_bg: hex_color_spec("#2A2A2A"@),
        widget_weak_bg: hex_color_spec("#222222"@),
        widget_stroke: None,
        selection_bg: hex_color_spec("#3A6EA5"@),
        selection_stroke: None,
        text_color: Some(gray_spec(242)),
        accent: hex_color_spec("#3A6EA5"@),
        button: hex_color_spec("#E0E0E0"@),
    }
}

/// The default light palette.
pub open spec fn light_palette_spec() -> Palette {
    Palette {
        bg: hex_color_spec("#E0E0E0"@),
        panel: hex_color_spec("#F0F0F0"@),
        property: hex_color_spec("#d1d1d1"@),
        values: hex_color_spec("#bcbcbc"@),
        widget_bg: hex_color_spec("#EBEBEB"@),
        widget_weak_bg: hex_color_spec("#F5F5F5"@),
        widget_stroke: Some(hex_color_spec("#D0D0D0"@)),
        selection_bg: hex_color_spec("#3A6EA5"@),
        selection_stroke: None,
        text_color: Some(gray_spec(40)),
        accent: hex_color_spec("#3A6EA5"@),
        button: hex_color_spec("#282828"@),
    }
}

/// The theme: both palettes and the mode currently in force.
#[derive(Clone, Debug)]
pub struct ThemeResource {
    pub mode: Mode,
    pub dark: Palette,
    pub light: Palette,
}

impl Default for ThemeResource {
    /// The default theme: the stock palettes, dark mode in force.
    fn default() -> (r: Self)
        ensures
            r.mode == Mode::Dark,
            r.dark == dark_palette_spec(),
            r.light == light_palette_spec(),
    {
        let dark = Palette {
            bg: hex_to_color("#1D1D1D"),
            panel: hex_to_color("#282828"),
            property: hex_to_color("#3D3D3D"),
            values: hex_to_color("#545454"),
            widget_bg: hex_to_color("#2A2A2A"),
            widget_weak_bg: hex_to_color("#222222"),
            widget_stroke: None,
            selection_bg: hex_to_color("#3A6EA5"),
            selection_stroke: None,
            text_color: Some(Color { r: 242, g: 242, b: 242, a: 255 }),
            accent: hex_to_color("#3A6EA5"),
            button: hex_to_color("#E0E0E0"),
        };
        let light = Palette {
            bg: hex_to_color("#E0E0E0"),
            panel: hex_to_color("#F0F0F0"),
            property: hex_to_color("#d1d1d1"),
            values: hex_to_color("#bcbcbc"),
            widget_bg: hex_to_color("#EBEBEB"),
            widget_weak_bg: hex_to_color("#F5F5F5"),
            widget_stroke: Some(hex_to_color("#D0D0D0")),
            selection_bg: hex_to_color("#3A6EA5"),
            selection_stroke: None,
            text_color: Some(Color { r: 40, g: 40, b: 40, a: 255 }),
            accent: hex_to_color("#3A6EA5"),
            button: hex_to_color("#282828"),
        };
        ThemeResource { mode: Mode::Dark, dark, light }
    }
}

impl ThemeResource {
    /// The palette the current mode selects.
    pub fn current(&self) -> (p: &Palette)
        ensures
            self.mode == Mode::Dark ==> p == self.dark,
            self.mode == Mode::Light ==> p == self.light,
    {
        match self.mode {
            Mode::Dark => &self.dark,
            Mode::Light => &self.light,
        }
    }

    /// Switch between dark and light mode; the palettes themselves stay as
    /// they are. The host re-applies the style to its GUI context after.
    pub fn toggle_mode(&mut self)
        ensures
            old(self).mode == Mode::Dark ==> final(self).mode == Mode::Light,
            old(self).mode == Mode::Light ==> final(self).mode == Mode::Dark,
            final(self).dark == old(self).dark,
            final(self).light == old(self).light,
    {
        self.mode = match self.mode {
            Mode::Dark => Mode::Light,
            Mode::Light => Mode::Dark,
        };
    }
}

} // verus!
