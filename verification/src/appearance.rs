//! Appearance settings: font size, colours, font family and line spacing.
//!
//! Sizes are kept in hundredths, so that the bounds of the controls can be
//! stated over integers: a font size of 14 is `1400`, a spacing of 1.5 is `150`.

use vstd::prelude::*;

verus! {

/// Smallest font size that the settings accept, in hundredths of a point.
pub const FONT_SIZE_MIN: u32 = 1000;

/// Largest font size that the settings accept, in hundredths of a point.
pub const FONT_SIZE_MAX: u32 = 10000;

/// Font size of a fresh configuration, in hundredths of a point.
pub const FONT_SIZE_DEFAULT: u32 = 1400;

/// Smallest line spacing, in hundredths.
pub const LINE_SPACING_MIN: u32 = 100;

/// Largest line spacing, in hundredths.
pub const LINE_SPACING_MAX: u32 = 500;

/// Line spacing of a fresh configuration, in hundredths.
pub const LINE_SPACING_DEFAULT: u32 = 150;

/// An sRGB colour with alpha.
#[derive(Clone, Copy, Debug, PartialEq, Eq, Structural)]
pub struct Color {
    pub r: u8,
    pub g: u8,
    pub b: u8,
    pub a: u8,
}

impl Color {
    /// The opaque colour with the given channels.
    pub open spec fn spec_rgb(r: u8, g: u8, b: u8) -> Color {
        Color { r, g, b, a: 255 }
    }

    /// The opaque colour with the given channels.
    #[verifier::when_used_as_spec(spec_rgb)]
    pub fn rgb(r: u8, g: u8, b: u8) -> (c: Color)
        ensures
            c == Color::spec_rgb(r, g, b),
    {
        Color { r, g, b, a: 255 }
    }
}

/// The two font families that the editor offers.
#[derive(Clone, Copy, Debug, PartialEq, Eq, Structural)]
pub enum FontFamily {
    Monospace,
    Proportional,
}

/// One edit made through a control of the settings panel.
#[derive(Clone, Copy, Debug, PartialEq, Eq, Structural)]
pub enum SettingChange {
    FontSize(u32),
    BackgroundColor(Color),
    TextColor(Color),
    FontFamily(FontFamily),
    LineSpacing(u32),
}

/// `value` brought into `lo..=hi`.
pub open spec fn clamped(value: u32, lo: u32, hi: u32) -> u32 {
    if value < lo {
        lo
    } else if value > hi {
        hi
    } else {
        value
    }
}

/// `value` brought into `lo..=hi`, as a slider does with what it is given.
pub fn clamp_to(value: u32, lo: u32, hi: u32) -> (r: u32)
    requires
        lo <= hi,
    ensures
        r == clamped(value, lo, hi),
        lo <= r <= hi,
{
    if value < lo {
        lo
    } else if value > hi {
        hi
    } else {
        value
    }
}

/// How the editor draws its text.
#[derive(Clone, Copy, Debug, PartialEq, Eq, Structural)]
pub struct AppearanceConfig {
    pub font_size: u32,
    pub background_color: Color,
    pub text_color: Color,
    pub font_family: FontFamily,
    pub line_spacing: u32,
}

impl AppearanceConfig {
    /// Both sizes lie within the bounds of their controls.
    pub open spec fn wf(self) -> bool {
        &&& FONT_SIZE_MIN <= self.font_size <= FONT_SIZE_MAX
        &&& LINE_SPACING_MIN <= self.line_spacing <= LINE_SPACING_MAX
    }

    /// The configuration of a fresh editor: size 14, black on white,
    /// monospace, spacing 1.5.
    pub open spec fn initial() -> AppearanceConfig {
        AppearanceConfig {
            font_size: FONT_SIZE_DEFAULT,
            background_color: Color::spec_rgb(255, 255, 255),
            text_color: Color::spec_rgb(0, 0, 0),
            font_family: FontFamily::Monospace,
            line_spacing: LINE_SPACING_DEFAULT,
        }
    }

    /// The configuration after one edit: the edited field takes the new value,
    /// a size brought into its bounds first, and the other fields stay.
    pub open spec fn changed(self, change: SettingChange) -> AppearanceConfig {
        match change {
            SettingChange::FontSize(v) => AppearanceConfig {
                font_size: clamped(v, FONT_SIZE_MIN, FONT_SIZE_MAX),
                ..self
            },
            SettingChange::BackgroundColor(c) => AppearanceConfig { background_color: c, ..self },
            SettingChange::TextColor(c) => AppearanceConfig { text_color: c, ..self },
            SettingChange::FontFamily(f) => AppearanceConfig { font_family: f, ..self },
            SettingChange::LineSpacing(v) => AppearanceConfig {
                line_spacing: clamped(v, LINE_SPACING_MIN, LINE_SPACING_MAX),
                ..self
            },
        }
    }

    /// The configuration that every editor starts with.
    pub fn new() -> (c: AppearanceConfig)
        ensures
            c == AppearanceConfig::initial(),
            c.wf(),
    {
        AppearanceConfig {
            font_size: FONT_SIZE_DEFAULT,
            background_color: Color::rgb(255, 255, 255),
            text_color: Color::rgb(0, 0, 0),
            font_family: FontFamily::Monospace,
            line_spacing: LINE_SPACING_DEFAULT,
        }
    }

    /// Applies one edit of the settings panel.
    pub fn apply(&mut self, change: SettingChange)
        ensures
            *final(self) == old(self).changed(change),
            final(self).wf() <== old(self).wf(),
    {
        match change {
            SettingChange::FontSize(v) => {
                self.font_size = clamp_to(v, FONT_SIZE_MIN, FONT_SIZE_MAX);
            },
            SettingChange::BackgroundColor(c) => {
                self.background_color = c;
            },
            SettingChange::TextColor(c) => {
                self.text_color = c;
            },
            SettingChange::FontFamily(f) => {
                self.font_family = f;
            },
            SettingChange::LineSpacing(v) => {
                self.line_spacing = clamp_to(v, LINE_SPACING_MIN, LINE_SPACING_MAX);
            },
        }
    }
}

} // verus!
