//! Colours of eight bits a channel, and the three colours the meters use.

use vstd::prelude::*;

verus! {

/// A colour: red, green and blue, eight bits each.
#[derive(Debug, PartialEq, Eq, Structural, Clone, Copy)]
pub struct EightBitColor {
    pub red: u8,
    pub green: u8,
    pub blue: u8,
}

impl EightBitColor {
    /// The colour with the given channels.
    pub fn new(red: u8, green: u8, blue: u8) -> (r: EightBitColor)
        ensures
            r == (EightBitColor { red, green, blue }),
    {
        EightBitColor { red, green, blue }
    }

    /// The three channels: red, green, blue.
    pub fn into(self) -> (r: (u8, u8, u8))
        ensures
            r == (self.red, self.green, self.blue),
    {
        (self.red, self.green, self.blue)
    }

    /// The colour of the three channels `rgb`.
    pub fn from_rgb(rgb: (u8, u8, u8)) -> (r: EightBitColor)
        ensures
            r == (EightBitColor { red: rgb.0, green: rgb.1, blue: rgb.2 }),
            r.into_spec() == rgb,
    {
        EightBitColor { red: rgb.0, green: rgb.1, blue: rgb.2 }
    }

    /// The three channels: red, green, blue.
    pub open spec fn into_spec(self) -> (u8, u8, u8) {
        (self.red, self.green, self.blue)
    }

    /// Some channel is not zero.
    pub open spec fn has_color(self) -> bool {
        self.red != 0 || self.green != 0 || self.blue != 0
    }

    /// Says whether a background of this colour shows: some channel is not
    /// zero, or the background is `translucent` (its opacity is known and is
    /// not full).
    pub fn is_notblack(&self, translucent: bool) -> (r: bool)
        ensures
            r == (self.has_color() || translucent),
    {
        self.red != 0 || self.green != 0 || self.blue != 0 || translucent
    }
}

impl Default for EightBitColor {
    /// White.
    fn default() -> (r: EightBitColor)
        ensures
            r == (EightBitColor { red: 255, green: 255, blue: 255 }),
    {
        EightBitColor { red: 255, green: 255, blue: 255 }
    }
}

/// The colours of the meters, as channels.
#[derive(Debug, PartialEq, Eq, Clone, Copy)]
pub struct ColorConfig {
    pub red: (u8, u8, u8),
    pub green: (u8, u8, u8),
    pub orange: (u8, u8, u8),
}

impl ColorConfig {
    /// The colour for values that are fine.
    pub fn green(&self) -> (r: (u8, u8, u8))
        ensures
            r == self.green,
    {
        self.green
    }

    /// The colour for values that deserve attention.
    pub fn orange(&self) -> (r: (u8, u8, u8))
        ensures
            r == self.orange,
    {
        self.orange
    }

    /// The colour for values that are critical.
    pub fn red(&self) -> (r: (u8, u8, u8))
        ensures
            r == self.red,
    {
        self.red
    }
}

impl Default for ColorConfig {
    fn default() -> (r: ColorConfig)
        ensures
            r.red == (255u8, 51u8, 51u8),
            r.green == (153u8, 255u8, 51u8),
            r.orange == (255u8, 255u8, 0u8),
    {
        ColorConfig { red: (255, 51, 51), green: (153, 255, 51), orange: (255, 255, 0) }
    }
}

/// The colours of the meters.
#[derive(Debug, PartialEq, Eq, Clone, Copy)]
pub struct ColorAppConfig {
    pub red: EightBitColor,
    pub green: EightBitColor,
    pub orange: EightBitColor,
}

impl ColorAppConfig {
    /// The colour for values that are fine.
    pub fn green(&self) -> (r: EightBitColor)
        ensures
            r == self.green,
    {
        self.green
    }

    /// The colour for values that deserve attention.
    pub fn orange(&self) -> (r: EightBitColor)
        ensures
            r == self.orange,
    {
        self.orange
    }

    /// The colour for values that are critical.
    pub fn red(&self) -> (r: EightBitColor)
        ensures
            r == self.red,
    {
        self.red
    }

    /// The colour of the window's head: the configured one, or the orange
    /// of the default colours where none is configured.
    pub fn head_or_default(head: Option<EightBitColor>) -> (r: EightBitColor)
        ensures
            r == match head {
                Some(c) => c,
                None => (EightBitColor { red: 255, green: 255, blue: 0 }),
            },
    {
        match head {
            Some(c) => c,
            None => ColorAppConfig::default().orange(),
        }
    }
}

impl Default for ColorAppConfig {
    fn default() -> (r: ColorAppConfig)
        ensures
            r.red == (EightBitColor { red: 255, green: 51, blue: 51 }),
            r.green == (EightBitColor { red: 153, green: 255, blue: 51 }),
            r.orange == (EightBitColor { red: 255, green: 255, blue: 0 }),
    {
        ColorAppConfig {
            red: EightBitColor::new(255, 51, 51),
            green: EightBitColor::new(153, 255, 51),
            orange: EightBitColor::new(255, 255, 0),
        }
    }
}

} // verus!
