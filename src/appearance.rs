//! The appearance snapshot and the changes that replace one of its fields.
use vstd::prelude::*;

verus! {

/// A preferred color scheme. "No preference" is the absence of a value.
#[derive(Clone, Copy, Debug, PartialEq, Eq, Structural)]
pub enum ColorSchemeKind {
    Light,
    Dark,
}

/// A preferred contrast. "No preference" is the absence of a value.
#[derive(Clone, Copy, Debug, PartialEq, Eq, Structural)]
pub enum ContrastKind {
    High,
}

/// An accent color as three 8-bit channels.
#[derive(Clone, Copy, Debug, PartialEq, Eq, Structural)]
pub struct Rgb {
    pub red: u8,
    pub green: u8,
    pub blue: u8,
}

/// One complete set of the three appearance preferences.
#[derive(Clone, Copy, Debug, PartialEq, Eq, Structural)]
pub struct Appearance {
    pub accent_color: Option<Rgb>,
    pub color_scheme: Option<ColorSchemeKind>,
    pub contrast: Option<ContrastKind>,
}

/// A change notification: the new value of exactly one attribute.
#[derive(Clone, Copy, Debug, PartialEq, Eq, Structural)]
pub enum Change {
    ColorScheme(Option<ColorSchemeKind>),
    AccentColor(Rgb),
    Contrast(Option<ContrastKind>),
}

impl Appearance {
    /// The snapshot that follows `self` once `c` has arrived: the changed field
    /// takes the new value, the other two are carried over.
    pub open spec fn applied(self, c: Change) -> Appearance {
        match c {
            Change::ColorScheme(v) => Appearance { color_scheme: v, ..self },
            Change::AccentColor(v) => Appearance { accent_color: Some(v), ..self },
            Change::Contrast(v) => Appearance { contrast: v, ..self },
        }
    }

    /// Builds the snapshot that follows `self` once `c` has arrived.
    pub fn with_change(&self, c: Change) -> (r: Appearance)
        ensures
            r == self.applied(c),
    {
        let mut r = *self;
        match c {
            Change::ColorScheme(v) => r.color_scheme = v,
            Change::AccentColor(v) => r.accent_color = Some(v),
            Change::Contrast(v) => r.contrast = v,
        }
        r
    }
}

} // verus!
