//! The colours the rules choose from.
use vstd::prelude::*;

verus! {

#[derive(Debug, Clone, Copy, PartialEq, Eq, Structural)]
pub enum Appearance {
    Dark,
    Light,
}

/// The theme's colour roles, each as packed red, green and blue.
#[derive(Debug, Clone, Copy, PartialEq, Eq, Structural)]
pub struct Theme {
    pub appearance: Appearance,
    pub danger: u32,
    pub warning: u32,
    pub busy: u32,
    pub success: u32,
    pub accent: u32,
    pub text: u32,
    pub text_muted: u32,
    pub text_faint: u32,
}

/// A colour and its opacity in percent.
#[derive(Debug, Clone, Copy, PartialEq, Eq, Structural)]
pub struct Tint {
    pub color: u32,
    pub percent: u8,
}

/// The colour at full opacity.
pub open spec fn solid_tint(color: u32) -> Tint {
    Tint { color, percent: 100 }
}

pub fn solid(color: u32) -> (r: Tint)
    ensures
        r == solid_tint(color),
{
    Tint { color, percent: 100 }
}

/// The variant of a pair that follows the appearance.
pub open spec fn variant(theme: Theme, on_dark: u32, on_light: u32) -> Tint {
    solid_tint(
        if theme.appearance is Dark {
            on_dark
        } else {
            on_light
        },
    )
}

pub fn pick(theme: &Theme, on_dark: u32, on_light: u32) -> (r: Tint)
    ensures
        r == variant(*theme, on_dark, on_light),
{
    match theme.appearance {
        Appearance::Dark => solid(on_dark),
        Appearance::Light => solid(on_light),
    }
}

} // verus!
