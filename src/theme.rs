//! The palette that the widgets paint with, as 32-bit RGBA values.
use vstd::prelude::*;

verus! {

/// A named colour of the palette.
#[derive(Clone, Copy, Debug, PartialEq, Eq, Structural)]
pub enum ColorKey {
    Primary,
    PrimaryVariant,
    Secondary,
    SecondaryVariant,
    Background,
    Surface,
    Error,
    OnPrimary,
    OnSecondary,
    OnBackground,
    OnSurface,
    OnError,
    BorderDark,
    BorderLight,
    WindowBackground,
    BackgroundDark,
    Label,
}

/// The colours installed before first use, in installation order. `Error`
/// is left to the host's own default.
pub open spec fn material_palette() -> Seq<(ColorKey, u32)> {
    seq![
        (ColorKey::Primary, 0x6200EEFFu32),
        (ColorKey::PrimaryVariant, 0x3700B3FFu32),
        (ColorKey::Secondary, 0x03DAC6FFu32),
        (ColorKey::SecondaryVariant, 0x018786FFu32),
        (ColorKey::Background, 0xFFFFFFFFu32),
        (ColorKey::Surface, 0xFFFFFFFFu32),
        (ColorKey::OnPrimary, 0xFFFFFFFFu32),
        (ColorKey::OnSecondary, 0x000000FFu32),
        (ColorKey::OnBackground, 0x000000FFu32),
        (ColorKey::OnSurface, 0x000000FFu32),
        (ColorKey::OnError, 0xFFFFFFFFu32),
        (ColorKey::BorderDark, 0x222222FFu32),
        (ColorKey::BorderLight, 0x444444FFu32),
        (ColorKey::WindowBackground, 0xFFFFFFFFu32),
        (ColorKey::BackgroundDark, 0xFFFFFFFFu32),
        (ColorKey::Label, 0x000000FFu32),
    ]
}

/// The default palette, to be installed into the host's theme once.
pub fn material_defaults() -> (r: Vec<(ColorKey, u32)>)
    ensures
        r@ == material_palette(),
{
    let r = vec![
        (ColorKey::Primary, 0x6200EEFFu32),
        (ColorKey::PrimaryVariant, 0x3700B3FFu32),
        (ColorKey::Secondary, 0x03DAC6FFu32),
        (ColorKey::SecondaryVariant, 0x018786FFu32),
        (ColorKey::Background, 0xFFFFFFFFu32),
        (ColorKey::Surface, 0xFFFFFFFFu32),
        (ColorKey::OnPrimary, 0xFFFFFFFFu32),
        (ColorKey::OnSecondary, 0x000000FFu32),
        (ColorKey::OnBackground, 0x000000FFu32),
        (ColorKey::OnSurface, 0x000000FFu32),
        (ColorKey::OnError, 0xFFFFFFFFu32),
        (ColorKey::BorderDark, 0x222222FFu32),
        (ColorKey::BorderLight, 0x444444FFu32),
        (ColorKey::WindowBackground, 0xFFFFFFFFu32),
        (ColorKey::BackgroundDark, 0xFFFFFFFFu32),
        (ColorKey::Label, 0x000000FFu32),
    ];
    assert(r@ =~= material_palette());
    r
}

} // verus!
