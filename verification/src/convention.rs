use vstd::prelude::*;

verus! {

/// The hardware revision that a cartridge asks to run on.
#[derive(Clone, Copy, PartialEq, Eq, Structural, Debug)]
pub enum Term {
    /// The first, monochrome model.
    GB,
    /// The pocket / light models.
    GBP,
    /// The colour model.
    GBC,
    /// The console adapter.
    SGB,
}

/// Master clock frequency in ticks per second.
pub const CPU_FREQ: u32 = 4194304;

/// Visible screen width in pixels.
pub const SCREEN_W: u8 = 160;

/// Visible screen height in pixels.
pub const SCREEN_H: u8 = 144;

} // verus!
