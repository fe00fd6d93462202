use vstd::prelude::*;

verus! {

/// Seconds until the program ends by itself; `0` means never.
pub const DEFAULT_DURATION: u64 = 30;

/// Half opacity, as a level of the full `u32` range.
pub const DEFAULT_ALPHA_LEVEL: u32 = 2147483647;

/// Length of the fade-in, in milliseconds.
pub const DEFAULT_FADE_MS: u64 = 500;

/// Side of a surface, in logical pixels, before the compositor gives a size.
pub const INIT_SIZE: u32 = 100;

pub const CONFIG_FILENAME: &'static str = "config.toml";

} // verus!
