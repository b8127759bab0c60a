use vstd::prelude::*;

verus! {

pub const DEFAULT_SCREEN_WIDTH: u32 = 600;

pub const DEFAULT_SCREEN_HEIGHT: u32 = 600;

pub const DEFAULT_FOV_DEGREES: u32 = 90;

pub const DEFAULT_SAMPLES_PER_PIXEL: u32 = 4;

pub const DEFAULT_LIGHT_SAMPLES: u32 = 4;

pub const DEFAULT_MAX_BOUNCES: u32 = 50;

} // verus!
