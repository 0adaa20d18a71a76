//! Embed colours used by the bot's replies.
use vstd::prelude::*;

verus! {

/// Discord's blurple.
pub const BLURPLE: i32 = 5793266;

/// Discord's green.
pub const GREEN: i32 = 5763719;

/// Discord's yellow.
pub const YELLOW: i32 = 16705372;

/// Discord's fuchsia.
pub const FUCHSIA: i32 = 15418782;

/// Discord's red.
pub const RED: i32 = 15548997;

} // verus!
