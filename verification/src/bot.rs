//! The bot itself: its name and its colour.

use vstd::prelude::*;

verus! {

/// The bot, under whose name its message builders and database access live.
#[derive(Clone, Copy, Debug)]
pub struct Valeriyya;

/// The colour of the bot's embeds, as `0xRRGGBB` (red 82, green 66, blue 100).
pub const PURPLE_COLOR: u32 = 0x52_42_64u32;

} // verus!
