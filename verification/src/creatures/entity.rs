//! Names under which the land lists what stands on it.
use vstd::prelude::*;

verus! {

/// The name under which the land lists its taxis.
pub const TAXI: &'static str = "taxi";

/// The name under which the land lists its enemies.
pub const ENEMY: &'static str = "enemy";

/// The name a personal trainer would be listed under.
pub const PERSONAL_TRAINER: &'static str = "trainer";

} // verus!
