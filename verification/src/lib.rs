//! The base layer of a freestanding kernel: the formatting sink, the
//! description combinator and the two boot stages.

use crate::lifecycle::BootAction;
use crate::lifecycle::Lifecycle;
use vstd::prelude::*;

pub mod describe;
pub mod lifecycle;
pub mod sink;

verus! {

/// The first boot stage, run once the machine has a stack and little else.
///
/// It asks for exactly one thing, the setup of the debug channel, and
/// neither allocates nor blocks. The boot sequence carries the request out
/// before it goes on; if the channel cannot be set up, the boot ends there.
/// The stage runs first and once: the caller sees to that.
pub fn init_stage1(state: &mut Lifecycle) -> (action: Option<BootAction>)
    requires
        *old(state) == Lifecycle::Uninitialized,
    ensures
        *final(state) == Lifecycle::Stage1Complete,
        action == Some(BootAction::SetupDebug),
{
    *state = Lifecycle::Stage1Complete;
    Some(BootAction::SetupDebug)
}

/// The second boot stage, run after the first once the rest of the machine
/// is ready.
///
/// It asks for nothing: all it does is move the lifecycle on. The stage
/// runs after stage 1 and once: the caller sees to that.
pub fn init_stage2(state: &mut Lifecycle) -> (action: Option<BootAction>)
    requires
        *old(state) == Lifecycle::Stage1Complete,
    ensures
        *final(state) == Lifecycle::Stage2Complete,
        action is None,
{
    *state = Lifecycle::Stage2Complete;
    None
}

} // verus!
