//! The boot lifecycle and what a stage asks of the boot sequence.

use vstd::prelude::*;

verus! {

/// How far the boot sequence has come. The states are reached in this
/// order, one stage at a time, and none is ever left backwards.
#[derive(Clone, Copy, Debug, PartialEq, Eq, Structural)]
pub enum Lifecycle {
    /// No stage has run.
    Uninitialized,
    /// Stage 1 has run: early diagnostics are possible.
    Stage1Complete,
    /// Stage 2 has run.
    Stage2Complete,
}

/// Work that a stage leaves to the boot sequence, which carries it out once
/// before it goes on.
#[derive(Clone, Copy, Debug, PartialEq, Eq, Structural)]
pub enum BootAction {
    /// Set up the channel for early diagnostics.
    SetupDebug,
}

} // verus!
