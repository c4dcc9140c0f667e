//! The lifecycle of a session.

use vstd::prelude::*;

verus! {

/// Whether the simulation is running or has ended. A session starts in
/// `Playing`, enters `GameOver` when the last life is lost and leaves it only
/// through a reset.
#[derive(Clone, Copy, Debug, PartialEq, Eq, Structural)]
pub enum GameState {
    Playing,
    GameOver,
}

} // verus!
