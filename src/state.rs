use vstd::prelude::*;

verus! {

/// Whether the game advances on each tick.
#[derive(Clone, Copy, PartialEq, Eq, Structural, Debug)]
pub enum State {
    Playing,
    Paused,
    GameOver,
}

} // verus!
