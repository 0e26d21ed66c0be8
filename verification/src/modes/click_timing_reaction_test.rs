pub mod round;
pub mod state;
pub mod storage;
pub mod types;

use vstd::prelude::*;

verus! {

/// The click timing reaction test mode.
#[derive(Debug, Clone, Copy, PartialEq, Eq, Structural)]
pub struct ClickTimingReactionTest;

impl ClickTimingReactionTest {
    pub fn new() -> (r: Self)
        ensures
            r == ClickTimingReactionTest,
    {
        ClickTimingReactionTest
    }
}

} // verus!
