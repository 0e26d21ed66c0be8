pub mod click_timing_reaction_test;
pub mod click_timing_test;
pub mod simple_reaction_time_test;
pub mod video_click_timing_test;


use vstd::prelude::*;

verus! {

/// The test modes offered by the application.
#[derive(Debug, Clone, Copy, PartialEq, Eq, Structural)]
pub enum ModeId {
    SimpleReactionTimeTest,
    ClickTimingTest,
    VideoClickTimingTest,
}

/// The tab label shown for each mode.
pub open spec fn mode_label(mode: ModeId) -> Seq<char> {
    match mode {
        ModeId::SimpleReactionTimeTest => "Simple reaction time test"@,
        ModeId::ClickTimingTest => "Click timing test"@,
        ModeId::VideoClickTimingTest => "Video click timing test"@,
    }
}

impl ModeId {
    pub fn label(&self) -> (r: &'static str)
        ensures
            r@ == mode_label(*self),
    {
        match self {
            ModeId::SimpleReactionTimeTest => "Simple reaction time test",
            ModeId::ClickTimingTest => "Click timing test",
            ModeId::VideoClickTimingTest => "Video click timing test",
        }
    }
}

} // verus!
