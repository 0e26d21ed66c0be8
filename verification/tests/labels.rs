use reactionlab::modes::click_timing_reaction_test::state::{
    acknowledge, choose_direction, choose_stop_behavior, direction_for, stop_behavior_for,
    Acknowledgement,
};
use reactionlab::random::coin_from_draw;
use reactionlab::modes::click_timing_reaction_test::types::FalseClickAction;
use reactionlab::modes::click_timing_reaction_test::types as click_types;
use reactionlab::modes::click_timing_reaction_test::types::{
    CrosshairStyle, InitialVelocityMode, RoundOutcome, StopBehavior, TargetDirection,
};
use reactionlab::modes::click_timing_reaction_test::ClickTimingReactionTest;
use reactionlab::modes::click_timing_test::crosshair_style_label;
use reactionlab::modes::ModeId;

#[test]
fn mode_labels() {
    assert_eq!(ModeId::SimpleReactionTimeTest.label(), "Simple reaction time test");
    assert_eq!(ModeId::ClickTimingTest.label(), "Click timing test");
    assert_eq!(ModeId::VideoClickTimingTest.label(), "Video click timing test");
}

#[test]
fn click_timing_labels() {
    assert_eq!(TargetDirection::FromLeft.label(), "Left");
    assert_eq!(TargetDirection::FromRight.label(), "Right");
    assert_eq!(StopBehavior::StopOnCrosshair.label(), "Stop on crosshair");
    assert_eq!(StopBehavior::ContinueToOppositeWall.label(), "Continue to opposite wall");
    assert_eq!(RoundOutcome::AlmostThereTooSoon.label(), "Almost there, too soon");
    assert_eq!(RoundOutcome::TooLateClick.label(), "Too late click");
    assert!(RoundOutcome::Hit.is_hit());
    assert!(!RoundOutcome::TooSoon.is_hit());
    assert_eq!(crosshair_style_label(CrosshairStyle::CircularDot), "Circular dot");
    assert_eq!(CrosshairStyle::default(), CrosshairStyle::Regular);
    assert_eq!(InitialVelocityMode::default(), InitialVelocityMode::Full);
    assert_eq!(ClickTimingReactionTest::new(), ClickTimingReactionTest);
}

#[test]
fn click_round_decisions() {
    assert_eq!(choose_direction(true, false), TargetDirection::FromLeft);
    assert_eq!(choose_direction(false, true), TargetDirection::FromRight);
    assert_eq!(choose_direction(false, false), TargetDirection::FromLeft);
    assert_eq!(choose_stop_behavior(true), StopBehavior::StopOnCrosshair);
    assert_eq!(
        acknowledge(true, 0, 1, FalseClickAction::RetryRound),
        (1, Acknowledgement::FinishRun)
    );
    assert_eq!(
        acknowledge(true, 0, 2, FalseClickAction::RetryRound),
        (1, Acknowledgement::NextRound)
    );
    assert_eq!(
        acknowledge(false, 0, 2, FalseClickAction::RetryRound),
        (0, Acknowledgement::NextRound)
    );
    assert_eq!(
        acknowledge(false, 1, 2, FalseClickAction::EndRun),
        (1, Acknowledgement::FinishRun)
    );
    assert_eq!(
        acknowledge(true, 0, 0, FalseClickAction::EndRun),
        (1, Acknowledgement::FinishRun)
    );
}

#[test]
fn click_timing_defaults() {
    assert_eq!(click_types::default_crosshair_color(), [255, 210, 40, 255]);
    assert_eq!(click_types::default_crosshair_outline_color(), [0, 0, 0, 255]);
    assert_eq!(click_types::default_target_color(), [200, 200, 255, 255]);
    assert!(!click_types::default_stop_on_crosshair());
    assert_eq!(click_types::default_acceleration_duration(), 500);
    assert_eq!(click_types::default_deceleration_duration(), 125);
    assert_eq!(click_types::default_notify_miss_after(), 200);
    assert!(click_types::default_target_direction_left());
    assert!(click_types::default_target_direction_right());
    assert_eq!(click_types::default_min_wait(), 500);
    assert_eq!(click_types::default_max_wait(), 5000);
    assert_eq!(click_types::default_round_count(), 5);
}

#[test]
fn coin_decides_side_and_stop() {
    assert!(coin_from_draw(0));
    assert!(!coin_from_draw(1));
    assert_eq!(direction_for(true, true, true), TargetDirection::FromLeft);
    assert_eq!(direction_for(true, true, false), TargetDirection::FromRight);
    assert_eq!(direction_for(false, true, true), TargetDirection::FromRight);
    assert_eq!(direction_for(true, false, false), TargetDirection::FromLeft);
    assert_eq!(direction_for(false, false, false), TargetDirection::FromLeft);
    assert_eq!(stop_behavior_for(false, false), StopBehavior::ContinueToOppositeWall);
    assert_eq!(stop_behavior_for(false, true), StopBehavior::StopOnCrosshair);
    assert_eq!(stop_behavior_for(true, false), StopBehavior::StopOnCrosshair);
}
