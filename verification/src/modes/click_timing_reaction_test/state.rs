//! The discrete decisions of the click timing reaction test's rounds. The moving
//! target itself is floating-point physics and stays with the application, which
//! asks these functions what a round looks like and what an acknowledgement does.

use super::types::{FalseClickAction, StopBehavior, TargetDirection};
use crate::random::coin_flip;
use vstd::prelude::*;

verus! {

/// The side the target comes from, given the coin tossed when both sides are
/// enabled: the only enabled side; heads left and tails right when both are
/// enabled; the left when neither is.
pub open spec fn direction_of(from_left: bool, from_right: bool, coin: bool) -> TargetDirection {
    if from_left && from_right {
        if coin {
            TargetDirection::FromLeft
        } else {
            TargetDirection::FromRight
        }
    } else if from_right {
        TargetDirection::FromRight
    } else {
        TargetDirection::FromLeft
    }
}

/// The side the target comes from, given the enabled sides and a coin.
pub fn direction_for(from_left: bool, from_right: bool, coin: bool) -> (r: TargetDirection)
    ensures
        r == direction_of(from_left, from_right, coin),
{
    if from_left && from_right {
        if coin {
            TargetDirection::FromLeft
        } else {
            TargetDirection::FromRight
        }
    } else if from_right {
        TargetDirection::FromRight
    } else {
        TargetDirection::FromLeft
    }
}

/// The side the target comes from: the only enabled side; either side, by a coin
/// toss, when both are enabled; the left when neither is.
pub fn choose_direction(from_left: bool, from_right: bool) -> (r: TargetDirection)
    ensures
        exists|coin: bool| r == direction_of(from_left, from_right, coin),
        from_left && !from_right ==> r == TargetDirection::FromLeft,
        !from_left && from_right ==> r == TargetDirection::FromRight,
        !from_left && !from_right ==> r == TargetDirection::FromLeft,
{
    let coin = if from_left && from_right {
        coin_flip()
    } else {
        true
    };
    direction_for(from_left, from_right, coin)
}

/// Whether the target stops on the crosshair, given the setting and a coin: it
/// stops when the setting asks for it or the coin shows heads.
pub open spec fn stop_behavior_of(stop_on_crosshair: bool, coin: bool) -> StopBehavior {
    if stop_on_crosshair || coin {
        StopBehavior::StopOnCrosshair
    } else {
        StopBehavior::ContinueToOppositeWall
    }
}

/// Whether the target stops on the crosshair, given the setting and a coin.
pub fn stop_behavior_for(stop_on_crosshair: bool, coin: bool) -> (r: StopBehavior)
    ensures
        r == stop_behavior_of(stop_on_crosshair, coin),
{
    if stop_on_crosshair || coin {
        StopBehavior::StopOnCrosshair
    } else {
        StopBehavior::ContinueToOppositeWall
    }
}

/// Whether the target stops on the crosshair: always when the setting asks for it,
/// otherwise as a coin toss decides.
pub fn choose_stop_behavior(stop_on_crosshair: bool) -> (r: StopBehavior)
    ensures
        exists|coin: bool| r == stop_behavior_of(stop_on_crosshair, coin),
        stop_on_crosshair ==> r == StopBehavior::StopOnCrosshair,
{
    let coin = if stop_on_crosshair {
        true
    } else {
        coin_flip()
    };
    stop_behavior_for(stop_on_crosshair, coin)
}

/// The choices turn on the coin: with both sides enabled the two faces send the
/// target from opposite sides, and with stopping left to chance the two faces give
/// the two behaviours; with only one side enabled, or stopping asked for, the coin
/// changes nothing.
pub proof fn lemma_choices_follow_the_coin(heads: bool, other: bool)
    ensures
        heads != other ==> direction_of(true, true, heads) != direction_of(true, true, other),
        heads != other ==> stop_behavior_of(false, heads) != stop_behavior_of(false, other),
        direction_of(true, true, heads) == TargetDirection::FromRight <==> !heads,
        stop_behavior_of(false, heads) == StopBehavior::ContinueToOppositeWall <==> !heads,
        direction_of(true, false, heads) == TargetDirection::FromLeft,
        direction_of(false, true, heads) == TargetDirection::FromRight,
        stop_behavior_of(true, heads) == StopBehavior::StopOnCrosshair,
{
}

/// What acknowledging a result leads to.
#[derive(Debug, Clone, Copy, PartialEq, Eq, Structural)]
pub enum Acknowledgement {
    /// Begin the next round (or retry this one).
    NextRound,
    /// The run is over.
    FinishRun,
}

/// The larger of the configured round count and one.
pub open spec fn rounds_per_run(round_count: usize) -> int {
    if round_count >= 1 {
        round_count as int
    } else {
        1
    }
}

/// The round counter after acknowledging a result, and what follows: a hit counts
/// a round and ends the run once the configured number of rounds (at least one)
/// is reached; any other outcome retries the round or ends the run, as configured.
pub fn acknowledge(
    hit: bool,
    current_round: usize,
    round_count: usize,
    false_click_action: FalseClickAction,
) -> (r: (usize, Acknowledgement))
    requires
        current_round < usize::MAX,
    ensures
        hit ==> r.0 == current_round + 1 && (r.1 == Acknowledgement::FinishRun <==> r.0
            >= rounds_per_run(round_count)),
        !hit ==> r.0 == current_round && (r.1 == Acknowledgement::FinishRun <==> false_click_action
            == FalseClickAction::EndRun),
{
    if hit {
        let next = current_round + 1;
        let rounds = if round_count >= 1 {
            round_count
        } else {
            1
        };
        if next >= rounds {
            (next, Acknowledgement::FinishRun)
        } else {
            (next, Acknowledgement::NextRound)
        }
    } else {
        match false_click_action {
            FalseClickAction::RetryRound => (current_round, Acknowledgement::NextRound),
            FalseClickAction::EndRun => (current_round, Acknowledgement::FinishRun),
        }
    }
}

} // verus!
