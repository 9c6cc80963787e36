//! The wide channel: who holds each flank, whether a player still has a wide
//! job, and what the job asks of him this tick — hold the touchline, advance
//! up it, or run in behind to the byline.
use vstd::prelude::*;
use crate::model::PlayerSide;
use crate::exertion::ActivityIntensity;

verus! {

/// A touchline.
#[derive(Debug, Clone, Copy, PartialEq, Eq, Structural)]
pub enum Flank {
    Left,
    Right,
}

/// The team plan's width assignments.
#[derive(Debug, Clone, Copy, PartialEq, Eq, Structural)]
pub struct WidePlan {
    pub left_holder: Option<u32>,
    pub right_holder: Option<u32>,
    /// The man running beyond the holder on the ball's flank.
    pub overlap_runner: Option<u32>,
    /// The flank the ball is on.
    pub ball_flank: Flank,
}

impl WidePlan {
    pub open spec fn flank_of_spec(self, id: u32) -> Option<Flank> {
        if self.left_holder == Some(id) {
            Some(Flank::Left)
        } else if self.right_holder == Some(id) {
            Some(Flank::Right)
        } else {
            None
        }
    }

    /// The flank this player holds, if any.
    pub fn flank_of(&self, id: u32) -> (r: Option<Flank>)
        ensures
            r == self.flank_of_spec(id),
    {
        let left = match self.left_holder {
            Some(h) => h == id,
            None => false,
        };
        if left {
            return Some(Flank::Left);
        }
        let right = match self.right_holder {
            Some(h) => h == id,
            None => false,
        };
        if right {
            return Some(Flank::Right);
        }
        None
    }

    /// Whether this player is the overlap runner.
    pub fn is_overlap_runner(&self, id: u32) -> (r: bool)
        ensures
            r == (self.overlap_runner == Some(id)),
    {
        match self.overlap_runner {
            Some(h) => h == id,
            None => false,
        }
    }
}

/// What the wide channel wants from this player right now.
#[derive(Debug, Clone, Copy, PartialEq, Eq, Structural)]
pub enum WideIntent {
    /// Stand on the touchline at the block's depth and stretch the defence.
    Hold,
    /// Push up the line to offer ahead of the ball.
    Advance,
    /// Run in behind the full-back, toward the byline.
    Byline,
}

impl WideIntent {
    pub open spec fn intensity_spec(self) -> ActivityIntensity {
        match self {
            WideIntent::Hold => ActivityIntensity::Moderate,
            WideIntent::Advance => ActivityIntensity::High,
            WideIntent::Byline => ActivityIntensity::VeryHigh,
        }
    }

    /// How hard he works: holding width is a jog, advancing a run, the run
    /// to the byline a sprint.
    pub fn intensity(self) -> (r: ActivityIntensity)
        ensures
            r == self.intensity_spec(),
    {
        match self {
            WideIntent::Hold => ActivityIntensity::Moderate,
            WideIntent::Advance => ActivityIntensity::High,
            WideIntent::Byline => ActivityIntensity::VeryHigh,
        }
    }
}

/// Where the ball is, read against this player's flank and the offside
/// line.
#[derive(Debug, Clone, Copy, PartialEq, Eq, Structural)]
pub struct WideBallRead {
    /// The ball is within the band of his own touchline.
    pub on_my_side: bool,
    /// The ball has not yet reached the attacking progress at which a run
    /// starts.
    pub short_of_run_progress: bool,
    /// Starting the run now would not be offside.
    pub onside: bool,
}

/// The wide channel, resolved for one player on one tick.
pub struct WideChannel;

impl WideChannel {
    pub open spec fn assignment_spec(plan: WidePlan, me: u32) -> Option<Flank> {
        match plan.flank_of_spec(me) {
            Some(f) => Some(f),
            None => if plan.overlap_runner == Some(me) {
                Some(plan.ball_flank)
            } else {
                None
            },
        }
    }

    pub open spec fn intent_spec(
        plan: WidePlan,
        me: u32,
        side: Option<PlayerSide>,
        read: WideBallRead,
    ) -> WideIntent {
        if Self::assignment_spec(plan, me).is_none() || side.is_none() || !read.on_my_side {
            WideIntent::Hold
        } else if read.short_of_run_progress {
            WideIntent::Advance
        } else if read.onside {
            WideIntent::Byline
        } else {
            WideIntent::Advance
        }
    }

    /// The flank this player is working, holding it or running beyond the
    /// man who is. `None` for everybody else.
    pub fn assignment(plan: &WidePlan, me: u32) -> (r: Option<Flank>)
        ensures
            r == Self::assignment_spec(*plan, me),
    {
        match plan.flank_of(me) {
            Some(f) => Some(f),
            None => {
                if plan.is_overlap_runner(me) {
                    Some(plan.ball_flank)
                } else {
                    None
                }
            },
        }
    }

    /// Does this player still have a wide job? Not once he has the ball,
    /// his side has lost it, the plan has no flank for him, or a box slot
    /// outranks the touchline.
    pub fn still_mine(plan: &WidePlan, me: u32, has_ball: bool, control_ball: bool, box_slot: bool)
        -> (r: bool)
        ensures
            r == (!has_ball && control_ball && Self::assignment_spec(*plan, me).is_some()
                && !box_slot),
    {
        !has_ball && control_ball && Self::assignment(plan, me).is_some() && !box_slot
    }

    /// What the channel wants from him this tick: hold unless he has a
    /// flank, a side and the ball on his side; advance while the ball is
    /// short of the run progress; then run to the byline if onside, or
    /// advance on the shoulder if not.
    pub fn intent(plan: &WidePlan, me: u32, side: Option<PlayerSide>, read: &WideBallRead) -> (r:
        WideIntent)
        ensures
            r == Self::intent_spec(*plan, me, side, *read),
    {
        if Self::assignment(plan, me).is_none() {
            return WideIntent::Hold;
        }
        if side.is_none() {
            return WideIntent::Hold;
        }
        if !read.on_my_side {
            return WideIntent::Hold;
        }
        if read.short_of_run_progress {
            return WideIntent::Advance;
        }
        if read.onside {
            WideIntent::Byline
        } else {
            WideIntent::Advance
        }
    }
}

/// A run in behind is never started from an offside position, and a player
/// with no flank is only ever told to hold.
pub proof fn lemma_byline_only_onside(plan: WidePlan, me: u32, side: Option<PlayerSide>, read: WideBallRead)
    ensures
        WideChannel::intent_spec(plan, me, side, read) == WideIntent::Byline ==> read.onside
            && !read.short_of_run_progress && read.on_my_side,
        WideChannel::assignment_spec(plan, me).is_none() ==> WideChannel::intent_spec(plan, me, side, read)
            == WideIntent::Hold,
{
}

/// A player's wide job is always one the plan gave him: the flank he
/// holds, or the ball's flank when he is the man running beyond.
pub proof fn lemma_assignment_from_plan(plan: WidePlan, me: u32, f: Flank)
    requires
        WideChannel::assignment_spec(plan, me) == Some(f),
    ensures
        (plan.left_holder == Some(me) && f == Flank::Left) || (plan.right_holder == Some(me) && f
            == Flank::Right) || (plan.overlap_runner == Some(me) && f == plan.ball_flank),
{
}

} // verus!
