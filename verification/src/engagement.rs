//! Going to the man with the ball: where a player commits and where he
//! gives up, who is licensed to challenge, on which ticks the challenge and
//! the contact foul are decided, and whether a foul would be a penalty.
use vstd::prelude::*;
use crate::model::{DefensiveDuty, FoulSeverity, PlayerSide};

verus! {

/// Which of the two penalty areas a point lies in (at most one of them on a
/// real pitch, but nothing here depends on that).
#[derive(Debug, Clone, Copy, PartialEq, Eq, Structural)]
pub struct BoxOccupancy {
    /// Inside the area at the left-hand end.
    pub left: bool,
    /// Inside the area at the right-hand end.
    pub right: bool,
}

/// What the engagement rules read about one player on one tick.
#[derive(Debug, Clone, Copy, PartialEq, Eq, Structural)]
pub struct EngagementView {
    /// The end his team attacks from, when known.
    pub side: Option<PlayerSide>,
    /// The duty the team plan has given him.
    pub duty: DefensiveDuty,
    /// Whether the plan has nominated anybody as presser this tick.
    pub presser_nominated: bool,
    /// Whether the chase election names him the best man to go for the ball.
    pub best_to_chase: bool,
    /// Whether the box election names him one of the two defenders nearest
    /// a carrier in our own area, who go to him man-to-man.
    pub box_emergency: bool,
    /// Which area the ball is in.
    pub ball: BoxOccupancy,
    /// Which area he is standing in.
    pub player: BoxOccupancy,
}

/// Where an engagement with the carrier starts, where the challenge goes in
/// and where the player lets the carrier go, in whole game units.
pub struct TackleEngagement;

/// Where a marker goes to his man and where he gives him up, in whole game
/// units.
pub struct MarkEngagement;

/// Would a foul by this player, right now, be a penalty?
pub struct PenaltyRisk;

/// When a defender in contact range commits to a challenge.
pub struct TackleDecision;

/// Fouls that are not tackle attempts: the shirt pull, the block, the hold.
pub struct ContactFoul;

/// How much a defender holds back from a challenge because of where it is.
#[derive(Debug, Clone, Copy, PartialEq, Eq, Structural)]
pub enum TackleRestraint {
    /// Outside his own area: no restraint.
    OpenPlay,
    /// In his own area with somebody behind him.
    BoxWithCover,
    /// In his own area as the last man, where the challenge has to be made.
    BoxLastMan,
}

/// How much a player holds back from a contact foul because of where it is.
#[derive(Debug, Clone, Copy, PartialEq, Eq, Structural)]
pub enum ContactRestraint {
    /// No restraint.
    OpenPlay,
    /// He is in his own area but the ball is not.
    InOwnBox,
    /// The ball is in his own area: a foul would be a penalty.
    Penalty,
}

/// A team-mate as the cover question sees him.
#[derive(Debug, Clone, Copy, PartialEq, Eq, Structural)]
pub struct CoverCandidate {
    pub id: u32,
    pub is_goalkeeper: bool,
    /// Nearer his own goal than the challenging player.
    pub goal_side: bool,
    /// Within the cover scan distance of the challenging player.
    pub within_scan: bool,
}

pub open spec fn covers(t: CoverCandidate, me: u32) -> bool {
    t.id != me && !t.is_goalkeeper && t.goal_side && t.within_scan
}

/// Some team-mate in `teammates` covers `me`.
pub open spec fn has_cover(teammates: Seq<CoverCandidate>, me: u32) -> bool {
    exists|i: int| 0 <= i < teammates.len() && covers(#[trigger] teammates[i], me)
}

impl PenaltyRisk {
    /// Whether the player's own area is the left-hand one. A player whose
    /// side is unknown is taken to defend the right-hand area.
    pub open spec fn own_box_is_left_spec(side: Option<PlayerSide>) -> bool {
        side == Some(PlayerSide::Left)
    }

    pub open spec fn in_box(b: BoxOccupancy, left: bool) -> bool {
        if left {
            b.left
        } else {
            b.right
        }
    }

    pub open spec fn applies_spec(v: EngagementView) -> bool {
        Self::in_box(v.ball, Self::own_box_is_left_spec(v.side))
    }

    pub open spec fn in_own_box_spec(v: EngagementView) -> bool {
        Self::in_box(v.player, Self::own_box_is_left_spec(v.side)) || Self::applies_spec(v)
    }

    /// Which area the player's team is defending: the left-hand one when his
    /// side is `Left`.
    pub fn own_box(side: Option<PlayerSide>) -> (r: bool)
        ensures
            r == Self::own_box_is_left_spec(side),
    {
        match side {
            Some(PlayerSide::Left) => true,
            _ => false,
        }
    }

    /// A foul by this player would be a penalty: the ball is inside the
    /// area his own team is defending.
    pub fn applies(v: &EngagementView) -> (r: bool)
        ensures
            r == Self::applies_spec(*v),
    {
        if Self::own_box(v.side) {
            v.ball.left
        } else {
            v.ball.right
        }
    }

    /// The player should defend carefully because of where he is standing,
    /// or because the ball is in his own area.
    pub fn in_own_box(v: &EngagementView) -> (r: bool)
        ensures
            r == Self::in_own_box_spec(*v),
    {
        let standing = if Self::own_box(v.side) {
            v.player.left
        } else {
            v.player.right
        };
        standing || Self::applies(v)
    }
}

impl TackleEngagement {
    /// Contact range: the challenge itself.
    pub const CONTACT: u32 = 10;
    /// Close enough to commit to engaging.
    pub const COMMIT: u32 = 16;
    /// The carrier has got away: break off.
    pub const DISENGAGE: u32 = 24;

    pub open spec fn is_nominated_presser_spec(v: EngagementView) -> bool {
        v.duty == DefensiveDuty::Press
    }

    pub open spec fn may_engage_carrier_spec(v: EngagementView) -> bool {
        Self::is_nominated_presser_spec(v) || v.box_emergency || (!v.presser_nominated
            && v.best_to_chase)
    }

    /// The team plan has made this player the engager.
    pub fn is_nominated_presser(v: &EngagementView) -> (r: bool)
        ensures
            r == Self::is_nominated_presser_spec(*v),
    {
        match v.duty {
            DefensiveDuty::Press => true,
            _ => false,
        }
    }

    /// Who is allowed to challenge the man on the ball: the nominated
    /// presser — one engager in open play; the two defenders the box
    /// election names nearest a carrier in our own area, who go
    /// man-to-man; and, only when nobody has been nominated, whoever the
    /// chase election names. The plan's cover duty licenses nobody by
    /// itself.
    pub fn may_engage_carrier(v: &EngagementView) -> (r: bool)
        ensures
            r == Self::may_engage_carrier_spec(*v),
    {
        if Self::is_nominated_presser(v) {
            return true;
        }
        if v.box_emergency {
            return true;
        }
        !v.presser_nominated && v.best_to_chase
    }

    /// Should this player commit to a challenge? `within_commit` is whether
    /// the carrier is closer than [`Self::COMMIT`]; `can_attempt_tackle` is
    /// whether his tackle cooldown has run out.
    pub fn should_commit(v: &EngagementView, within_commit: bool, can_attempt_tackle: bool) -> (r:
        bool)
        ensures
            r == (within_commit && can_attempt_tackle && Self::may_engage_carrier_spec(*v)),
    {
        within_commit && can_attempt_tackle && Self::may_engage_carrier(v)
    }
}

impl MarkEngagement {
    /// Close enough that a marker breaks shape to go to his man.
    pub const ENGAGE: u32 = 150;
    /// Far enough that he has genuinely lost him.
    pub const RELEASE: u32 = 200;
}

impl TackleDecision {
    /// How often the decision is taken while in contact, in AI ticks.
    pub const DECISION_INTERVAL_TICKS: u16 = 50;

    pub open spec fn is_decision_tick_spec(contact_ticks: int) -> bool {
        contact_ticks > 0 && (contact_ticks - 1) % (Self::DECISION_INTERVAL_TICKS as int) == 0
    }

    pub open spec fn restraint_spec(in_own_box: bool, cover: bool) -> TackleRestraint {
        if !in_own_box {
            TackleRestraint::OpenPlay
        } else if cover {
            TackleRestraint::BoxWithCover
        } else {
            TackleRestraint::BoxLastMan
        }
    }

    /// Is this tick one on which the defender re-decides? The clock is time
    /// in contact: the first tick in contact, and every interval after it.
    pub fn is_decision_tick(contact_ticks: u16) -> (r: bool)
        ensures
            r == Self::is_decision_tick_spec(contact_ticks as int),
    {
        contact_ticks > 0 && (contact_ticks - 1) % Self::DECISION_INTERVAL_TICKS == 0
    }

    /// Is there somebody behind me if I miss: a team-mate other than me and
    /// other than the goalkeeper, goal-side of me and within the cover scan.
    pub fn cover_exists(me: u32, teammates: &Vec<CoverCandidate>) -> (r: bool)
        ensures
            r == has_cover(teammates@, me),
    {
        let mut i: usize = 0;
        while i < teammates.len()
            invariant
                i <= teammates@.len(),
                forall|j: int| 0 <= j < i ==> !covers(#[trigger] teammates@[j], me),
            decreases teammates@.len() - i,
        {
            let t = teammates[i];
            if t.id != me && !t.is_goalkeeper && t.goal_side && t.within_scan {
                assert(covers(teammates@[i as int], me));
                return true;
            }
            i = i + 1;
        }
        false
    }

    /// How much he holds back because of where the challenge is: not at all
    /// outside his own area; a lot inside it with cover behind him; less as
    /// the last man.
    pub fn box_restraint(in_own_box: bool, cover: bool) -> (r: TackleRestraint)
        ensures
            r == Self::restraint_spec(in_own_box, cover),
    {
        if !in_own_box {
            TackleRestraint::OpenPlay
        } else if cover {
            TackleRestraint::BoxWithCover
        } else {
            TackleRestraint::BoxLastMan
        }
    }
}

impl ContactFoul {
    /// How often a contact foul is considered while engaged, in AI ticks.
    pub const DECISION_INTERVAL_TICKS: u64 = 100;

    pub open spec fn is_decision_tick_spec(in_state_time: int) -> bool {
        in_state_time > 0 && in_state_time % (Self::DECISION_INTERVAL_TICKS as int) == 0
    }

    pub open spec fn restraint_spec(v: EngagementView) -> ContactRestraint {
        if PenaltyRisk::applies_spec(v) {
            ContactRestraint::Penalty
        } else if PenaltyRisk::in_own_box_spec(v) {
            ContactRestraint::InOwnBox
        } else {
            ContactRestraint::OpenPlay
        }
    }

    /// Is this tick one on which a contact foul is considered?
    pub fn is_decision_tick(in_state_time: u64) -> (r: bool)
        ensures
            r == Self::is_decision_tick_spec(in_state_time as int),
    {
        in_state_time > 0 && in_state_time % Self::DECISION_INTERVAL_TICKS == 0
    }

    /// The restraint tier for a contact foul: a penalty when the ball is in
    /// his own area, careful when only he is, none otherwise.
    pub fn box_restraint(v: &EngagementView) -> (r: ContactRestraint)
        ensures
            r == Self::restraint_spec(*v),
    {
        if PenaltyRisk::applies(v) {
            ContactRestraint::Penalty
        } else if PenaltyRisk::in_own_box(v) {
            ContactRestraint::InOwnBox
        } else {
            ContactRestraint::OpenPlay
        }
    }

    pub open spec fn severity_spec(reckless_roll: bool) -> FoulSeverity {
        if reckless_roll {
            FoulSeverity::Reckless
        } else {
            FoulSeverity::Normal
        }
    }

    /// Severity of a non-tackle foul: reckless exactly when the severity
    /// roll came in under the reckless chance (`reckless_roll`), otherwise
    /// normal. There is no violent tail.
    pub fn severity(reckless_roll: bool) -> (r: FoulSeverity)
        ensures
            r == Self::severity_spec(reckless_roll),
    {
        if reckless_roll {
            FoulSeverity::Reckless
        } else {
            FoulSeverity::Normal
        }
    }
}

/// A shirt pull is a yellow at worst: a contact foul is never violent.
pub proof fn lemma_contact_foul_never_violent(reckless_roll: bool)
    ensures
        ContactFoul::severity_spec(reckless_roll) != FoulSeverity::Violent,
{
}

/// The engagement thresholds are strictly ordered, contact inside commit
/// inside disengage, so a carrier close enough to commit on is never far
/// enough away to break off from: the hand-off is one-way.
pub proof fn lemma_tackle_engagement_one_way(distance: int)
    ensures
        TackleEngagement::CONTACT < TackleEngagement::COMMIT < TackleEngagement::DISENGAGE,
        distance < TackleEngagement::COMMIT ==> !(distance > TackleEngagement::DISENGAGE),
        distance < TackleEngagement::CONTACT ==> distance < TackleEngagement::COMMIT,
{
}

/// A marker who goes to his man at some distance is not released at that
/// same distance: engage lies strictly inside release.
pub proof fn lemma_mark_engagement_one_way(distance: int)
    ensures
        MarkEngagement::ENGAGE < MarkEngagement::RELEASE,
        distance < MarkEngagement::ENGAGE ==> !(distance > MarkEngagement::RELEASE),
{
}

/// The nominated presser may always go in.
pub proof fn lemma_presser_may_engage(v: EngagementView)
    requires
        v.duty == DefensiveDuty::Press,
    ensures
        TackleEngagement::may_engage_carrier_spec(v),
{
}

/// When somebody has been nominated, the only others who go in are the
/// box election's men: with a presser named, a player who is not him may
/// challenge exactly when the box election names him.
pub proof fn lemma_nomination_is_exclusive(v: EngagementView)
    requires
        v.presser_nominated,
        v.duty != DefensiveDuty::Press,
    ensures
        TackleEngagement::may_engage_carrier_spec(v) == v.box_emergency,
{
}

/// The plan's cover duty carries no licence of its own, in the area or
/// out of it: a cover whom neither the box election nor (with nobody
/// nominated) the chase election names stands off.
pub proof fn lemma_cover_has_no_licence_of_its_own(v: EngagementView)
    requires
        v.duty == DefensiveDuty::Cover,
        !v.box_emergency,
        v.presser_nominated || !v.best_to_chase,
    ensures
        !TackleEngagement::may_engage_carrier_spec(v),
{
}

/// The box election's men may always go in, whoever the plan nominated.
pub proof fn lemma_box_election_may_engage(v: EngagementView)
    requires
        v.box_emergency,
    ensures
        TackleEngagement::may_engage_carrier_spec(v),
{
}

/// Cover means a team-mate behind the challenger: there is cover exactly
/// when some team-mate other than him, not the goalkeeper, is both
/// goal-side of him and within the scan. A team-mate upfield of him never
/// counts, so with nobody goal-side a challenge in his own area is the
/// last man's.
pub proof fn lemma_cover_is_a_man_goal_side(teammates: Seq<CoverCandidate>, me: u32, in_own_box: bool)
    ensures
        has_cover(teammates, me) <==> exists|i: int|
            0 <= i < teammates.len() && teammates[i].id != me && !teammates[i].is_goalkeeper
                && teammates[i].goal_side && teammates[i].within_scan,
        (forall|i: int| 0 <= i < teammates.len() ==> !teammates[i].goal_side) ==> !has_cover(
            teammates,
            me,
        ),
        (forall|i: int| 0 <= i < teammates.len() ==> !teammates[i].goal_side) ==> TackleDecision::restraint_spec(
            true,
            has_cover(teammates, me),
        ) == TackleRestraint::BoxLastMan,
{
    if has_cover(teammates, me) {
        let i = choose|i: int| 0 <= i < teammates.len() && covers(#[trigger] teammates[i], me);
        assert(teammates[i].goal_side);
    }
    assert forall|i: int|
        0 <= i < teammates.len() && teammates[i].id != me && !teammates[i].is_goalkeeper
            && teammates[i].goal_side && teammates[i].within_scan implies has_cover(teammates, me) by {
        assert(covers(teammates[i], me));
    }
}

/// A foul that would be a penalty is always one the player is careful
/// about: the ball in the area implies "in own box".
pub proof fn lemma_penalty_implies_in_own_box(v: EngagementView)
    ensures
        PenaltyRisk::applies_spec(v) ==> PenaltyRisk::in_own_box_spec(v),
{
}

/// The tackle decision is taken on the first tick of contact and then once
/// per interval: tick `t` decides exactly when tick `t + 50` does, and no
/// tick strictly between two decisions decides.
pub proof fn lemma_tackle_decision_cadence(t: int, k: int)
    requires
        t >= 1,
        0 < k < TackleDecision::DECISION_INTERVAL_TICKS,
    ensures
        TackleDecision::is_decision_tick_spec(1),
        !TackleDecision::is_decision_tick_spec(0),
        TackleDecision::is_decision_tick_spec(t) == TackleDecision::is_decision_tick_spec(
            t + TackleDecision::DECISION_INTERVAL_TICKS,
        ),
        TackleDecision::is_decision_tick_spec(t) ==> !TackleDecision::is_decision_tick_spec(t + k),
{
    assert((t + 50 - 1) % 50 == (t - 1) % 50) by (nonlinear_arith)
        requires
            t >= 1,
    ;
    assert((t - 1) % 50 == 0 ==> (t + k - 1) % 50 == k) by (nonlinear_arith)
        requires
            t >= 1,
            0 < k < 50,
    ;
}

/// A contact foul is never considered on the tick the engagement starts,
/// and is considered once every interval after that.
pub proof fn lemma_contact_foul_cadence(t: int, k: int)
    requires
        t >= 1,
        0 < k < ContactFoul::DECISION_INTERVAL_TICKS,
    ensures
        !ContactFoul::is_decision_tick_spec(0),
        ContactFoul::is_decision_tick_spec(ContactFoul::DECISION_INTERVAL_TICKS as int),
        ContactFoul::is_decision_tick_spec(t) == ContactFoul::is_decision_tick_spec(
            t + ContactFoul::DECISION_INTERVAL_TICKS,
        ),
        ContactFoul::is_decision_tick_spec(t) ==> !ContactFoul::is_decision_tick_spec(t + k),
{
    assert((t + 100) % 100 == t % 100) by (nonlinear_arith)
        requires
            t >= 1,
    ;
    assert(t % 100 == 0 ==> (t + k) % 100 == k) by (nonlinear_arith)
        requires
            t >= 1,
            0 < k < 100,
    ;
}

} // verus!
