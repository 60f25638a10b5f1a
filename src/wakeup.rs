use vstd::prelude::*;

verus! {

/// Where the event loop stands within one wakeup. The coordinator's
/// commands are drained first, then the clients' requests, then the
/// in-flight aggregation is polled once.
#[derive(Clone, Copy, Debug, PartialEq, Eq, Structural)]
pub enum Stage {
    /// Polling the coordinator's commands.
    Control,
    /// Polling the clients' requests.
    Data,
    /// Polling the in-flight aggregation, if there is one.
    Aggregation,
    /// Done for this wakeup: the loop yields until it is woken again.
    Idle,
    /// An input stream has ended: the service is over.
    Finished,
}

/// What a poll of the current source gave.
#[derive(Clone, Copy, Debug, PartialEq, Eq, Structural)]
pub enum Readiness {
    /// An item, which has been dispatched.
    Item,
    /// Nothing ready yet.
    Pending,
    /// The source has ended.
    Closed,
}

/// The order of the stages within a wakeup.
pub open spec fn rank(s: Stage) -> nat {
    match s {
        Stage::Control => 0,
        Stage::Data => 1,
        Stage::Aggregation => 2,
        Stage::Idle => 3,
        Stage::Finished => 3,
    }
}

/// The stage after a poll in stage `s` that gave `o`.
pub open spec fn next_stage(s: Stage, o: Readiness) -> Stage {
    match s {
        Stage::Control | Stage::Data => match o {
            Readiness::Item => s,
            Readiness::Pending => if s == Stage::Control {
                Stage::Data
            } else {
                Stage::Aggregation
            },
            Readiness::Closed => Stage::Finished,
        },
        Stage::Aggregation => Stage::Idle,
        Stage::Idle => Stage::Idle,
        Stage::Finished => Stage::Finished,
    }
}

/// The stage reached from `s` after the polls that gave `outcomes`.
pub open spec fn stage_after(s: Stage, outcomes: Seq<Readiness>) -> Stage
    decreases outcomes.len(),
{
    if outcomes.len() == 0 {
        s
    } else {
        next_stage(stage_after(s, outcomes.drop_last()), outcomes.last())
    }
}

impl Stage {
    /// The stage in which every wakeup begins.
    pub fn start() -> (r: Stage)
        ensures
            r == Stage::Control,
    {
        Stage::Control
    }

    /// Moves on after a poll in this stage. A source is drained while it
    /// has items; when it has none ready the next source is taken; when it
    /// has ended the service finishes.
    pub fn advance(self, outcome: Readiness) -> (r: Stage)
        ensures
            r == next_stage(self, outcome),
    {
        match self {
            Stage::Control => match outcome {
                Readiness::Item => Stage::Control,
                Readiness::Pending => Stage::Data,
                Readiness::Closed => Stage::Finished,
            },
            Stage::Data => match outcome {
                Readiness::Item => Stage::Data,
                Readiness::Pending => Stage::Aggregation,
                Readiness::Closed => Stage::Finished,
            },
            Stage::Aggregation => Stage::Idle,
            Stage::Idle => Stage::Idle,
            Stage::Finished => Stage::Finished,
        }
    }

    /// Whether the wakeup is over: the loop yields (`Idle`) or resolves
    /// (`Finished`).
    pub fn is_final(self) -> (r: bool)
        ensures
            r == (rank(self) == 3),
    {
        match self {
            Stage::Idle | Stage::Finished => true,
            _ => false,
        }
    }
}

proof fn lemma_rank_monotone(s: Stage, outcomes: Seq<Readiness>, i: int, j: int)
    requires
        0 <= i <= j <= outcomes.len(),
    ensures
        rank(stage_after(s, outcomes.take(i))) <= rank(stage_after(s, outcomes.take(j))),
    decreases j - i,
{
    if i < j {
        lemma_rank_monotone(s, outcomes, i, j - 1);
        assert(outcomes.take(j).drop_last() =~= outcomes.take(j - 1));
        assert(outcomes.take(j).last() == outcomes[j - 1]);
    }
}

/// Within one wakeup the coordinator's commands come before the clients'
/// requests: if the poll at position `j` is still one of the coordinator's
/// commands, so was every earlier poll, and none of the clients' requests
/// has been looked at yet.
pub proof fn lemma_control_priority(outcomes: Seq<Readiness>, i: int, j: int)
    requires
        0 <= i <= j <= outcomes.len(),
        stage_after(Stage::Control, outcomes.take(j)) == Stage::Control,
    ensures
        stage_after(Stage::Control, outcomes.take(i)) == Stage::Control,
{
    lemma_rank_monotone(Stage::Control, outcomes, i, j);
}

/// Once the clients' requests are being drained, the loop never goes back
/// to the coordinator's commands within the same wakeup.
pub proof fn lemma_data_after_control(outcomes: Seq<Readiness>, i: int, j: int)
    requires
        0 <= i <= j <= outcomes.len(),
        stage_after(Stage::Control, outcomes.take(i)) == Stage::Data,
    ensures
        stage_after(Stage::Control, outcomes.take(j)) != Stage::Control,
{
    lemma_rank_monotone(Stage::Control, outcomes, i, j);
}

/// A wakeup always moves on: a poll that gives no item takes the loop to
/// a later stage, the aggregation is polled once, and an ended source
/// finishes the service at once.
pub proof fn lemma_wakeup_ends(s: Stage, o: Readiness)
    ensures
        o == Readiness::Closed && rank(s) < 2 ==> next_stage(s, o) == Stage::Finished,
        o != Readiness::Item && rank(s) < 3 ==> rank(next_stage(s, o)) > rank(s),
        rank(s) == 2 ==> rank(next_stage(s, o)) == 3,
{
}

} // verus!
