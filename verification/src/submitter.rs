//! One cycle of the off-chain submitter, as a state machine: the host fetches,
//! looks for a signer and dispatches; the machine decides what comes next.

use vstd::prelude::*;
use crate::aggregator::record;
use crate::aggregator::replay;
use crate::aggregator::AggregatorState;
use crate::aggregator::Identity;
use crate::aggregator::Origin;
use crate::aggregator::Submission;
use crate::fetch::FetchError;
use crate::fixed::FixedPoint;

verus! {

/// Why a cycle ended without a submission in the pipeline.
#[derive(Clone, Copy, Debug, PartialEq, Eq, Structural)]
pub enum SubmitError {
    FetchFailed,
    NoSigningIdentity,
    DispatchFailed,
}

/// A price for a height, to be signed by `signer` and dispatched.
#[derive(Clone, Copy, Debug, PartialEq, Eq, Structural)]
pub struct SignedSubmission {
    pub price: FixedPoint,
    pub height: u64,
    pub signer: Identity,
}

/// What the host's dispatch reports of a signed request.
#[derive(Clone, Copy, Debug, PartialEq, Eq, Structural)]
pub enum Dispatch {
    /// The request entered the pipeline.
    Accepted,
    /// The pipeline turned the request away.
    Rejected,
    /// The request never reached the pipeline.
    NotEntered,
}

/// Where a cycle stands.
#[derive(Clone, Copy, Debug, PartialEq, Eq)]
pub enum Stage {
    AwaitingPrice,
    AwaitingSigner(FixedPoint),
    AwaitingDispatch(SignedSubmission),
    Finished(Result<(), SubmitError>),
}

/// One cycle: the height it was started for, and its stage.
#[derive(Clone, Copy, Debug, PartialEq, Eq)]
pub struct Cycle {
    pub height: u64,
    pub stage: Stage,
}

/// What the host reports back to a cycle.
#[derive(Clone, Copy, Debug, PartialEq, Eq)]
pub enum Event {
    Fetched(Result<FixedPoint, FetchError>),
    SignerResolved(Option<Identity>),
    Dispatched(Dispatch),
}

/// What a cycle asks of the host next.
#[derive(Clone, Copy, Debug, PartialEq, Eq)]
pub enum Action {
    /// Fetch the price and report `Fetched`.
    FetchPrice,
    /// Look for a local signing identity and report `SignerResolved`.
    FindSigner,
    /// Sign and dispatch this submission and report `Dispatched`.
    Submit(SignedSubmission),
    /// The cycle is over, with this result.
    Finish(Result<(), SubmitError>),
    /// The event did not belong to the stage: nothing to do.
    Ignore,
}

/// The cycle at its start.
pub open spec fn initial(height: u64) -> Cycle {
    Cycle { height, stage: Stage::AwaitingPrice }
}

/// The stage after `event`, and what is asked of the host.
pub open spec fn react(cycle: Cycle, event: Event) -> (Cycle, Action) {
    match (cycle.stage, event) {
        (Stage::AwaitingPrice, Event::Fetched(Ok(price))) => (
            Cycle { stage: Stage::AwaitingSigner(price), ..cycle },
            Action::FindSigner,
        ),
        (Stage::AwaitingPrice, Event::Fetched(Err(_))) => finish(
            cycle,
            Err(SubmitError::FetchFailed),
        ),
        (Stage::AwaitingSigner(price), Event::SignerResolved(Some(signer))) => {
            let submission = SignedSubmission { price, height: cycle.height, signer };
            (Cycle { stage: Stage::AwaitingDispatch(submission), ..cycle }, Action::Submit(submission))
        },
        (Stage::AwaitingSigner(_), Event::SignerResolved(None)) => finish(
            cycle,
            Err(SubmitError::NoSigningIdentity),
        ),
        (Stage::AwaitingDispatch(_), Event::Dispatched(Dispatch::Accepted)) => finish(cycle, Ok(())),
        (Stage::AwaitingDispatch(_), Event::Dispatched(_)) => finish(
            cycle,
            Err(SubmitError::DispatchFailed),
        ),
        _ => (cycle, Action::Ignore),
    }
}

/// The end of a cycle with `result`.
pub open spec fn finish(cycle: Cycle, result: Result<(), SubmitError>) -> (Cycle, Action) {
    (Cycle { stage: Stage::Finished(result), ..cycle }, Action::Finish(result))
}

/// The submissions that a cycle hands to the host while `events` come in.
pub open spec fn submitted(cycle: Cycle, events: Seq<Event>) -> Seq<SignedSubmission>
    decreases events.len(),
{
    if events.len() == 0 {
        Seq::empty()
    } else {
        let (next, action) = react(cycle, events.first());
        let rest = submitted(next, events.drop_first());
        match action {
            Action::Submit(submission) => seq![submission] + rest,
            _ => rest,
        }
    }
}

/// The stage that a cycle is in after `events`.
pub open spec fn stage_after(cycle: Cycle, events: Seq<Event>) -> Stage
    decreases events.len(),
{
    if events.len() == 0 {
        cycle.stage
    } else {
        stage_after(react(cycle, events.first()).0, events.drop_first())
    }
}

/// The requests that reach the aggregator when each submission is signed by
/// its signer.
pub open spec fn delivered(submissions: Seq<SignedSubmission>) -> Seq<Submission> {
    Seq::new(
        submissions.len(),
        |i: int|
            Submission {
                origin: Origin::Signed(submissions[i].signer),
                price: submissions[i].price,
                height: submissions[i].height,
            },
    )
}

/// Starts the cycle for `height`: the price is to be fetched.
pub fn begin(height: u64) -> (r: (Cycle, Action))
    ensures
        r.0 == initial(height),
        r.1 == Action::FetchPrice,
{
    (Cycle { height, stage: Stage::AwaitingPrice }, Action::FetchPrice)
}

/// Takes the cycle one event further. A failed fetch, a missing signer and a
/// dispatch that was not accepted each end the cycle with their error; an
/// event that does not belong to the stage changes nothing.
pub fn advance(cycle: Cycle, event: Event) -> (r: (Cycle, Action))
    ensures
        r == react(cycle, event),
        r.0.height == cycle.height,
{
    let height: u64 = cycle.height;
    match (cycle.stage, event) {
        (Stage::AwaitingPrice, Event::Fetched(Ok(price))) => (
            Cycle { height, stage: Stage::AwaitingSigner(price) },
            Action::FindSigner,
        ),
        (Stage::AwaitingPrice, Event::Fetched(Err(_))) => conclude(
            cycle,
            Err(SubmitError::FetchFailed),
        ),
        (Stage::AwaitingSigner(price), Event::SignerResolved(Some(signer))) => {
            let submission = SignedSubmission { price, height, signer };
            (Cycle { height, stage: Stage::AwaitingDispatch(submission) }, Action::Submit(submission))
        },
        (Stage::AwaitingSigner(_), Event::SignerResolved(None)) => conclude(
            cycle,
            Err(SubmitError::NoSigningIdentity),
        ),
        (Stage::AwaitingDispatch(_), Event::Dispatched(Dispatch::Accepted)) => conclude(
            cycle,
            Ok(()),
        ),
        (Stage::AwaitingDispatch(_), Event::Dispatched(_)) => conclude(
            cycle,
            Err(SubmitError::DispatchFailed),
        ),
        _ => (cycle, Action::Ignore),
    }
}

/// Ends the cycle with `result`.
pub fn conclude(cycle: Cycle, result: Result<(), SubmitError>) -> (r: (Cycle, Action))
    ensures
        r == finish(cycle, result),
{
    (Cycle { height: cycle.height, stage: Stage::Finished(result) }, Action::Finish(result))
}

/// The result of the cycle, once it is over.
pub fn outcome(cycle: &Cycle) -> (r: Option<Result<(), SubmitError>>)
    ensures
        r == match cycle.stage {
            Stage::Finished(result) => Some(result),
            _ => None::<Result<(), SubmitError>>,
        },
{
    match cycle.stage {
        Stage::Finished(result) => Some(result),
        _ => None,
    }
}

/// A cycle that is over, or that waits for its dispatch, hands out no
/// further submission, whatever events come.
pub proof fn lemma_nothing_after_submission(cycle: Cycle, events: Seq<Event>)
    requires
        cycle.stage is Finished || cycle.stage is AwaitingDispatch,
    ensures
        submitted(cycle, events) == Seq::<SignedSubmission>::empty(),
    decreases events.len(),
{
    if events.len() > 0 {
        lemma_nothing_after_submission(react(cycle, events.first()).0, events.drop_first());
    }
}

/// A cycle hands out at most one submission, and that one carries the
/// cycle's height.
pub proof fn lemma_at_most_one_submission(cycle: Cycle, events: Seq<Event>)
    ensures
        submitted(cycle, events).len() <= 1,
        submitted(cycle, events).len() == 1 ==> submitted(cycle, events)[0].height == cycle.height,
    decreases events.len(),
{
    if events.len() > 0 {
        let (next, action) = react(cycle, events.first());
        if action is Submit {
            lemma_nothing_after_submission(next, events.drop_first());
        } else {
            lemma_at_most_one_submission(next, events.drop_first());
        }
    }
}

/// A fetch that fails ends the cycle with `FetchFailed`: no submission is
/// handed out then or later, so nothing reaches the aggregator and the
/// on-chain state stays as it is.
pub proof fn lemma_failed_fetch_submits_nothing(
    height: u64,
    error: FetchError,
    later: Seq<Event>,
    chain: AggregatorState,
)
    ensures
        ({
            let events = seq![Event::Fetched(Err(error))] + later;
            &&& react(initial(height), Event::Fetched(Err(error))).1 == Action::Finish(
                Err(SubmitError::FetchFailed),
            )
            &&& stage_after(initial(height), events) == Stage::Finished(
                Err(SubmitError::FetchFailed),
            )
            &&& submitted(initial(height), events) == Seq::<SignedSubmission>::empty()
            &&& replay(chain, delivered(submitted(initial(height), events))) == chain
        }),
{
    let events = seq![Event::Fetched(Err(error))] + later;
    let next = react(initial(height), Event::Fetched(Err(error))).0;
    assert(events.first() == Event::Fetched(Err(error)));
    assert(events.drop_first() =~= later);
    lemma_nothing_after_submission(next, later);
    lemma_finished_stays(next, later);
    assert(delivered(Seq::<SignedSubmission>::empty()) =~= Seq::<Submission>::empty());
}

/// A cycle that is over stays as it ended.
pub proof fn lemma_finished_stays(cycle: Cycle, events: Seq<Event>)
    requires
        cycle.stage is Finished,
    ensures
        stage_after(cycle, events) == cycle.stage,
    decreases events.len(),
{
    if events.len() > 0 {
        lemma_finished_stays(react(cycle, events.first()).0, events.drop_first());
    }
}

/// A submission that is delivered under its signer is accepted and recorded:
/// the price it carries becomes the current price on chain.
pub proof fn lemma_submission_is_recorded(chain: AggregatorState, submission: SignedSubmission)
    ensures
        replay(chain, delivered(seq![submission])) == record(
            chain,
            submission.price,
            submission.height,
        ),
        replay(chain, delivered(seq![submission])).current_price == submission.price,
{
    let subs = delivered(seq![submission]);
    assert(subs.len() == 1);
    assert(subs.drop_last() =~= Seq::<Submission>::empty());
    assert(replay(chain, subs.drop_last()) == chain);
}

/// With a price, a signer and an accepted dispatch the cycle succeeds, and
/// what it hands out is that price at the cycle's height under that signer.
pub proof fn lemma_successful_cycle(height: u64, price: FixedPoint, signer: Identity)
    ensures
        ({
            let events = seq![
                Event::Fetched(Ok(price)),
                Event::SignerResolved(Some(signer)),
                Event::Dispatched(Dispatch::Accepted),
            ];
            &&& stage_after(initial(height), events) == Stage::Finished(Ok(()))
            &&& submitted(initial(height), events) == seq![SignedSubmission { price, height, signer }]
        }),
{
    let e0 = Event::Fetched(Ok(price));
    let e1 = Event::SignerResolved(Some(signer));
    let e2 = Event::Dispatched(Dispatch::Accepted);
    let events = seq![e0, e1, e2];
    let c1 = react(initial(height), e0).0;
    let c2 = react(c1, e1).0;
    let c3 = react(c2, e2).0;
    assert(events.drop_first() =~= seq![e1, e2]);
    assert(seq![e1, e2].drop_first() =~= seq![e2]);
    assert(seq![e2].drop_first() =~= Seq::<Event>::empty());
    reveal_with_fuel(stage_after, 4);
    reveal_with_fuel(submitted, 4);
    assert(stage_after(c3, Seq::<Event>::empty()) == c3.stage);
    assert(submitted(c3, Seq::<Event>::empty()) =~= Seq::<SignedSubmission>::empty());
    assert(submitted(c2, seq![e2]) =~= Seq::<SignedSubmission>::empty());
    assert(submitted(c1, seq![e1, e2]) =~= seq![SignedSubmission { price, height, signer }]);
    assert(submitted(initial(height), events) =~= seq![SignedSubmission { price, height, signer }]);
}

} // verus!
