//! The on-chain state machine: the current price, the height of the last
//! snapshot, the history of snapshots and their rounded mean.

use vstd::prelude::*;
use crate::fixed::FixedPoint;

verus! {

/// A snapshot is taken when more than this many blocks have passed since the last one.
pub const SNAPSHOT_INTERVAL: u64 = 100;

/// The identity of a registered signer.
#[derive(Clone, Copy, Debug, PartialEq, Eq, Structural)]
pub struct Identity {
    pub id: u64,
}

/// Who stands behind a request, as the host's origin check reports it.
#[derive(Clone, Copy, Debug, PartialEq, Eq, Structural)]
pub enum Origin {
    /// A valid signature of the given signer.
    Signed(Identity),
    /// The host itself, without a signer.
    Root,
    /// No signature at all.
    Unsigned,
}

/// Why a submission was turned away.
#[derive(Clone, Copy, Debug, PartialEq, Eq, Structural)]
pub enum ApplyError {
    Unauthorized,
}

/// The event that every accepted submission leaves for observers.
#[derive(Clone, Copy, Debug, PartialEq, Eq, Structural)]
pub struct PriceStored {
    pub price: FixedPoint,
    pub submitter: Identity,
}

/// One request to the aggregator, as the host delivers it.
#[derive(Clone, Copy, Debug, PartialEq, Eq, Structural)]
pub struct Submission {
    pub origin: Origin,
    pub price: FixedPoint,
    pub height: u64,
}

/// The four persisted slots, as mathematical values.
pub struct AggregatorState {
    pub current_price: FixedPoint,
    pub last_snapshot_height: u64,
    pub history: Seq<FixedPoint>,
    pub average_price: FixedPoint,
}

/// The sum of the scaled prices of `history`.
pub open spec fn total(history: Seq<FixedPoint>) -> nat
    decreases history.len(),
{
    if history.len() == 0 {
        0
    } else {
        total(history.drop_last()) + history.last().scaled()
    }
}

/// The integer nearest to `sum / count`; of two equally near, the even one.
/// It is 0 where `count` is 0.
pub open spec fn nearest_quotient(sum: nat, count: nat) -> nat {
    if count == 0 {
        0
    } else {
        let q = sum / count;
        let r = sum % count;
        if 2 * r > count || (2 * r == count && q % 2 == 1) {
            q + 1
        } else {
            q
        }
    }
}

/// The arithmetic mean of `history`, rounded to the nearest representable
/// price; the price 0 for an empty history.
pub open spec fn mean(history: Seq<FixedPoint>) -> FixedPoint {
    FixedPoint { bits: nearest_quotient(total(history), history.len()) as u32 }
}

/// Whether a submission at `height` triggers a snapshot when the last one was
/// taken at `last`: strictly more than the interval lies between them.
pub open spec fn snapshot_due(last: u64, height: u64) -> bool {
    height - last > SNAPSHOT_INTERVAL
}

/// Whether the origin check lets a request through.
pub open spec fn accepted(origin: Origin) -> bool {
    origin is Signed
}

/// The state at genesis.
pub open spec fn genesis() -> AggregatorState {
    AggregatorState {
        current_price: FixedPoint { bits: 0 },
        last_snapshot_height: 0,
        history: Seq::empty(),
        average_price: FixedPoint { bits: 0 },
    }
}

/// The state after an accepted submission.
pub open spec fn record(s: AggregatorState, price: FixedPoint, height: u64) -> AggregatorState {
    if snapshot_due(s.last_snapshot_height, height) {
        AggregatorState {
            current_price: price,
            last_snapshot_height: height,
            history: s.history.push(price),
            average_price: mean(s.history.push(price)),
        }
    } else {
        AggregatorState { current_price: price, ..s }
    }
}

/// The state after a submission, accepted or not.
pub open spec fn step(s: AggregatorState, sub: Submission) -> AggregatorState {
    if accepted(sub.origin) {
        record(s, sub.price, sub.height)
    } else {
        s
    }
}

/// The state after the submissions `subs`, delivered in order.
pub open spec fn replay(s: AggregatorState, subs: Seq<Submission>) -> AggregatorState
    decreases subs.len(),
{
    if subs.len() == 0 {
        s
    } else {
        step(replay(s, subs.drop_last()), subs.last())
    }
}

/// The price of the last accepted submission among `subs`, if there is one.
pub open spec fn latest_accepted(subs: Seq<Submission>) -> Option<FixedPoint>
    decreases subs.len(),
{
    if subs.len() == 0 {
        None
    } else if accepted(subs.last().origin) {
        Some(subs.last().price)
    } else {
        latest_accepted(subs.drop_last())
    }
}

/// The sum of a history is at most its length times the largest price.
pub proof fn lemma_total_bound(history: Seq<FixedPoint>)
    ensures
        total(history) <= history.len() * 0xFFFF_FFFF,
    decreases history.len(),
{
    if history.len() > 0 {
        lemma_total_bound(history.drop_last());
    }
}

/// The nearest quotient is off by at most half a unit:
/// `|q * count - sum| <= count / 2`.
pub proof fn lemma_nearest_quotient_error(sum: nat, count: nat)
    requires
        count > 0,
    ensures
        2 * (nearest_quotient(sum, count) * count - sum) <= count,
        2 * (sum - nearest_quotient(sum, count) * count) <= count,
{
    let q = sum / count;
    let r = sum % count;
    assert(sum == q * count + r && r < count) by (nonlinear_arith)
        requires
            count > 0,
            q == sum / count,
            r == sum % count,
    ;
    assert((q + 1) * count == q * count + count) by (nonlinear_arith);
}

/// The nearest quotient of a sum that no price can exceed is itself a price.
pub proof fn lemma_nearest_quotient_in_range(sum: nat, count: nat)
    requires
        sum <= count * 0xFFFF_FFFF,
    ensures
        nearest_quotient(sum, count) <= 0xFFFF_FFFF,
{
    if count > 0 {
        let q = sum / count;
        let r = sum % count;
        assert(q <= 0xFFFF_FFFF && (r > 0 ==> q < 0xFFFF_FFFF)) by (nonlinear_arith)
            requires
                count > 0,
                q == sum / count,
                r == sum % count,
                sum <= count * 0xFFFF_FFFF,
        ;
    }
}

/// The rounded mean of a history never leaves the range of prices, and is
/// within half a unit of the last place of the exact mean.
pub proof fn lemma_mean_is_nearest(history: Seq<FixedPoint>)
    requires
        history.len() > 0,
    ensures
        mean(history).scaled() == nearest_quotient(total(history), history.len()),
        2 * (mean(history).scaled() * history.len() - total(history)) <= history.len(),
        2 * (total(history) - mean(history).scaled() * history.len()) <= history.len(),
{
    lemma_total_bound(history);
    lemma_nearest_quotient_in_range(total(history), history.len());
    lemma_nearest_quotient_error(total(history), history.len());
}

/// Appending a price adds it to the sum.
pub proof fn lemma_total_push(history: Seq<FixedPoint>, price: FixedPoint)
    ensures
        total(history.push(price)) == total(history) + price.scaled(),
{
    assert(history.push(price).drop_last() =~= history);
}

/// Where the exact mean of a history is itself a price, the rounded mean is
/// that price.
pub proof fn lemma_exact_mean(history: Seq<FixedPoint>, price: FixedPoint)
    requires
        history.len() > 0,
        total(history) == price.scaled() * history.len(),
    ensures
        mean(history) == price,
{
    let sum = total(history);
    let count = history.len();
    let q = price.scaled();
    assert(sum / count == q && sum % count == 0) by (nonlinear_arith)
        requires
            count > 0,
            sum == q * count,
    ;
}

/// The mean of a history that holds one price is that price.
pub proof fn lemma_mean_of_one(price: FixedPoint)
    ensures
        mean(seq![price]) == price,
{
    assert(seq![price] =~= Seq::<FixedPoint>::empty().push(price));
    lemma_total_push(Seq::empty(), price);
    assert(price.scaled() * 1 == price.scaled());
    lemma_exact_mean(seq![price], price);
}

/// The persisted state of the aggregator.
#[derive(Debug)]
pub struct PriceAggregator {
    pub current_price: FixedPoint,
    pub last_snapshot_height: u64,
    pub history: Vec<FixedPoint>,
    pub average_price: FixedPoint,
}

impl View for PriceAggregator {
    type V = AggregatorState;

    open spec fn view(&self) -> AggregatorState {
        AggregatorState {
            current_price: self.current_price,
            last_snapshot_height: self.last_snapshot_height,
            history: self.history@,
            average_price: self.average_price,
        }
    }
}

/// The rounded mean of `history`, computed with integers alone.
pub fn average_of(history: &Vec<FixedPoint>) -> (r: FixedPoint)
    ensures
        r == mean(history@),
{
    let len: usize = history.len();
    if len == 0 {
        return FixedPoint::zero();
    }
    let mut sum: u128 = 0;
    let mut i: usize = 0;
    while i < len
        invariant
            len == history.len(),
            i <= len,
            sum == total(history@.take(i as int)),
            sum <= i * 0xFFFF_FFFF,
        decreases len - i,
    {
        proof {
            assert(history@.take(i + 1).drop_last() =~= history@.take(i as int));
        }
        sum = sum + history[i].to_bits() as u128;
        i = i + 1;
    }
    proof {
        assert(history@.take(len as int) =~= history@);
    }
    let count: u128 = len as u128;
    let q: u128 = sum / count;
    let r: u128 = sum % count;
    proof {
        lemma_nearest_quotient_in_range(sum as nat, count as nat);
        assert(q <= 0xFFFF_FFFF && (r > 0 ==> q < 0xFFFF_FFFF)) by (nonlinear_arith)
            requires
                count > 0,
                q == sum / count,
                r == sum % count,
                sum <= count * 0xFFFF_FFFF,
        ;
    }
    let up: bool = 2 * r > count || (2 * r == count && q % 2 == 1);
    let rounded: u128 = if up {
        q + 1
    } else {
        q
    };
    FixedPoint::from_bits(rounded as u32)
}

impl PriceAggregator {
    /// Whether the average is the rounded mean of the history, as it is from
    /// genesis on.
    pub open spec fn consistent(&self) -> bool {
        self.average_price == mean(self.history@)
    }

    /// The aggregator at genesis: zero price, zero height, empty history.
    pub fn new() -> (r: Self)
        ensures
            r@ == genesis(),
            r.consistent(),
    {
        let r = PriceAggregator {
            current_price: FixedPoint::zero(),
            last_snapshot_height: 0,
            history: Vec::new(),
            average_price: FixedPoint::zero(),
        };
        proof {
            assert(r@.history =~= Seq::empty());
        }
        r
    }

    /// Records an accepted price: the current price always, and where a
    /// snapshot is due also a history entry, the new mean and the height.
    pub fn calculate_and_set_price(&mut self, price: FixedPoint, height: u64)
        ensures
            final(self)@ == record(old(self)@, price, height),
            old(self).consistent() ==> final(self).consistent(),
    {
        self.current_price = price;
        if height > self.last_snapshot_height && height - self.last_snapshot_height
            > SNAPSHOT_INTERVAL {
            self.history.push(price);
            self.average_price = average_of(&self.history);
            self.last_snapshot_height = height;
        }
    }

    /// Applies one submission. A signed origin is accepted and recorded, and
    /// the event names its signer; any other origin is turned away and
    /// nothing changes.
    pub fn apply(&mut self, origin: Origin, price: FixedPoint, height: u64) -> (r: Result<
        PriceStored,
        ApplyError,
    >)
        ensures
            final(self)@ == step(old(self)@, (Submission { origin, price, height })),
            old(self).consistent() ==> final(self).consistent(),
            match r {
                Ok(event) => origin == Origin::Signed(event.submitter) && event.price == price
                    && final(self)@.current_price == price,
                Err(e) => !accepted(origin) && e == ApplyError::Unauthorized && final(self)@
                    == old(self)@,
            },
    {
        match origin {
            Origin::Signed(submitter) => {
                self.calculate_and_set_price(price, height);
                Ok(PriceStored { price, submitter })
            },
            _ => Err(ApplyError::Unauthorized),
        }
    }

    /// The most recently accepted price.
    pub fn current_price(&self) -> (r: FixedPoint)
        ensures
            r == self@.current_price,
    {
        self.current_price
    }

    /// The height at which the last snapshot was taken.
    pub fn last_snapshot_height(&self) -> (r: u64)
        ensures
            r == self@.last_snapshot_height,
    {
        self.last_snapshot_height
    }

    /// The mean as of the last snapshot.
    pub fn average_price(&self) -> (r: FixedPoint)
        ensures
            r == self@.average_price,
    {
        self.average_price
    }

    /// The snapshots taken so far, oldest first.
    pub fn history(&self) -> (r: &Vec<FixedPoint>)
        ensures
            r@ == self@.history,
    {
        &self.history
    }
}

/// After an accepted submission that a later one follows: if the later one
/// comes more than the interval after the snapshot height that the first
/// left, it lengthens the history by exactly one entry, its own price.
pub proof fn lemma_due_submission_grows_history(
    s: AggregatorState,
    first_price: FixedPoint,
    first_height: u64,
    later_price: FixedPoint,
    later_height: u64,
)
    requires
        first_height < later_height,
        later_height - record(s, first_price, first_height).last_snapshot_height
            > SNAPSHOT_INTERVAL,
    ensures
        ({
            let between = record(s, first_price, first_height);
            let after = record(between, later_price, later_height);
            &&& after.history.len() == between.history.len() + 1
            &&& after.history == between.history.push(later_price)
            &&& after.last_snapshot_height == later_height
        }),
{
}

/// A submission that comes at most the interval after the last snapshot
/// leaves history, average and snapshot height as they were.
pub proof fn lemma_early_submission_keeps_history(s: AggregatorState, price: FixedPoint, height: u64)
    requires
        height - s.last_snapshot_height <= SNAPSHOT_INTERVAL,
    ensures
        record(s, price, height).history == s.history,
        record(s, price, height).average_price == s.average_price,
        record(s, price, height).last_snapshot_height == s.last_snapshot_height,
        record(s, price, height).current_price == price,
{
}

/// After a snapshot the average is the mean of the whole history, rounded to
/// the nearest price: it differs from the exact mean by at most half a unit
/// of the last place.
pub proof fn lemma_snapshot_average_is_mean(s: AggregatorState, price: FixedPoint, height: u64)
    requires
        snapshot_due(s.last_snapshot_height, height),
    ensures
        ({
            let t = record(s, price, height);
            &&& t.average_price == mean(t.history)
            &&& t.history.len() > 0
            &&& 2 * (t.average_price.scaled() * t.history.len() - total(t.history))
                <= t.history.len()
            &&& 2 * (total(t.history) - t.average_price.scaled() * t.history.len())
                <= t.history.len()
        }),
{
    lemma_mean_is_nearest(s.history.push(price));
}

/// A submission whose origin is not a valid signer changes none of the four
/// slots.
pub proof fn lemma_unauthorized_changes_nothing(s: AggregatorState, sub: Submission)
    requires
        !accepted(sub.origin),
    ensures
        step(s, sub) == s,
{
}

/// Whatever was submitted, the current price is that of the last accepted
/// submission, snapshot or not; with none accepted it is what it was.
pub proof fn lemma_current_price_is_latest_accepted(s: AggregatorState, subs: Seq<Submission>)
    ensures
        replay(s, subs).current_price == match latest_accepted(subs) {
            Some(price) => price,
            None => s.current_price,
        },
    decreases subs.len(),
{
    if subs.len() > 0 {
        lemma_current_price_is_latest_accepted(s, subs.drop_last());
    }
}

/// The history is append-only: what it held stays, in place, and its length
/// never falls. The snapshot height moves only when the history grows.
pub proof fn lemma_history_only_grows(s: AggregatorState, subs: Seq<Submission>)
    ensures
        s.history.is_prefix_of(replay(s, subs).history),
        s.history.len() <= replay(s, subs).history.len(),
        replay(s, subs).history.len() == s.history.len() ==> replay(s, subs).history == s.history
            && replay(s, subs).last_snapshot_height == s.last_snapshot_height
            && replay(s, subs).average_price == s.average_price,
    decreases subs.len(),
{
    if subs.len() > 0 {
        let before = replay(s, subs.drop_last());
        lemma_history_only_grows(s, subs.drop_last());
        let after = step(before, subs.last());
        assert(before.history.is_prefix_of(after.history));
        if after.history.len() == s.history.len() {
            assert(after.history =~= s.history);
        }
    }
}

/// From a state whose average is the rounded mean of its history, and so
/// from genesis, every sequence of submissions leads to such a state.
pub proof fn lemma_average_follows_history(s: AggregatorState, subs: Seq<Submission>)
    requires
        s.average_price == mean(s.history),
    ensures
        replay(s, subs).average_price == mean(replay(s, subs).history),
    decreases subs.len(),
{
    if subs.len() > 0 {
        lemma_average_follows_history(s, subs.drop_last());
    }
}

} // verus!
