use tft_price::aggregator::{
    average_of, ApplyError, Identity, Origin, PriceAggregator, PriceStored, SNAPSHOT_INTERVAL,
};
use tft_price::fixed::FixedPoint;

fn alice() -> Origin {
    Origin::Signed(Identity { id: 1 })
}

fn price(units: u16) -> FixedPoint {
    FixedPoint::from_int(units)
}

fn raw(bits: &[u32]) -> Vec<FixedPoint> {
    bits.iter().map(|b| FixedPoint::from_bits(*b)).collect()
}

#[test]
fn genesis_is_all_zero() {
    let a = PriceAggregator::new();
    assert_eq!(a.current_price(), FixedPoint::from_bits(0));
    assert_eq!(a.last_snapshot_height(), 0);
    assert!(a.history().is_empty());
    assert_eq!(a.average_price(), FixedPoint::from_bits(0));
}

#[test]
fn early_submission_sets_only_the_current_price() {
    let mut a = PriceAggregator::new();
    let r = a.apply(alice(), price(100), 50);
    assert_eq!(r, Ok(PriceStored { price: price(100), submitter: Identity { id: 1 } }));
    assert!(a.history().is_empty());
    assert_eq!(a.current_price(), price(100));
    assert_eq!(a.current_price().to_bits(), 100 * 65536);
    assert_eq!(a.last_snapshot_height(), 0);
    assert_eq!(a.average_price(), price(0));
}

#[test]
fn first_snapshot_fills_history_and_average() {
    let mut a = PriceAggregator::new();
    a.apply(alice(), price(100), 50).unwrap();
    a.apply(alice(), price(200), 150).unwrap();
    assert_eq!(a.history(), &vec![price(200)]);
    assert_eq!(a.average_price(), price(200));
    assert_eq!(a.last_snapshot_height(), 150);
    assert_eq!(a.current_price(), price(200));
}

#[test]
fn second_snapshot_averages_both_entries() {
    let mut a = PriceAggregator::new();
    a.apply(alice(), price(100), 50).unwrap();
    a.apply(alice(), price(200), 150).unwrap();
    a.apply(alice(), price(300), 260).unwrap();
    assert_eq!(a.history(), &vec![price(200), price(300)]);
    assert_eq!(a.average_price(), price(250));
    assert_eq!(a.average_price().to_bits(), 250 * 65536);
    assert_eq!(a.last_snapshot_height(), 260);
    assert_eq!(a.current_price(), price(300));
}

#[test]
fn threshold_is_strict() {
    let mut a = PriceAggregator::new();
    a.apply(alice(), price(1), SNAPSHOT_INTERVAL).unwrap();
    assert!(a.history().is_empty());
    assert_eq!(a.last_snapshot_height(), 0);
    a.apply(alice(), price(2), SNAPSHOT_INTERVAL + 1).unwrap();
    assert_eq!(a.history().len(), 1);
    assert_eq!(a.last_snapshot_height(), 101);
    a.apply(alice(), price(3), 201).unwrap();
    assert_eq!(a.history().len(), 1);
    assert_eq!(a.last_snapshot_height(), 101);
    a.apply(alice(), price(4), 202).unwrap();
    assert_eq!(a.history(), &vec![price(2), price(4)]);
    assert_eq!(a.last_snapshot_height(), 202);
}

#[test]
fn due_submission_adds_exactly_one_entry() {
    let mut a = PriceAggregator::new();
    a.apply(alice(), price(10), 500).unwrap();
    let after_first = a.history().len();
    let last = a.last_snapshot_height();
    assert!(900 - last > 100);
    a.apply(alice(), price(11), 900).unwrap();
    assert_eq!(a.history().len(), after_first + 1);
    assert_eq!(a.history()[after_first], price(11));
}

#[test]
fn height_below_last_snapshot_takes_no_snapshot() {
    let mut a = PriceAggregator::new();
    a.apply(alice(), price(10), 1_000).unwrap();
    a.apply(alice(), price(20), 3).unwrap();
    assert_eq!(a.history(), &vec![price(10)]);
    assert_eq!(a.last_snapshot_height(), 1_000);
    assert_eq!(a.current_price(), price(20));
    assert_eq!(a.average_price(), price(10));
}

#[test]
fn unauthorized_submission_changes_nothing() {
    let mut a = PriceAggregator::new();
    a.apply(alice(), price(200), 150).unwrap();
    for origin in [Origin::Root, Origin::Unsigned] {
        let r = a.apply(origin, price(999), 10_000);
        assert_eq!(r, Err(ApplyError::Unauthorized));
        assert_eq!(a.current_price(), price(200));
        assert_eq!(a.history(), &vec![price(200)]);
        assert_eq!(a.average_price(), price(200));
        assert_eq!(a.last_snapshot_height(), 150);
    }
}

#[test]
fn current_price_follows_every_accepted_submission() {
    let mut a = PriceAggregator::new();
    let heights = [5u64, 150, 160, 170, 300, 301];
    for (i, h) in heights.iter().enumerate() {
        let p = price(10 + i as u16);
        a.apply(alice(), p, *h).unwrap();
        assert_eq!(a.current_price(), p);
        let _ = a.apply(Origin::Unsigned, price(1), *h);
        assert_eq!(a.current_price(), p);
    }
    assert_eq!(a.history(), &vec![price(11), price(14)]);
}

#[test]
fn event_names_the_signer() {
    let mut a = PriceAggregator::new();
    let r = a.apply(Origin::Signed(Identity { id: 42 }), price(7), 1);
    assert_eq!(r.unwrap().submitter, Identity { id: 42 });
}

#[test]
fn calculate_and_set_price_records_without_origin() {
    let mut a = PriceAggregator::new();
    a.calculate_and_set_price(price(5), 101);
    assert_eq!(a.current_price(), price(5));
    assert_eq!(a.history(), &vec![price(5)]);
    assert_eq!(a.average_price(), price(5));
    assert_eq!(a.last_snapshot_height(), 101);
}

#[test]
fn average_of_nothing_is_zero() {
    assert_eq!(average_of(&Vec::new()), FixedPoint::from_bits(0));
}

#[test]
fn average_rounds_to_nearest() {
    assert_eq!(average_of(&raw(&[1, 1, 2])).to_bits(), 1);
    assert_eq!(average_of(&raw(&[1, 2, 2])).to_bits(), 2);
    assert_eq!(average_of(&raw(&[10, 20, 40])).to_bits(), 23);
}

#[test]
fn average_breaks_ties_to_even() {
    assert_eq!(average_of(&raw(&[0, 1])).to_bits(), 0);
    assert_eq!(average_of(&raw(&[1, 2])).to_bits(), 2);
    assert_eq!(average_of(&raw(&[2, 3])).to_bits(), 2);
    assert_eq!(average_of(&raw(&[3, 4])).to_bits(), 4);
}

#[test]
fn average_of_the_largest_prices_does_not_overflow() {
    assert_eq!(average_of(&raw(&[u32::MAX, u32::MAX, u32::MAX])).to_bits(), u32::MAX);
    assert_eq!(average_of(&raw(&[u32::MAX, u32::MAX - 1])).to_bits(), u32::MAX - 1);
    assert_eq!(average_of(&raw(&[u32::MAX, 0])).to_bits(), 0x8000_0000);
}

#[test]
fn average_is_within_half_a_unit_of_the_mean() {
    let h = raw(&[7, 65_536, 123_456_789, 4_000_000_000, 3, 99]);
    let sum: u128 = h.iter().map(|p| p.to_bits() as u128).sum();
    let n = h.len() as u128;
    let avg = average_of(&h).to_bits() as u128;
    let diff = if avg * n > sum { avg * n - sum } else { sum - avg * n };
    assert!(2 * diff <= n);
    assert_eq!(avg, 687_253_739);
}

#[test]
fn average_after_snapshot_is_mean_of_history() {
    let mut a = PriceAggregator::new();
    let mut h: u64 = 0;
    for bits in [65_536u32, 3, 1_000_000, 77] {
        h += 101;
        a.apply(alice(), FixedPoint::from_bits(bits), h).unwrap();
        assert_eq!(a.average_price(), average_of(a.history()));
    }
    assert_eq!(a.history().len(), 4);
    assert_eq!(a.average_price().to_bits(), 266_404);
}
