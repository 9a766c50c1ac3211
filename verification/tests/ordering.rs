use std::cmp::Ordering;

use bp_seals::order::{compare_bytes, compare_numbers, Order};
use bp_seals::{CloseMethod, ConcealedSeal, ExplicitSeal, OutPoint, RevealedSeal, Txid};

fn txids() -> Vec<Option<Txid>> {
    let mut low = [0u8; 32];
    low[31] = 1;
    let mut high = [0u8; 32];
    high[0] = 1;
    vec![
        None,
        Some(Txid::from_inner([0u8; 32])),
        Some(Txid::from_inner(low)),
        Some(Txid::from_inner(high)),
        Some(Txid::from_inner([0xff; 32])),
    ]
}

fn explicit_seals() -> Vec<ExplicitSeal> {
    let mut seals = Vec::new();
    for method in [CloseMethod::OpretFirst, CloseMethod::TapretFirst] {
        for txid in txids() {
            for vout in [0u32, 1, u32::MAX] {
                seals.push(ExplicitSeal::with(method, txid, vout));
            }
        }
    }
    seals
}

#[test]
fn numbers_and_bytes_compare_as_in_std() {
    assert_eq!(compare_numbers(1, 2), Order::Less);
    assert_eq!(compare_numbers(2, 2), Order::Equal);
    assert_eq!(compare_numbers(u64::MAX, 2), Order::Greater);
    let mut a = [7u8; 32];
    let b = [7u8; 32];
    assert_eq!(compare_bytes(&a, &b), Order::Equal);
    a[31] = 6;
    assert_eq!(compare_bytes(&a, &b), Order::Less);
    a[0] = 8;
    assert_eq!(compare_bytes(&a, &b), Order::Greater);
    assert_eq!(Order::Less.into_ordering(), Ordering::Less);
    assert_eq!(Order::Equal.into_ordering(), Ordering::Equal);
    assert_eq!(Order::Greater.into_ordering(), Ordering::Greater);
    assert_eq!(Order::Equal.and_then(Order::Greater), Order::Greater);
    assert_eq!(Order::Less.and_then(Order::Greater), Order::Less);
}

#[test]
fn seals_are_listed_in_ascending_order() {
    let seals = explicit_seals();
    for (i, a) in seals.iter().enumerate() {
        for (j, b) in seals.iter().enumerate() {
            assert_eq!(a.partial_cmp(b), Some(i.cmp(&j)));
            assert_eq!(a.compare(b).into_ordering(), i.cmp(&j));
            assert_eq!(a == b, i == j);
        }
    }
}

#[test]
fn partial_order_agrees_with_total_order() {
    let seals = explicit_seals();
    for a in &seals {
        for b in &seals {
            assert_eq!(a.partial_cmp(b), Some(a.cmp(b)));
            assert_eq!(a.method.partial_cmp(&b.method), Some(a.method.cmp(&b.method)));
            if let (Some(x), Some(y)) = (a.txid, b.txid) {
                assert_eq!(x.partial_cmp(&y), Some(x.cmp(&y)));
                let (p, q) = (OutPoint::new(x, a.vout), OutPoint::new(y, b.vout));
                assert_eq!(p.partial_cmp(&q), Some(p.cmp(&q)));
                assert_eq!(p == q, p.cmp(&q) == Ordering::Equal);
                let (c, d) = (ConcealedSeal::from_inner(x.0), ConcealedSeal::from_inner(y.0));
                assert_eq!(c.partial_cmp(&d), Some(c.cmp(&d)));
                assert_eq!(c == d, x == y);
            }
            for (k, l) in [(0u64, 0u64), (0, 1), (1, 0), (u64::MAX, 1)] {
                let r = RevealedSeal::with(a.method, a.txid, a.vout, k);
                let s = RevealedSeal::with(b.method, b.txid, b.vout, l);
                assert_eq!(r.partial_cmp(&s), Some(r.cmp(&s)));
                assert_eq!(r == s, r.cmp(&s) == Ordering::Equal);
                let expected = if a == b { k.cmp(&l) } else { a.cmp(b) };
                assert_eq!(r.cmp(&s), expected);
            }
        }
    }
}

#[test]
fn outpoints_are_ordered_by_txid_then_vout() {
    let low = Txid::from_inner([0u8; 32]);
    let high = Txid::from_inner([1u8; 32]);
    assert!(OutPoint::new(low, 9) < OutPoint::new(high, 0));
    assert!(OutPoint::new(low, 1) < OutPoint::new(low, 2));
    assert!(OutPoint::new(low, 1) <= OutPoint::new(low, 1));
    assert!(OutPoint::new(high, 1) > OutPoint::new(low, 1));
}
