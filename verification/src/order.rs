//! The order of seals and of their parts: numbers by size, bytes
//! lexicographically, an absent txid before any present one.

use core::cmp::Ordering;
use vstd::prelude::*;

verus! {

/// Which of two values comes first.
#[derive(Copy, Clone, PartialEq, Eq, Hash, Debug, Structural)]
pub enum Order {
    /// The first value comes before the second.
    Less,
    /// Neither value comes before the other.
    Equal,
    /// The first value comes after the second.
    Greater,
}

impl Order {
    /// The order of two numbers.
    pub open spec fn of_numbers(a: int, b: int) -> Order {
        if a < b {
            Order::Less
        } else if a == b {
            Order::Equal
        } else {
            Order::Greater
        }
    }

    /// The lexicographic order of two byte strings of one length: the first
    /// byte in which they differ decides.
    pub open spec fn of_bytes(a: Seq<u8>, b: Seq<u8>) -> Order
        decreases a.len(),
    {
        if a.len() == 0 || b.len() == 0 {
            Order::Equal
        } else {
            Order::of_numbers(a[0] as int, b[0] as int).followed_by(Order::of_bytes(a.skip(1), b.skip(1)))
        }
    }

    /// The order of two optional byte strings: an absent one comes first.
    pub open spec fn of_optional_bytes(a: Option<Seq<u8>>, b: Option<Seq<u8>>) -> Order {
        match (a, b) {
            (None, None) => Order::Equal,
            (None, Some(_)) => Order::Less,
            (Some(_), None) => Order::Greater,
            (Some(x), Some(y)) => Order::of_bytes(x, y),
        }
    }

    /// The lexicographic step: where the first comparison is undecided, the
    /// next one decides.
    pub open spec fn followed_by(self, next: Order) -> Order {
        match self {
            Order::Equal => next,
            _ => self,
        }
    }

    /// The order of the same two values taken the other way round.
    pub open spec fn reverse(self) -> Order {
        match self {
            Order::Less => Order::Greater,
            Order::Equal => Order::Equal,
            Order::Greater => Order::Less,
        }
    }

    /// The order in the terms of the standard library.
    pub open spec fn ordering(self) -> Ordering {
        match self {
            Order::Less => Ordering::Less,
            Order::Equal => Ordering::Equal,
            Order::Greater => Ordering::Greater,
        }
    }

    /// Executable form of `followed_by`.
    pub fn and_then(self, next: Order) -> (r: Order)
        ensures
            r == self.followed_by(next),
    {
        match self {
            Order::Equal => next,
            _ => self,
        }
    }

    /// Executable form of `ordering`.
    pub fn into_ordering(self) -> (r: Ordering)
        ensures
            r == self.ordering(),
    {
        match self {
            Order::Less => Ordering::Less,
            Order::Equal => Ordering::Equal,
            Order::Greater => Ordering::Greater,
        }
    }

    /// Byte strings of one length are in no order exactly if they are the
    /// same, and taking them the other way round reverses their order.
    pub proof fn lemma_of_bytes(a: Seq<u8>, b: Seq<u8>)
        requires
            a.len() == b.len(),
        ensures
            Order::of_bytes(a, b) == Order::Equal <==> a == b,
            Order::of_bytes(b, a) == Order::of_bytes(a, b).reverse(),
        decreases a.len(),
    {
        if a.len() == 0 {
            assert(a =~= b);
        } else {
            Order::lemma_of_bytes(a.skip(1), b.skip(1));
            if a[0] == b[0] && a.skip(1) == b.skip(1) {
                assert(a =~= seq![a[0]] + a.skip(1));
                assert(b =~= seq![b[0]] + b.skip(1));
            }
        }
    }

    /// The lexicographic order of byte strings of one length is transitive.
    pub proof fn lemma_of_bytes_transitive(a: Seq<u8>, b: Seq<u8>, c: Seq<u8>)
        requires
            a.len() == b.len(),
            b.len() == c.len(),
            Order::of_bytes(a, b) != Order::Greater,
            Order::of_bytes(b, c) != Order::Greater,
        ensures
            Order::of_bytes(a, c) != Order::Greater,
            Order::of_bytes(a, c) == Order::Equal ==> Order::of_bytes(a, b) == Order::Equal
                && Order::of_bytes(b, c) == Order::Equal,
        decreases a.len(),
    {
        if a.len() > 0 {
            if a[0] == b[0] && b[0] == c[0] {
                Order::lemma_of_bytes_transitive(a.skip(1), b.skip(1), c.skip(1));
            }
        }
    }
}

/// Compares two numbers.
pub fn compare_numbers(a: u64, b: u64) -> (r: Order)
    ensures
        r == Order::of_numbers(a as int, b as int),
{
    if a < b {
        Order::Less
    } else if a == b {
        Order::Equal
    } else {
        Order::Greater
    }
}

/// Compares two arrays of 32 bytes lexicographically.
pub fn compare_bytes(a: &[u8; 32], b: &[u8; 32]) -> (r: Order)
    ensures
        r == Order::of_bytes(a@, b@),
{
    let mut i: usize = 0;
    assert(a@.skip(0) == a@ && b@.skip(0) == b@);
    while i < 32
        invariant
            0 <= i <= 32,
            Order::of_bytes(a@, b@) == Order::of_bytes(a@.skip(i as int), b@.skip(i as int)),
        decreases 32 - i,
    {
        proof {
            let (x, y) = (a@.skip(i as int), b@.skip(i as int));
            assert(x[0] == a@[i as int] && y[0] == b@[i as int]);
            assert(x.skip(1) == a@.skip(i + 1) && y.skip(1) == b@.skip(i + 1));
        }
        if a[i] < b[i] {
            return Order::Less;
        } else if a[i] > b[i] {
            return Order::Greater;
        }
        i += 1;
    }
    Order::Equal
}

} // verus!
