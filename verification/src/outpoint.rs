//! Transaction ids and transaction outputs, as plain values.

use crate::order::{compare_bytes, compare_numbers, Order};
use crate::text::delimiter_free;
use crate::wire::{push_bytes, same_bytes};
use core::cmp::Ordering;
use vstd::prelude::*;

verus! {

/// A bitcoin transaction id: the 32 bytes of the transaction hash in the
/// order in which they are hashed and serialized. The hexadecimal notation
/// shows them in the reverse order.
#[derive(Copy, Clone, Eq, Ord, Hash, Debug)]
pub struct Txid(pub [u8; 32]);

/// A reference to a transaction output.
#[derive(Copy, Clone, Eq, Ord, Hash, Debug)]
pub struct OutPoint {
    /// The referenced transaction's txid.
    pub txid: Txid,
    /// The index of the referenced output in its transaction's outputs.
    pub vout: u32,
}

/// What an outpoint is, with the txid as its bytes.
pub struct OutPointView {
    pub txid: Seq<u8>,
    pub vout: u32,
}

impl OutPointView {
    /// The order of two outpoints: by txid bytes, then by output number.
    pub open spec fn order(self, other: OutPointView) -> Order {
        Order::of_bytes(self.txid, other.txid).followed_by(
            Order::of_numbers(self.vout as int, other.vout as int),
        )
    }
}

/// The number which a hexadecimal digit of either case stands for.
pub open spec fn hex_value(c: char) -> Option<nat> {
    if '0' <= c && c <= '9' {
        Some((c as int - '0' as int) as nat)
    } else if 'a' <= c && c <= 'f' {
        Some((c as int - 'a' as int + 10) as nat)
    } else if 'A' <= c && c <= 'F' {
        Some((c as int - 'A' as int + 10) as nat)
    } else {
        None
    }
}

/// The lower-case hexadecimal digit which stands for `v`, for `v < 16`.
pub open spec fn hex_char(v: nat) -> char {
    if v < 10 {
        ('0' as int + v) as char
    } else {
        ('a' as int + v - 10) as char
    }
}

/// `s` is the hexadecimal notation of some txid: 64 hexadecimal digits.
pub open spec fn is_txid_hex(s: Seq<char>) -> bool {
    s.len() == 64 && forall|i: int| 0 <= i < 64 ==> hex_value(#[trigger] s[i]) is Some
}

/// The bytes of the txid which the 64 hexadecimal digits of `s` denote: the
/// last two digits give the first byte.
pub open spec fn txid_from_hex(s: Seq<char>) -> Seq<u8> {
    Seq::new(
        32,
        |n: int|
            (16 * hex_value(s[62 - 2 * n]).unwrap() + hex_value(s[63 - 2 * n]).unwrap()) as u8,
    )
}

/// The hexadecimal notation of the txid with the given 32 bytes: two
/// lower-case digits for each byte, the last byte first.
pub open spec fn txid_to_hex(bytes: Seq<u8>) -> Seq<char> {
    Seq::new(
        64,
        |k: int|
            if k % 2 == 0 {
                hex_char((bytes[31 - k / 2] / 16) as nat)
            } else {
                hex_char((bytes[31 - k / 2] % 16) as nat)
            },
    )
}

/// The txid that `s` denotes, if it denotes one.
pub open spec fn txid_from_text(s: Seq<char>) -> Option<Seq<u8>> {
    if is_txid_hex(s) {
        Some(txid_from_hex(s))
    } else {
        None
    }
}

/// Reading the hexadecimal notation of a txid gives the txid again. The
/// notation has 64 characters, none of them a delimiter of the seal grammar.
pub proof fn lemma_txid_hex_round_trip(bytes: Seq<u8>)
    requires
        bytes.len() == 32,
    ensures
        txid_to_hex(bytes).len() == 64,
        delimiter_free(txid_to_hex(bytes)),
        txid_from_text(txid_to_hex(bytes)) == Some(bytes),
{
    let hex = txid_to_hex(bytes);
    assert forall|k: int| 0 <= k < 64 implies hex_value(#[trigger] hex[k]) == Some(
        if k % 2 == 0 {
            (bytes[31 - k / 2] / 16) as nat
        } else {
            (bytes[31 - k / 2] % 16) as nat
        },
    ) by {
        let byte = bytes[31 - k / 2];
        assert(byte / 16 < 16 && byte % 16 < 16);
    }
    assert(is_txid_hex(hex));
    assert forall|n: int| 0 <= n < 32 implies txid_from_hex(hex)[n] == bytes[n] by {
        let hi = hex[62 - 2 * n];
        let lo = hex[63 - 2 * n];
        assert(hex_value(hi) == Some((bytes[n] / 16) as nat));
        assert(hex_value(lo) == Some((bytes[n] % 16) as nat));
    }
    assert(txid_from_hex(hex) =~= bytes);
}

/// The binary form of an optional txid: the byte 1 and the 32 bytes of the
/// txid where there is one, the byte 0 alone where there is none.
pub open spec fn encoded_txid(txid: Option<Seq<u8>>) -> Seq<u8> {
    match txid {
        Some(bytes) => seq![1u8] + bytes,
        None => seq![0u8],
    }
}

/// `bitcoin::Txid::from_str`: succeeds on exactly the strings of 64
/// hexadecimal digits (of either case), and reads each pair of digits as one
/// byte, the last pair as the first byte of the txid.
#[verifier::external_body]
fn parse_txid_hex(s: &str) -> (r: Option<[u8; 32]>)
    ensures
        r is Some <==> is_txid_hex(s@),
        r matches Some(bytes) ==> bytes@ == txid_from_hex(s@),
{
    match s.parse::<bitcoin::Txid>() {
        Ok(txid) => Some(bitcoin::hashes::Hash::into_inner(txid)),
        Err(_) => None,
    }
}

/// `bitcoin::Txid`'s `Display`: writes each byte of the txid as two
/// lower-case hexadecimal digits, the last byte first.
#[verifier::external_body]
fn format_txid_hex(bytes: &[u8; 32]) -> (r: String)
    ensures
        r@ == txid_to_hex(bytes@),
{
    let txid: bitcoin::Txid = bitcoin::hashes::Hash::from_inner(*bytes);
    txid.to_string()
}

impl View for Txid {
    type V = Seq<u8>;

    open spec fn view(&self) -> Seq<u8> {
        self.0@
    }
}

impl Txid {
    /// The txid with the given bytes.
    pub fn from_inner(bytes: [u8; 32]) -> (txid: Txid)
        ensures
            txid.0 == bytes,
    {
        Txid(bytes)
    }

    /// The bytes of the txid.
    pub fn into_inner(self) -> (bytes: [u8; 32])
        ensures
            bytes == self.0,
    {
        self.0
    }

    /// Reads a txid from its hexadecimal notation of 64 digits.
    pub fn from_hex(s: &str) -> (r: Option<Txid>)
        ensures
            match txid_from_text(s@) {
                Some(bytes) => r matches Some(txid) && txid@ == bytes,
                None => r is None,
            },
    {
        match parse_txid_hex(s) {
            Some(bytes) => Some(Txid(bytes)),
            None => None,
        }
    }

    /// Writes the txid in its hexadecimal notation.
    pub fn to_hex(&self) -> (r: String)
        ensures
            r@ == txid_to_hex(self@),
    {
        format_txid_hex(&self.0)
    }

    /// Compares two txids lexicographically by their bytes.
    pub fn compare(&self, other: &Txid) -> (r: Order)
        ensures
            r == Order::of_bytes(self@, other@),
    {
        compare_bytes(&self.0, &other.0)
    }

    /// Compares two optional txids: an absent txid comes before any txid.
    pub fn compare_optional(a: &Option<Txid>, b: &Option<Txid>) -> (r: Order)
        ensures
            r == Order::of_optional_bytes(
                match *a {
                    Some(txid) => Some(txid@),
                    None => None,
                },
                match *b {
                    Some(txid) => Some(txid@),
                    None => None,
                },
            ),
    {
        match (a, b) {
            (None, None) => Order::Equal,
            (None, Some(_)) => Order::Less,
            (Some(_), None) => Order::Greater,
            (Some(x), Some(y)) => x.compare(y),
        }
    }

    /// Appends the binary form of an optional txid.
    pub fn push_optional(out: &mut Vec<u8>, txid: &Option<Txid>)
        ensures
            final(out)@ == old(out)@ + encoded_txid(
                match *txid {
                    Some(txid) => Some(txid@),
                    None => None,
                },
            ),
    {
        match txid {
            Some(txid) => {
                out.push(1);
                push_bytes(out, &txid.0);
                assert(out@ =~= old(out)@ + (seq![1u8] + txid@));
            },
            None => {
                out.push(0);
                assert(out@ =~= old(out)@ + seq![0u8]);
            },
        }
    }

    /// Txids with the same bytes are the same txid.
    pub proof fn view_is_injective(self, other: Txid)
        ensures
            self@.len() == 32,
            self@ == other@ <==> self == other,
    {
        if self@ == other@ {
            assert(self.0 =~= other.0);
        }
    }
}

impl PartialEq for Txid {
    fn eq(&self, other: &Txid) -> (r: bool) {
        same_bytes(&self.0, &other.0)
    }
}

impl vstd::std_specs::cmp::PartialEqSpecImpl for Txid {
    open spec fn obeys_eq_spec() -> bool {
        true
    }

    open spec fn eq_spec(&self, other: &Txid) -> bool {
        self@ == other@
    }
}

impl PartialOrd for Txid {
    fn partial_cmp(&self, other: &Txid) -> (r: Option<Ordering>) {
        Some(self.compare(other).into_ordering())
    }
}

impl vstd::std_specs::cmp::PartialOrdSpecImpl for Txid {
    open spec fn obeys_partial_cmp_spec() -> bool {
        true
    }

    open spec fn partial_cmp_spec(&self, other: &Txid) -> Option<Ordering> {
        Some(Order::of_bytes(self@, other@).ordering())
    }
}

impl View for OutPoint {
    type V = OutPointView;

    open spec fn view(&self) -> OutPointView {
        OutPointView { txid: self.txid@, vout: self.vout }
    }
}

impl PartialEq for OutPoint {
    fn eq(&self, other: &OutPoint) -> (r: bool) {
        self.txid == other.txid && self.vout == other.vout
    }
}

impl vstd::std_specs::cmp::PartialEqSpecImpl for OutPoint {
    open spec fn obeys_eq_spec() -> bool {
        true
    }

    open spec fn eq_spec(&self, other: &OutPoint) -> bool {
        self@ == other@
    }
}

impl PartialOrd for OutPoint {
    fn partial_cmp(&self, other: &OutPoint) -> (r: Option<Ordering>) {
        Some(self.compare(other).into_ordering())
    }
}

impl vstd::std_specs::cmp::PartialOrdSpecImpl for OutPoint {
    open spec fn obeys_partial_cmp_spec() -> bool {
        true
    }

    open spec fn partial_cmp_spec(&self, other: &OutPoint) -> Option<Ordering> {
        Some(self@.order(other@).ordering())
    }
}

impl OutPoint {
    /// Compares two outpoints: by txid, then by output number.
    pub fn compare(&self, other: &OutPoint) -> (r: Order)
        ensures
            r == self@.order(other@),
    {
        self.txid.compare(&other.txid).and_then(
            compare_numbers(self.vout as u64, other.vout as u64),
        )
    }

    /// Outpoints with the same txid bytes and output number are the same
    /// outpoint.
    pub proof fn view_is_injective(self, other: OutPoint)
        ensures
            self@ == other@ <==> self == other,
    {
        self.txid.view_is_injective(other.txid);
    }

    /// The output number `vout` of the transaction `txid`.
    pub fn new(txid: Txid, vout: u32) -> (outpoint: OutPoint)
        ensures
            outpoint == (OutPoint { txid, vout }),
    {
        OutPoint { txid, vout }
    }
}

} // verus!
