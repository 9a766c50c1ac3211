//! Seals which name their transaction output in the open.

use crate::error::{ParseError, ParseErrorView, WitnessVoutError};
use crate::method::{CloseMethod, MethodParseError};
use crate::order::{compare_numbers, Order};
use crate::outpoint::{
    encoded_txid, lemma_txid_hex_round_trip, txid_from_text, txid_to_hex, OutPoint, Txid,
};
use crate::seal::TxoSeal;
use crate::text::{
    chars_of, decimal_from_text, decimal_text, delimiter_free, find_segment_end, is_delimiter,
    lemma_decimal_round_trip, lemma_decimal_text, lemma_segment_end_is,
    lemma_segments_of_three, lemma_segments_split, lemma_segments_unfold, parse_decimal,
    push_decimal, segments,
};
use crate::wire::{
    lemma_u32_from_le, lemma_u32_le, push_u32_le, read_bytes, read_u32_le, u32_from_le, u32_le,
};
use core::cmp::Ordering;
use vstd::prelude::*;
use vstd::string::StrSliceExecFns;
use vstd::string::StringExecFns;

verus! {

/// Revealed seal definition which may point to a witness transactions and
/// does not contain blinding data.
///
/// With no blinding factor there is nothing to conceal such a seal with, so
/// it has no concealed form.
#[derive(Clone, Copy, Eq, Ord, Hash, Debug)]
pub struct ExplicitSeal {
    /// Commitment to the specific seal close method [`CloseMethod`] which
    /// must be used to close this seal.
    pub method: CloseMethod,
    /// Txid of the seal definition.
    ///
    /// It may be missed in situations when ID of a transaction is not known,
    /// but the transaction still can be identified by some other means (for
    /// instance it is a transaction spending specific outpoint, like other
    /// seal definition).
    pub txid: Option<Txid>,
    /// Tx output number, which should be always known.
    pub vout: u32,
}

/// What an explicit seal is, with the txid as its bytes.
pub struct ExplicitSealView {
    pub method: CloseMethod,
    pub txid: Option<Seq<u8>>,
    pub vout: u32,
}

impl ExplicitSealView {
    /// The txid, where there is one, has its 32 bytes.
    pub open spec fn wf(self) -> bool {
        self.txid matches Some(bytes) ==> bytes.len() == 32
    }

    /// The order of two seals: by method, then by txid, where an absent
    /// txid comes before any present one, then by output number.
    pub open spec fn order(self, other: ExplicitSealView) -> Order {
        self.method.order(other.method).followed_by(
            Order::of_optional_bytes(self.txid, other.txid),
        ).followed_by(Order::of_numbers(self.vout as int, other.vout as int))
    }

    /// Seals are in no order exactly if they are the same seal, and taking
    /// them the other way round reverses their order.
    pub proof fn order_is_total(self, other: ExplicitSealView)
        requires
            self.wf(),
            other.wf(),
        ensures
            self.order(other) == Order::Equal <==> self == other,
            other.order(self) == self.order(other).reverse(),
    {
        if let (Some(a), Some(b)) = (self.txid, other.txid) {
            Order::lemma_of_bytes(a, b);
        }
    }

    /// The order of seals is transitive.
    pub proof fn order_is_transitive(self, second: ExplicitSealView, third: ExplicitSealView)
        requires
            self.wf(),
            second.wf(),
            third.wf(),
            self.order(second) != Order::Greater,
            second.order(third) != Order::Greater,
        ensures
            self.order(third) != Order::Greater,
    {
        if let (Some(a), Some(b), Some(c)) = (self.txid, second.txid, third.txid) {
            Order::lemma_of_bytes(a, b);
            Order::lemma_of_bytes(b, c);
            Order::lemma_of_bytes(a, c);
            if Order::of_bytes(a, b) != Order::Greater && Order::of_bytes(b, c)
                != Order::Greater {
                Order::lemma_of_bytes_transitive(a, b, c);
            }
        }
    }

    /// The binary form of the seal: the wire byte of the method, the
    /// optional txid, and the output number as four little-endian bytes.
    pub open spec fn encoded(self) -> Seq<u8> {
        seq![self.method.wire_byte()] + encoded_txid(self.txid) + u32_le(self.vout)
    }
}

/// The segment which stands for an absent txid.
pub open spec fn absent_txid_text() -> Seq<char> {
    seq!['~']
}

impl View for ExplicitSeal {
    type V = ExplicitSealView;

    open spec fn view(&self) -> ExplicitSealView {
        ExplicitSealView {
            method: self.method,
            txid: match self.txid {
                Some(txid) => Some(txid@),
                None => None,
            },
            vout: self.vout,
        }
    }
}

impl ExplicitSeal {
    /// The outpoint which the seal names by itself.
    pub open spec fn spec_outpoint(self) -> Option<OutPoint> {
        match self.txid {
            Some(txid) => Some(OutPoint { txid, vout: self.vout }),
            None => None,
        }
    }

    /// The txid of the seal with `default_txid` in place of an absent one.
    pub open spec fn spec_txid_or(self, default_txid: Txid) -> Txid {
        match self.txid {
            Some(txid) => txid,
            None => default_txid,
        }
    }

    /// The outpoint of the seal with `default_txid` in place of an absent
    /// txid.
    pub open spec fn spec_outpoint_or(self, default_txid: Txid) -> OutPoint {
        OutPoint { txid: self.spec_txid_or(default_txid), vout: self.vout }
    }

    /// The outpoint of the seal, or the failure to name one.
    pub open spec fn spec_to_outpoint(self) -> Result<OutPoint, WitnessVoutError> {
        match self.txid {
            Some(txid) => Ok(OutPoint { txid, vout: self.vout }),
            None => Err(WitnessVoutError),
        }
    }

    /// The seal which names `outpoint` and is closed by the Taproot-based
    /// method, the default where no method is given.
    pub open spec fn spec_from_outpoint(outpoint: OutPoint) -> ExplicitSeal {
        ExplicitSeal {
            method: CloseMethod::TapretFirst,
            txid: Some(outpoint.txid),
            vout: outpoint.vout,
        }
    }

    /// The string which stands for a seal: the name of the method, the txid
    /// in hexadecimal notation or `~` where it is absent, and the output
    /// number in decimal notation, separated by colons.
    pub open spec fn text(seal: ExplicitSealView) -> Seq<char> {
        seal.method.name() + seq![':'] + (match seal.txid {
            Some(bytes) => txid_to_hex(bytes),
            None => absent_txid_text(),
        }) + seq![':'] + decimal_text(seal.vout as nat)
    }

    /// The seal which a string stands for, or what is wrong with the string.
    ///
    /// The string is cut at each `:` and `#`. A first segment which is empty
    /// or `~` lacks the method, whatever follows; then an empty second
    /// segment lacks the txid, whatever follows; then anything but three
    /// segments has the wrong structure. Of three segments the method is
    /// read first, then the txid unless it is `~`, then the output number,
    /// and the first which cannot be read gives the error.
    pub open spec fn parse_text(s: Seq<char>) -> Result<ExplicitSealView, ParseErrorView> {
        let parts = segments(s);
        if parts[0].len() == 0 || parts[0] == absent_txid_text() {
            Err(ParseErrorView::MethodRequired)
        } else if parts.len() >= 2 && parts[1].len() == 0 {
            Err(ParseErrorView::TxidRequired)
        } else if parts.len() != 3 {
            Err(ParseErrorView::WrongStructure)
        } else {
            match CloseMethod::from_text(parts[0]) {
                None => Err(ParseErrorView::WrongMethod(parts[0])),
                Some(method) => {
                    if parts[1] == absent_txid_text() {
                        match decimal_from_text(parts[2]) {
                            None => Err(ParseErrorView::WrongVout),
                            Some(vout) => Ok(ExplicitSealView { method, txid: None, vout }),
                        }
                    } else {
                        match txid_from_text(parts[1]) {
                            None => Err(ParseErrorView::WrongTxid),
                            Some(bytes) => match decimal_from_text(parts[2]) {
                                None => Err(ParseErrorView::WrongVout),
                                Some(vout) => Ok(
                                    ExplicitSealView { method, txid: Some(bytes), vout },
                                ),
                            },
                        }
                    }
                },
            }
        }
    }

    /// The seal which `bytes` are the binary form of, if they are the
    /// binary form of any: a known method, a presence byte of 0 or 1, and
    /// exactly the bytes which that presence asks for.
    pub open spec fn decoded(bytes: Seq<u8>) -> Option<ExplicitSealView> {
        if bytes.len() < 2 {
            None
        } else {
            match CloseMethod::from_wire_byte(bytes[0]) {
                None => None,
                Some(method) => {
                    if bytes[1] == 0 && bytes.len() == 6 {
                        Some(
                            ExplicitSealView {
                                method,
                                txid: None,
                                vout: u32_from_le(bytes.subrange(2, 6)),
                            },
                        )
                    } else if bytes[1] == 1 && bytes.len() == 38 {
                        Some(
                            ExplicitSealView {
                                method,
                                txid: Some(bytes.subrange(2, 34)),
                                vout: u32_from_le(bytes.subrange(34, 38)),
                            },
                        )
                    } else {
                        None
                    }
                },
            }
        }
    }

    /// Constructs seal for the provided outpoint and seal closing method.
    pub fn new(method: CloseMethod, outpoint: OutPoint) -> (seal: ExplicitSeal)
        ensures
            seal == (ExplicitSeal { method, txid: Some(outpoint.txid), vout: outpoint.vout }),
    {
        ExplicitSeal { method, txid: Some(outpoint.txid), vout: outpoint.vout }
    }

    /// Constructs seal.
    pub fn with(method: CloseMethod, txid: Option<Txid>, vout: u32) -> (seal: ExplicitSeal)
        ensures
            seal == (ExplicitSeal { method, txid, vout }),
    {
        ExplicitSeal { method, txid, vout }
    }

    /// The outpoint which the seal names, if the seal holds its txid. A seal
    /// without txid gives the error: for such a seal use `outpoint_or`.
    pub fn to_outpoint(&self) -> (r: Result<OutPoint, WitnessVoutError>)
        ensures
            r == self.spec_to_outpoint(),
    {
        match self.txid {
            Some(txid) => Ok(OutPoint::new(txid, self.vout)),
            None => Err(WitnessVoutError),
        }
    }

    /// Parses a seal from its string form `method:txid:vout`, where `~` in
    /// place of the txid stands for an absent one.
    pub fn from_str(s: &str) -> (r: Result<ExplicitSeal, ParseError>)
        ensures
            match ExplicitSeal::parse_text(s@) {
                Ok(seal) => r matches Ok(parsed) && parsed@ == seal,
                Err(e) => r matches Err(err) && err@ == e,
            },
    {
        let chars = chars_of(s);
        let len = chars.len();
        let ghost parts = segments(s@);
        let end0 = find_segment_end(&chars, 0);
        proof {
            assert(chars@.skip(0) == s@);
            lemma_segments_unfold(s@);
            assert(parts[0] == chars@.subrange(0, end0 as int));
        }
        if end0 == 0 || (end0 == 1 && chars[0] == '~') {
            assert(parts[0].len() == 0 || parts[0] =~= absent_txid_text());
            return Err(ParseError::MethodRequired);
        }
        assert(parts[0] != absent_txid_text()) by {
            if parts[0] == absent_txid_text() {
                assert(parts[0].len() == 1 && parts[0][0] == '~');
            }
        }
        if end0 == len {
            return Err(ParseError::WrongStructure);
        }
        let start1 = end0 + 1;
        let end1 = find_segment_end(&chars, start1);
        let ghost rest1 = s@.skip(start1 as int);
        proof {
            lemma_segments_unfold(rest1);
            assert(parts[1] == parts.skip(1)[0]);
            assert(rest1.take(end1 - start1) == chars@.subrange(start1 as int, end1 as int));
            assert(parts[1] == chars@.subrange(start1 as int, end1 as int));
            assert(parts.len() == 1 + segments(rest1).len());
        }
        if end1 == start1 {
            return Err(ParseError::TxidRequired);
        }
        if end1 == len {
            return Err(ParseError::WrongStructure);
        }
        let start2 = end1 + 1;
        let end2 = find_segment_end(&chars, start2);
        let ghost rest2 = s@.skip(start2 as int);
        proof {
            assert(rest1.skip(end1 - start1 + 1) == rest2);
            lemma_segments_unfold(rest2);
            assert(parts[2] == parts.skip(1)[1]);
            assert(segments(rest1)[1] == segments(rest1).skip(1)[0]);
            assert(rest2.take(end2 - start2) == chars@.subrange(start2 as int, end2 as int));
            assert(parts[2] == chars@.subrange(start2 as int, end2 as int));
            assert(parts.len() == 2 + segments(rest2).len());
        }
        if end2 != len {
            return Err(ParseError::WrongStructure);
        }
        let method = match CloseMethod::from_chars(&chars, 0, end0) {
            Some(method) => method,
            None => {
                let name = s.substring_char(0, end0).to_owned();
                return Err(ParseError::WrongMethod(MethodParseError(name)));
            },
        };
        let txid = if end1 - start1 == 1 && chars[start1] == '~' {
            assert(parts[1] =~= absent_txid_text());
            None
        } else {
            assert(parts[1] != absent_txid_text()) by {
                if parts[1] == absent_txid_text() {
                    assert(parts[1].len() == 1 && parts[1][0] == '~');
                }
            }
            match Txid::from_hex(s.substring_char(start1, end1)) {
                Some(txid) => Some(txid),
                None => {
                    return Err(ParseError::WrongTxid);
                },
            }
        };
        match parse_decimal(&chars, start2, len) {
            Some(vout) => Ok(ExplicitSeal { method, txid, vout }),
            None => Err(ParseError::WrongVout),
        }
    }

    /// Writes the seal in its string form `method:txid:vout`, with `~` in
    /// place of an absent txid.
    pub fn to_string(&self) -> (r: String)
        ensures
            r@ == ExplicitSeal::text(self@),
    {
        proof {
            reveal_strlit(":");
            reveal_strlit("~");
        }
        let mut out = self.method.to_string();
        out.append(":");
        match &self.txid {
            Some(txid) => {
                let hex = txid.to_hex();
                out.append(hex.as_str());
            },
            None => {
                out.append("~");
                assert("~"@ =~= absent_txid_text());
            },
        }
        out.append(":");
        assert(":"@ =~= seq![':']);
        push_decimal(&mut out, self.vout);
        assert(out@ =~= ExplicitSeal::text(self@));
        out
    }

    /// Compares two seals: by method, then by txid, then by output number.
    pub fn compare(&self, other: &ExplicitSeal) -> (r: Order)
        ensures
            r == self@.order(other@),
    {
        self.method.compare(other.method).and_then(
            Txid::compare_optional(&self.txid, &other.txid),
        ).and_then(compare_numbers(self.vout as u64, other.vout as u64))
    }

    /// Writes the seal in its binary form.
    pub fn encode(&self) -> (bytes: Vec<u8>)
        ensures
            bytes@ == self@.encoded(),
    {
        let mut bytes: Vec<u8> = Vec::new();
        bytes.push(self.method.encode_byte());
        Txid::push_optional(&mut bytes, &self.txid);
        push_u32_le(&mut bytes, self.vout);
        assert(bytes@ =~= self@.encoded());
        bytes
    }

    /// Reads a seal from its binary form. Bytes which are the binary form
    /// of no seal are refused as a whole.
    pub fn decode(bytes: &[u8]) -> (r: Option<ExplicitSeal>)
        ensures
            match ExplicitSeal::decoded(bytes@) {
                Some(seal) => r matches Some(read) && read@ == seal,
                None => r is None,
            },
    {
        if bytes.len() < 2 {
            return None;
        }
        let method = match CloseMethod::decode_byte(bytes[0]) {
            Some(method) => method,
            None => {
                return None;
            },
        };
        if bytes[1] == 0 && bytes.len() == 6 {
            Some(ExplicitSeal { method, txid: None, vout: read_u32_le(bytes, 2) })
        } else if bytes[1] == 1 && bytes.len() == 38 {
            let txid = Txid::from_inner(read_bytes(bytes, 2));
            Some(ExplicitSeal { method, txid: Some(txid), vout: read_u32_le(bytes, 34) })
        } else {
            None
        }
    }

    /// Reading the binary form of a seal gives the seal again.
    pub proof fn encoding_round_trip(seal: ExplicitSealView)
        requires
            seal.wf(),
        ensures
            ExplicitSeal::decoded(seal.encoded()) == Some(seal),
    {
        let bytes = seal.encoded();
        lemma_u32_le(seal.vout);
        seal.method.wire_byte_round_trip(0);
        match seal.txid {
            Some(txid) => {
                assert(bytes.len() == 38 && bytes[0] == seal.method.wire_byte() && bytes[1] == 1);
                assert(bytes.subrange(2, 34) == txid);
                assert(bytes.subrange(34, 38) == u32_le(seal.vout));
            },
            None => {
                assert(bytes.len() == 6 && bytes[0] == seal.method.wire_byte() && bytes[1] == 0);
                assert(bytes.subrange(2, 6) == u32_le(seal.vout));
            },
        }
    }

    /// The binary form is canonical: bytes which are read as a seal are the
    /// binary form of that seal, so no two byte strings stand for one seal.
    pub proof fn encoding_is_canonical(bytes: Seq<u8>)
        requires
            ExplicitSeal::decoded(bytes) is Some,
        ensures
            ExplicitSeal::decoded(bytes).unwrap().wf(),
            ExplicitSeal::decoded(bytes).unwrap().encoded() == bytes,
    {
        let seal = ExplicitSeal::decoded(bytes).unwrap();
        seal.method.wire_byte_round_trip(bytes[0]);
        if bytes[1] == 0 {
            lemma_u32_from_le(bytes.subrange(2, 6));
        } else {
            lemma_u32_from_le(bytes.subrange(34, 38));
        }
        assert(seal.encoded() =~= bytes);
    }

    /// Seals with the same method, txid bytes and output number are the
    /// same seal.
    pub proof fn view_is_injective(self, other: ExplicitSeal)
        ensures
            self@.wf(),
            self@ == other@ <==> self == other,
    {
        if self@ == other@ {
            match (self.txid, other.txid) {
                (Some(a), Some(b)) => {
                    a.view_is_injective(b);
                },
                _ => {},
            }
        }
        if let Some(txid) = self.txid {
            txid.view_is_injective(txid);
        }
    }

    /// Round-trip law: the string form of any seal parses back to that seal,
    /// whether it holds a txid or not.
    pub proof fn text_round_trip(seal: ExplicitSealView)
        requires
            seal.wf(),
        ensures
            ExplicitSeal::parse_text(ExplicitSeal::text(seal)) == Ok::<
                ExplicitSealView,
                ParseErrorView,
            >(seal),
    {
        let name = seal.method.name();
        let middle = match seal.txid {
            Some(bytes) => txid_to_hex(bytes),
            None => absent_txid_text(),
        };
        let number = decimal_text(seal.vout as nat);
        seal.method.name_is_plain();
        seal.method.name_round_trip();
        lemma_decimal_text(seal.vout as nat);
        if let Some(bytes) = seal.txid {
            lemma_txid_hex_round_trip(bytes);
        }
        lemma_segments_of_three(name, middle, number);
        lemma_decimal_round_trip(seal.vout);
        let parts = segments(ExplicitSeal::text(seal));
        assert(parts[0] == name && parts[1] == middle && parts[2] == number);
    }

    /// For a seal without txid the string form is the name of the method,
    /// `:~:` and the output number; it parses to a seal without txid, which
    /// is written as the same string again.
    pub proof fn absent_txid_round_trip(method: CloseMethod, vout: u32)
        ensures
            ({
                let seal = ExplicitSealView { method, txid: None, vout };
                let s = method.name() + seq![':', '~', ':'] + decimal_text(vout as nat);
                &&& ExplicitSeal::text(seal) == s
                &&& ExplicitSeal::parse_text(s) == Ok::<ExplicitSealView, ParseErrorView>(seal)
            }),
    {
        let seal = ExplicitSealView { method, txid: None, vout };
        let s = method.name() + seq![':', '~', ':'] + decimal_text(vout as nat);
        assert(ExplicitSeal::text(seal) =~= s);
        ExplicitSeal::text_round_trip(seal);
    }

    /// A string which is empty, or starts with a delimiter or with a `~`
    /// before the first delimiter or the end, lacks the method, whatever
    /// follows.
    pub proof fn method_is_required(s: Seq<char>)
        requires
            s.len() == 0 || is_delimiter(s[0]) || (s[0] == '~' && (s.len() == 1 || is_delimiter(
                s[1],
            ))),
        ensures
            ExplicitSeal::parse_text(s) == Err::<ExplicitSealView, ParseErrorView>(
                ParseErrorView::MethodRequired,
            ),
    {
        lemma_segments_unfold(s);
        if s.len() == 0 || is_delimiter(s[0]) {
            assert(s.take(0).len() == 0);
            lemma_segment_end_is(s, 0);
        } else {
            assert(s.take(1) == absent_txid_text());
            lemma_segment_end_is(s, 1);
        }
    }

    /// A string with a method segment, a delimiter, and then at once the end
    /// or another delimiter lacks the txid, whatever the method segment
    /// holds and whatever follows.
    pub proof fn txid_is_required(method: Seq<char>, delimiter: char, rest: Seq<char>)
        requires
            method.len() > 0,
            method != absent_txid_text(),
            delimiter_free(method),
            is_delimiter(delimiter),
            rest.len() == 0 || is_delimiter(rest[0]),
        ensures
            ExplicitSeal::parse_text(method + seq![delimiter] + rest) == Err::<
                ExplicitSealView,
                ParseErrorView,
            >(ParseErrorView::TxidRequired),
    {
        let parts = segments(method + seq![delimiter] + rest);
        lemma_segments_split(method, delimiter, rest);
        lemma_segments_unfold(rest);
        assert(rest.take(0).len() == 0);
        lemma_segment_end_is(rest, 0);
        assert(parts[0] == method);
        assert(parts[1] == segments(rest)[0]);
    }

    /// A seal without txid names no outpoint by itself, in either form of
    /// asking; with a default txid it names the output of that transaction.
    pub proof fn absent_txid_outpoint(self, default_txid: Txid)
        requires
            self.txid is None,
        ensures
            self.spec_outpoint() is None,
            self.spec_to_outpoint() == Err::<OutPoint, WitnessVoutError>(WitnessVoutError),
            self.spec_outpoint_or(default_txid) == (OutPoint {
                txid: default_txid,
                vout: self.vout,
            }),
    {
    }

    /// A seal made for an outpoint names that outpoint, whatever default is
    /// offered.
    pub proof fn new_names_outpoint(method: CloseMethod, outpoint: OutPoint, default_txid: Txid)
        ensures
            ({
                let seal = ExplicitSeal {
                    method,
                    txid: Some(outpoint.txid),
                    vout: outpoint.vout,
                };
                &&& seal.spec_to_outpoint() == Ok::<OutPoint, WitnessVoutError>(outpoint)
                &&& seal.spec_outpoint() == Some(outpoint)
                &&& seal.spec_outpoint_or(default_txid) == outpoint
            }),
    {
    }
}

impl PartialEq for ExplicitSeal {
    fn eq(&self, other: &ExplicitSeal) -> (r: bool) {
        self.method == other.method && self.txid == other.txid && self.vout == other.vout
    }
}

impl vstd::std_specs::cmp::PartialEqSpecImpl for ExplicitSeal {
    open spec fn obeys_eq_spec() -> bool {
        true
    }

    open spec fn eq_spec(&self, other: &ExplicitSeal) -> bool {
        self@ == other@
    }
}

impl PartialOrd for ExplicitSeal {
    fn partial_cmp(&self, other: &ExplicitSeal) -> (r: Option<Ordering>) {
        Some(self.compare(other).into_ordering())
    }
}

impl vstd::std_specs::cmp::PartialOrdSpecImpl for ExplicitSeal {
    open spec fn obeys_partial_cmp_spec() -> bool {
        true
    }

    open spec fn partial_cmp_spec(&self, other: &ExplicitSeal) -> Option<Ordering> {
        Some(self@.order(other@).ordering())
    }
}

impl TxoSeal for ExplicitSeal {
    open spec fn explicit(&self) -> ExplicitSeal {
        *self
    }

    fn method(&self) -> (r: CloseMethod) {
        self.method
    }

    fn txid(&self) -> (r: Option<Txid>) {
        self.txid
    }

    fn vout(&self) -> (r: usize) {
        self.vout as usize
    }

    fn outpoint(&self) -> (r: Option<OutPoint>) {
        match self.txid {
            Some(txid) => Some(OutPoint::new(txid, self.vout)),
            None => None,
        }
    }

    fn txid_or(&self, default_txid: Txid) -> (r: Txid) {
        match self.txid {
            Some(txid) => txid,
            None => default_txid,
        }
    }

    fn outpoint_or(&self, default_txid: Txid) -> (r: OutPoint) {
        OutPoint::new(self.txid_or(default_txid), self.vout)
    }
}

impl From<OutPoint> for ExplicitSeal {
    fn from(outpoint: OutPoint) -> (seal: ExplicitSeal) {
        ExplicitSeal::new(CloseMethod::TapretFirst, outpoint)
    }
}

impl vstd::std_specs::convert::FromSpecImpl<OutPoint> for ExplicitSeal {
    open spec fn obeys_from_spec() -> bool {
        true
    }

    open spec fn from_spec(outpoint: OutPoint) -> ExplicitSeal {
        ExplicitSeal::spec_from_outpoint(outpoint)
    }
}

impl From<&OutPoint> for ExplicitSeal {
    fn from(outpoint: &OutPoint) -> (seal: ExplicitSeal) {
        ExplicitSeal::new(CloseMethod::TapretFirst, *outpoint)
    }
}

impl vstd::std_specs::convert::FromSpecImpl<&OutPoint> for ExplicitSeal {
    open spec fn obeys_from_spec() -> bool {
        true
    }

    open spec fn from_spec(outpoint: &OutPoint) -> ExplicitSeal {
        ExplicitSeal::spec_from_outpoint(*outpoint)
    }
}

impl TryFrom<&ExplicitSeal> for OutPoint {
    type Error = WitnessVoutError;

    fn try_from(seal: &ExplicitSeal) -> (r: Result<OutPoint, WitnessVoutError>) {
        seal.to_outpoint()
    }
}

impl vstd::std_specs::convert::TryFromSpecImpl<&ExplicitSeal> for OutPoint {
    open spec fn obeys_try_from_spec() -> bool {
        true
    }

    open spec fn try_from_spec(seal: &ExplicitSeal) -> Result<OutPoint, WitnessVoutError> {
        seal.spec_to_outpoint()
    }
}

impl TryFrom<ExplicitSeal> for OutPoint {
    type Error = WitnessVoutError;

    fn try_from(seal: ExplicitSeal) -> (r: Result<OutPoint, WitnessVoutError>) {
        seal.to_outpoint()
    }
}

impl vstd::std_specs::convert::TryFromSpecImpl<ExplicitSeal> for OutPoint {
    open spec fn obeys_try_from_spec() -> bool {
        true
    }

    open spec fn try_from_spec(seal: ExplicitSeal) -> Result<OutPoint, WitnessVoutError> {
        seal.spec_to_outpoint()
    }
}

} // verus!
