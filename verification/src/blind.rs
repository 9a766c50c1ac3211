//! TxOut seals which are blinded with additional entropy.
//!
//! A revealed seal holds the output, the closing method and a secret
//! blinding factor. Its concealed form is the SHA-256 digest of
//!
//! | bytes | content                                                   |
//! |-------|-----------------------------------------------------------|
//! | 1     | wire byte of the closing method                           |
//! | 32    | bytes of the txid; 32 zero bytes where the txid is absent |
//! | 4     | output number, little-endian                              |
//! | 8     | blinding factor, little-endian                            |
//!
//! and is safe to publish: without the blinding factor it tells nothing of
//! the output.

use crate::error::{ParseError, ParseErrorView, VerifyError};
use crate::explicit::{ExplicitSeal, ExplicitSealView};
use crate::method::CloseMethod;
use crate::order::{compare_bytes, compare_numbers, Order};
use crate::outpoint::{OutPoint, Txid};
use crate::seal::TxoSeal;
use crate::wire::{
    lemma_u32_le, lemma_u64_from_le, lemma_u64_le, push_bytes, push_u32_le, push_u64_le,
    read_bytes, read_u64_le, same_bytes, u32_le, u64_from_le, u64_le,
};
use core::cmp::Ordering;
use vstd::prelude::*;
use vstd::slice::slice_subrange;

verus! {

/// Revealed seal definition: full knowledge of the seal, which is the
/// output, the closing method and the secret which hides them.
#[derive(Clone, Copy, Eq, Ord, Hash, Debug)]
pub struct RevealedSeal {
    /// Commitment to the specific seal close method [`CloseMethod`] which
    /// must be used to close this seal.
    pub method: CloseMethod,
    /// Txid of the seal definition, absent where the context determines the
    /// transaction.
    pub txid: Option<Txid>,
    /// Tx output number, which should be always known.
    pub vout: u32,
    /// Blinding factor providing confidentiality of the seal definition.
    /// Prevents rainbow table bruteforce attack based on the existing
    /// blockchain txid set.
    pub blinding: u64,
}

/// What a revealed seal is, with the txid as its bytes.
pub struct RevealedSealView {
    pub method: CloseMethod,
    pub txid: Option<Seq<u8>>,
    pub vout: u32,
    pub blinding: u64,
}

/// Blind version of transaction outpoint-based single-use-seal: the 32
/// bytes of the commitment to a revealed seal.
#[derive(Clone, Copy, Eq, Ord, Hash, Debug)]
pub struct ConcealedSeal(pub [u8; 32]);

/// The SHA-256 digest of `message`.
pub uninterp spec fn sha256_digest(message: Seq<u8>) -> Seq<u8>;

/// The `data1...` Bech32m string of `payload`.
pub uninterp spec fn bech32_data_text(payload: Seq<u8>) -> Seq<char>;

/// The payload of the `data1...` Bech32m string `s`, if `s` is one.
pub uninterp spec fn bech32_data_payload(s: Seq<char>) -> Option<Seq<u8>>;

/// The bytes which stand in the commitment for an absent txid.
pub open spec fn placeholder_txid() -> Seq<u8> {
    Seq::new(32, |i: int| 0u8)
}

/// `CommitVerify::commit` of `commit_verify` for `sha256::Hash` under the
/// `PrehashedProtocol`: the SHA-256 digest of the message.
#[verifier::external_body]
fn sha256_commit(message: &Vec<u8>) -> (digest: [u8; 32])
    ensures
        digest@ == sha256_digest(message@),
{
    let hash = <bitcoin::hashes::sha256::Hash as commit_verify::CommitVerify<
        Vec<u8>,
        commit_verify::PrehashedProtocol,
    >>::commit(message);
    bitcoin::hashes::Hash::into_inner(hash)
}

/// `RngCore::next_u64` of the thread-local generator which `thread_rng` of
/// `rand` hands out: a number of which nothing is known beforehand.
#[verifier::external_body]
fn random_blinding() -> u64 {
    bitcoin::secp256k1::rand::RngCore::next_u64(&mut bitcoin::secp256k1::rand::thread_rng())
}

/// `Bech32DataString::bech32_data_string` of `lnpbp_bech32`: the bytes as a
/// Bech32m string with the prefix `data`.
#[verifier::external_body]
fn bech32_data_string(payload: &[u8; 32]) -> (r: String)
    ensures
        r@ == bech32_data_text(payload@),
{
    lnpbp_bech32::Bech32DataString::bech32_data_string(payload)
}

/// `FromBech32DataStr::from_bech32_data_str` of `lnpbp_bech32` for byte
/// vectors: the payload of a Bech32m string with the prefix `data`, or the
/// reason why the string is none.
#[verifier::external_body]
fn from_bech32_data_str(s: &str) -> (r: Result<Vec<u8>, lnpbp_bech32::Error>)
    ensures
        r is Ok <==> bech32_data_payload(s@) is Some,
        r matches Ok(payload) ==> bech32_data_payload(s@) == Some(payload@),
{
    <Vec<u8> as lnpbp_bech32::FromBech32DataStr>::from_bech32_data_str(s)
}

impl RevealedSealView {
    /// The txid, where there is one, has its 32 bytes.
    pub open spec fn wf(self) -> bool {
        self.txid matches Some(bytes) ==> bytes.len() == 32
    }

    /// The seal without its blinding factor.
    pub open spec fn explicit(self) -> ExplicitSealView {
        ExplicitSealView { method: self.method, txid: self.txid, vout: self.vout }
    }

    /// The order of two seals: that of the seals without their blinding
    /// factors, then by blinding factor.
    pub open spec fn order(self, other: RevealedSealView) -> Order {
        self.explicit().order(other.explicit()).followed_by(
            Order::of_numbers(self.blinding as int, other.blinding as int),
        )
    }

    /// Seals are in no order exactly if they are the same seal, and taking
    /// them the other way round reverses their order.
    pub proof fn order_is_total(self, other: RevealedSealView)
        requires
            self.wf(),
            other.wf(),
        ensures
            self.order(other) == Order::Equal <==> self == other,
            other.order(self) == self.order(other).reverse(),
    {
        self.explicit().order_is_total(other.explicit());
    }

    /// The order of seals is transitive.
    pub proof fn order_is_transitive(self, second: RevealedSealView, third: RevealedSealView)
        requires
            self.wf(),
            second.wf(),
            third.wf(),
            self.order(second) != Order::Greater,
            second.order(third) != Order::Greater,
        ensures
            self.order(third) != Order::Greater,
    {
        let (a, b, c) = (self.explicit(), second.explicit(), third.explicit());
        a.order_is_total(b);
        b.order_is_total(c);
        a.order_is_total(c);
        a.order_is_transitive(b, c);
    }

    /// The binary form of the seal: the binary form of the seal without its
    /// blinding factor, then the blinding factor as eight little-endian
    /// bytes.
    pub open spec fn encoded(self) -> Seq<u8> {
        self.explicit().encoded() + u64_le(self.blinding)
    }

    /// The bytes which the commitment holds for the txid.
    pub open spec fn committed_txid(self) -> Seq<u8> {
        match self.txid {
            Some(bytes) => bytes,
            None => placeholder_txid(),
        }
    }

    /// The message which the commitment is the digest of.
    pub open spec fn commitment_preimage(self) -> Seq<u8> {
        seq![self.method.wire_byte()] + self.committed_txid() + u32_le(self.vout) + u64_le(
            self.blinding,
        )
    }

    /// The bytes of the concealed form of the seal.
    pub open spec fn concealed(self) -> Seq<u8> {
        sha256_digest(self.commitment_preimage())
    }

    /// The seals commit to the same method, txid bytes, output number and
    /// blinding factor.
    pub open spec fn commits_as(self, other: RevealedSealView) -> bool {
        &&& self.method == other.method
        &&& self.committed_txid() == other.committed_txid()
        &&& self.vout == other.vout
        &&& self.blinding == other.blinding
    }

    /// Two seals have the same commitment message exactly where they commit
    /// to the same method, txid bytes, output number and blinding factor: a
    /// difference in any of them changes the message which is hashed.
    pub proof fn preimage_is_injective(self, other: RevealedSealView)
        requires
            self.wf(),
            other.wf(),
        ensures
            self.commitment_preimage() == other.commitment_preimage() <==> self.commits_as(
                other,
            ),
    {
        let a = self.commitment_preimage();
        let b = other.commitment_preimage();
        lemma_u32_le(self.vout);
        lemma_u32_le(other.vout);
        lemma_u64_le(self.blinding);
        lemma_u64_le(other.blinding);
        assert(a[0] == self.method.wire_byte() && b[0] == other.method.wire_byte());
        assert(a.subrange(1, 33) == self.committed_txid());
        assert(b.subrange(1, 33) == other.committed_txid());
        assert(a.subrange(33, 37) == u32_le(self.vout));
        assert(b.subrange(33, 37) == u32_le(other.vout));
        assert(a.subrange(37, 45) == u64_le(self.blinding));
        assert(b.subrange(37, 45) == u64_le(other.blinding));
    }

    /// Concealing is a function of the seal: the same seal always has the
    /// same concealed form.
    pub proof fn conceal_is_deterministic(self, other: RevealedSealView)
        requires
            self == other,
        ensures
            self.concealed() == other.concealed(),
    {
    }

    /// The concealed form of a seal matches the seal.
    pub proof fn concealed_matches(self)
        ensures
            ConcealedSeal::matches(self.concealed(), self),
    {
    }

    /// A concealed seal matches another seal than the one it was made from
    /// exactly where the digests of their commitment messages are the same.
    /// For seals which differ in what they commit to these are digests of
    /// two different messages.
    pub proof fn concealed_matches_other(self, other: RevealedSealView)
        requires
            self.wf(),
            other.wf(),
        ensures
            ConcealedSeal::matches(self.concealed(), other) <==> sha256_digest(
                self.commitment_preimage(),
            ) == sha256_digest(other.commitment_preimage()),
            !self.commits_as(other) ==> self.commitment_preimage()
                != other.commitment_preimage(),
    {
        self.preimage_is_injective(other);
    }
}

impl View for RevealedSeal {
    type V = RevealedSealView;

    open spec fn view(&self) -> RevealedSealView {
        RevealedSealView {
            method: self.method,
            txid: match self.txid {
                Some(txid) => Some(txid@),
                None => None,
            },
            vout: self.vout,
            blinding: self.blinding,
        }
    }
}

impl RevealedSeal {
    /// The seal which `bytes` are the binary form of, if they are the
    /// binary form of any: the last eight bytes are the blinding factor,
    /// and what stands before them is the binary form of an explicit seal.
    pub open spec fn decoded(bytes: Seq<u8>) -> Option<RevealedSealView> {
        if bytes.len() < 8 {
            None
        } else {
            match ExplicitSeal::decoded(bytes.take(bytes.len() - 8)) {
                None => None,
                Some(seal) => Some(
                    RevealedSealView {
                        method: seal.method,
                        txid: seal.txid,
                        vout: seal.vout,
                        blinding: u64_from_le(bytes.skip(bytes.len() - 8)),
                    },
                ),
            }
        }
    }

    /// Constructs seal for the provided outpoint and seal closing method,
    /// with a blinding factor drawn anew from the thread's random number
    /// generator.
    pub fn new(method: CloseMethod, outpoint: OutPoint) -> (seal: RevealedSeal)
        ensures
            seal.method == method,
            seal.txid == Some(outpoint.txid),
            seal.vout == outpoint.vout,
    {
        RevealedSeal::with(method, Some(outpoint.txid), outpoint.vout, random_blinding())
    }

    /// Constructs seal with the given blinding factor. A blinding factor
    /// must not serve more than one seal.
    pub fn with(method: CloseMethod, txid: Option<Txid>, vout: u32, blinding: u64) -> (seal:
        RevealedSeal)
        ensures
            seal == (RevealedSeal { method, txid, vout, blinding }),
    {
        RevealedSeal { method, txid, vout, blinding }
    }

    /// The seal without its blinding factor.
    pub fn to_explicit(&self) -> (seal: ExplicitSeal)
        ensures
            seal == self.explicit(),
    {
        ExplicitSeal { method: self.method, txid: self.txid, vout: self.vout }
    }

    /// The message which the concealed form is the digest of.
    pub fn commitment_message(&self) -> (message: Vec<u8>)
        ensures
            message@ == self@.commitment_preimage(),
            message@.len() == 45,
    {
        let mut message: Vec<u8> = Vec::new();
        message.push(self.method.encode_byte());
        let txid_bytes: [u8; 32] = match self.txid {
            Some(txid) => txid.into_inner(),
            None => [0u8; 32],
        };
        assert(txid_bytes@ =~= self@.committed_txid());
        push_bytes(&mut message, &txid_bytes);
        push_u32_le(&mut message, self.vout);
        push_u64_le(&mut message, self.blinding);
        proof {
            lemma_u32_le(self.vout);
            lemma_u64_le(self.blinding);
            assert(message@ =~= self@.commitment_preimage());
        }
        message
    }

    /// Conceals the seal: computes the commitment which stands for it until
    /// it is disclosed.
    pub fn conceal(&self) -> (concealed: ConcealedSeal)
        ensures
            concealed@ == self@.concealed(),
    {
        let message = self.commitment_message();
        ConcealedSeal(sha256_commit(&message))
    }

    /// Compares two seals: as the seals without their blinding factors,
    /// then by blinding factor.
    pub fn compare(&self, other: &RevealedSeal) -> (r: Order)
        ensures
            r == self@.order(other@),
    {
        let (a, b) = (self.to_explicit(), other.to_explicit());
        assert(a@ == self@.explicit() && b@ == other@.explicit());
        a.compare(&b).and_then(compare_numbers(self.blinding, other.blinding))
    }

    /// Writes the seal, blinding factor included, in its binary form. What
    /// is written discloses the seal.
    pub fn encode(&self) -> (bytes: Vec<u8>)
        ensures
            bytes@ == self@.encoded(),
    {
        let explicit = self.to_explicit();
        assert(explicit@ == self@.explicit());
        let mut bytes = explicit.encode();
        push_u64_le(&mut bytes, self.blinding);
        bytes
    }

    /// Reads a seal from its binary form. Bytes which are the binary form
    /// of no seal are refused as a whole.
    pub fn decode(bytes: &[u8]) -> (r: Option<RevealedSeal>)
        ensures
            match RevealedSeal::decoded(bytes@) {
                Some(seal) => r matches Some(read) && read@ == seal,
                None => r is None,
            },
    {
        let len = bytes.len();
        if len < 8 {
            return None;
        }
        assert(bytes@.take(len - 8) == bytes@.subrange(0, len - 8));
        assert(bytes@.skip(len - 8) == bytes@.subrange(len - 8, len as int));
        match ExplicitSeal::decode(slice_subrange(bytes, 0, len - 8)) {
            Some(seal) => Some(
                RevealedSeal {
                    method: seal.method,
                    txid: seal.txid,
                    vout: seal.vout,
                    blinding: read_u64_le(bytes, len - 8),
                },
            ),
            None => None,
        }
    }

    /// Reading the binary form of a seal gives the seal again.
    pub proof fn encoding_round_trip(seal: RevealedSealView)
        requires
            seal.wf(),
        ensures
            RevealedSeal::decoded(seal.encoded()) == Some(seal),
    {
        let bytes = seal.encoded();
        let head = seal.explicit().encoded();
        lemma_u64_le(seal.blinding);
        ExplicitSeal::encoding_round_trip(seal.explicit());
        assert(bytes.take(bytes.len() - 8) == head);
        assert(bytes.skip(bytes.len() - 8) == u64_le(seal.blinding));
    }

    /// The binary form is canonical: bytes which are read as a seal are the
    /// binary form of that seal.
    pub proof fn encoding_is_canonical(bytes: Seq<u8>)
        requires
            RevealedSeal::decoded(bytes) is Some,
        ensures
            RevealedSeal::decoded(bytes).unwrap().wf(),
            RevealedSeal::decoded(bytes).unwrap().encoded() == bytes,
    {
        let seal = RevealedSeal::decoded(bytes).unwrap();
        let head = bytes.take(bytes.len() - 8);
        let tail = bytes.skip(bytes.len() - 8);
        ExplicitSeal::encoding_is_canonical(head);
        lemma_u64_from_le(tail);
        assert(ExplicitSeal::decoded(head).unwrap() == seal.explicit());
        assert(head + tail == bytes);
    }

    /// Seals with the same method, txid bytes, output number and blinding
    /// factor are the same seal.
    pub proof fn view_is_injective(self, other: RevealedSeal)
        ensures
            self@.wf(),
            self@ == other@ <==> self == other,
    {
        if self@ == other@ {
            match (self.txid, other.txid) {
                (Some(a), Some(b)) => {
                    a.view_is_injective(b);
                },
                _ => {},
            }
        }
        if let Some(txid) = self.txid {
            txid.view_is_injective(txid);
        }
    }
}

impl PartialEq for RevealedSeal {
    fn eq(&self, other: &RevealedSeal) -> (r: bool) {
        self.method == other.method && self.txid == other.txid && self.vout == other.vout
            && self.blinding == other.blinding
    }
}

impl vstd::std_specs::cmp::PartialEqSpecImpl for RevealedSeal {
    open spec fn obeys_eq_spec() -> bool {
        true
    }

    open spec fn eq_spec(&self, other: &RevealedSeal) -> bool {
        self@ == other@
    }
}

impl PartialEq for ConcealedSeal {
    fn eq(&self, other: &ConcealedSeal) -> (r: bool) {
        same_bytes(&self.0, &other.0)
    }
}

impl vstd::std_specs::cmp::PartialEqSpecImpl for ConcealedSeal {
    open spec fn obeys_eq_spec() -> bool {
        true
    }

    open spec fn eq_spec(&self, other: &ConcealedSeal) -> bool {
        self@ == other@
    }
}

impl PartialOrd for RevealedSeal {
    fn partial_cmp(&self, other: &RevealedSeal) -> (r: Option<Ordering>) {
        Some(self.compare(other).into_ordering())
    }
}

impl vstd::std_specs::cmp::PartialOrdSpecImpl for RevealedSeal {
    open spec fn obeys_partial_cmp_spec() -> bool {
        true
    }

    open spec fn partial_cmp_spec(&self, other: &RevealedSeal) -> Option<Ordering> {
        Some(self@.order(other@).ordering())
    }
}

impl PartialOrd for ConcealedSeal {
    fn partial_cmp(&self, other: &ConcealedSeal) -> (r: Option<Ordering>) {
        Some(compare_bytes(&self.0, &other.0).into_ordering())
    }
}

impl vstd::std_specs::cmp::PartialOrdSpecImpl for ConcealedSeal {
    open spec fn obeys_partial_cmp_spec() -> bool {
        true
    }

    open spec fn partial_cmp_spec(&self, other: &ConcealedSeal) -> Option<Ordering> {
        Some(Order::of_bytes(self@, other@).ordering())
    }
}

impl TxoSeal for RevealedSeal {
    open spec fn explicit(&self) -> ExplicitSeal {
        ExplicitSeal { method: self.method, txid: self.txid, vout: self.vout }
    }

    fn method(&self) -> (r: CloseMethod) {
        self.method
    }

    fn txid(&self) -> (r: Option<Txid>) {
        self.txid
    }

    fn vout(&self) -> (r: usize) {
        self.vout as usize
    }

    fn outpoint(&self) -> (r: Option<OutPoint>) {
        match self.txid {
            Some(txid) => Some(OutPoint::new(txid, self.vout)),
            None => None,
        }
    }

    fn txid_or(&self, default_txid: Txid) -> (r: Txid) {
        match self.txid {
            Some(txid) => txid,
            None => default_txid,
        }
    }

    fn outpoint_or(&self, default_txid: Txid) -> (r: OutPoint) {
        OutPoint::new(self.txid_or(default_txid), self.vout)
    }
}

impl View for ConcealedSeal {
    type V = Seq<u8>;

    open spec fn view(&self) -> Seq<u8> {
        self.0@
    }
}

impl ConcealedSeal {
    /// `concealed` is the concealed form of `revealed`.
    pub open spec fn matches(concealed: Seq<u8>, revealed: RevealedSealView) -> bool {
        concealed == revealed.concealed()
    }

    /// What the payload of a string, or the failure to find one in it,
    /// gives: a payload of 32 bytes is a concealed seal, one of any other
    /// length has the wrong structure, and the failure is handed on.
    pub open spec fn spec_from_payload(decoded: Result<Seq<u8>, lnpbp_bech32::Error>) -> Result<
        Seq<u8>,
        ParseErrorView,
    > {
        match decoded {
            Ok(payload) => if payload.len() == 32 {
                Ok(payload)
            } else {
                Err(ParseErrorView::WrongStructure)
            },
            Err(e) => Err(ParseErrorView::Bech32(e)),
        }
    }

    /// The concealed seal with the given bytes.
    pub fn from_inner(bytes: [u8; 32]) -> (concealed: ConcealedSeal)
        ensures
            concealed.0 == bytes,
    {
        ConcealedSeal(bytes)
    }

    /// The bytes of the concealed seal.
    pub fn into_inner(self) -> (bytes: [u8; 32])
        ensures
            bytes == self.0,
    {
        self.0
    }

    /// The bytes of the concealed seal, which are its binary form.
    pub fn encode(&self) -> (bytes: Vec<u8>)
        ensures
            bytes@ == self@,
    {
        let mut bytes: Vec<u8> = Vec::new();
        push_bytes(&mut bytes, &self.0);
        assert(bytes@ =~= self@);
        bytes
    }

    /// Reads a concealed seal from its binary form, which has 32 bytes.
    pub fn decode(bytes: &[u8]) -> (r: Option<ConcealedSeal>)
        ensures
            match r {
                Some(seal) => bytes@.len() == 32 && seal@ == bytes@,
                None => bytes@.len() != 32,
            },
    {
        if bytes.len() == 32 {
            assert(bytes@.subrange(0, 32) == bytes@);
            Some(ConcealedSeal(read_bytes(bytes, 0)))
        } else {
            None
        }
    }

    /// Commits to a revealed seal.
    pub fn commit(revealed: &RevealedSeal) -> (concealed: ConcealedSeal)
        ensures
            concealed@ == revealed@.concealed(),
    {
        revealed.conceal()
    }

    /// Verifies the concealed seal against a disclosed one: computes the
    /// commitment to the disclosed seal anew and compares all of its bytes.
    pub fn verify(&self, revealed: &RevealedSeal) -> (r: bool)
        ensures
            r == ConcealedSeal::matches(self@, revealed@),
    {
        let expected = revealed.conceal();
        same_bytes(&self.0, &expected.0)
    }

    /// Verifies the concealed seal against a disclosed one, and fails where
    /// the disclosed seal is not the one committed to.
    pub fn verify_strict(&self, revealed: &RevealedSeal) -> (r: Result<(), VerifyError>)
        ensures
            r is Ok <==> ConcealedSeal::matches(self@, revealed@),
    {
        if self.verify(revealed) {
            Ok(())
        } else {
            Err(VerifyError)
        }
    }

    /// Makes a concealed seal of the decoded payload of a string.
    pub fn from_payload(decoded: Result<Vec<u8>, lnpbp_bech32::Error>) -> (r: Result<
        ConcealedSeal,
        ParseError,
    >)
        ensures
            match decoded {
                Ok(payload) => if payload@.len() == 32 {
                    r matches Ok(seal) && seal@ == payload@
                } else {
                    r matches Err(e) && e@ == ParseErrorView::WrongStructure
                },
                Err(reason) => r matches Err(e) && e@ == ParseErrorView::Bech32(reason),
            },
    {
        match decoded {
            Ok(payload) => match ConcealedSeal::decode(payload.as_slice()) {
                Some(seal) => Ok(seal),
                None => Err(ParseError::WrongStructure),
            },
            Err(reason) => Err(ParseError::Bech32(reason)),
        }
    }

    /// Reads a concealed seal from its `data1...` Bech32m string.
    pub fn from_str(s: &str) -> (r: Result<ConcealedSeal, ParseError>)
        ensures
            match bech32_data_payload(s@) {
                Some(payload) => if payload.len() == 32 {
                    r matches Ok(seal) && seal@ == payload
                } else {
                    r matches Err(e) && e@ == ParseErrorView::WrongStructure
                },
                None => r matches Err(e) && e@ is Bech32,
            },
    {
        ConcealedSeal::from_payload(from_bech32_data_str(s))
    }

    /// Writes the concealed seal as a `data1...` Bech32m string.
    pub fn to_string(&self) -> (r: String)
        ensures
            r@ == bech32_data_text(self@),
    {
        bech32_data_string(&self.0)
    }

    /// Concealed seals with the same bytes are the same concealed seal.
    pub proof fn view_is_injective(self, other: ConcealedSeal)
        ensures
            self@.len() == 32,
            self@ == other@ <==> self == other,
    {
        if self@ == other@ {
            assert(self.0 =~= other.0);
        }
    }
}

} // verus!
