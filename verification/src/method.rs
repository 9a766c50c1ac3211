//! Methods of closing a single-use-seal.

use crate::order::{compare_numbers, Order};
use crate::text::{ascii_lowercase, chars_of, delimiter_free, matches_ignoring_ascii_case};
use core::cmp::Ordering;
use vstd::prelude::*;

verus! {

/// Method of single-use-seal closing: where in the closing transaction the
/// commitment has to be placed.
///
/// The order of the variants is the order of their wire bytes; a new method
/// is added after the existing ones.
#[derive(Copy, Clone, PartialEq, Eq, Ord, Hash, Debug, Structural)]
#[non_exhaustive]
pub enum CloseMethod {
    /// Seal is closed over the message in form of OP_RETURN commitment present
    /// in the first OP_RETURN-containing transaction output.
    OpretFirst,
    /// Seal is closed over the message in form of Taproot-based OP_RETURN
    /// commitment present in the first Taproot transaction output.
    TapretFirst,
}

/// The text which failed to name a seal closing method.
#[derive(Clone, PartialEq, Eq, PartialOrd, Ord, Hash, Debug)]
pub struct MethodParseError(pub String);

impl CloseMethod {
    /// The canonical name of the method, as displayed and parsed.
    pub open spec fn name(self) -> Seq<char> {
        match self {
            CloseMethod::OpretFirst => seq!['o', 'p', 'r', 'e', 't', '1', 's', 't'],
            CloseMethod::TapretFirst => seq!['t', 'a', 'p', 'r', 'e', 't', '1', 's', 't'],
        }
    }

    /// The method which `s` names: `s` is the canonical name of a method up
    /// to the case of its ASCII letters.
    pub open spec fn from_text(s: Seq<char>) -> Option<CloseMethod> {
        if ascii_lowercase(s) == CloseMethod::OpretFirst.name() {
            Some(CloseMethod::OpretFirst)
        } else if ascii_lowercase(s) == CloseMethod::TapretFirst.name() {
            Some(CloseMethod::TapretFirst)
        } else {
            None
        }
    }

    /// The byte which stands for the method on the wire.
    pub open spec fn wire_byte(self) -> u8 {
        match self {
            CloseMethod::OpretFirst => 0x00,
            CloseMethod::TapretFirst => 0x01,
        }
    }

    /// The method which the wire byte `b` stands for.
    pub open spec fn from_wire_byte(b: u8) -> Option<CloseMethod> {
        if b == 0x00 {
            Some(CloseMethod::OpretFirst)
        } else if b == 0x01 {
            Some(CloseMethod::TapretFirst)
        } else {
            None
        }
    }

    /// The order of two methods, which is that of their wire bytes.
    pub open spec fn order(self, other: CloseMethod) -> Order {
        Order::of_numbers(self.wire_byte() as int, other.wire_byte() as int)
    }

    /// Compares two methods by their wire bytes.
    pub fn compare(self, other: CloseMethod) -> (r: Order)
        ensures
            r == self.order(other),
    {
        compare_numbers(self.encode_byte() as u64, other.encode_byte() as u64)
    }

    /// The canonical name of the method.
    pub fn as_str(self) -> (r: &'static str)
        ensures
            r@ == self.name(),
    {
        proof {
            reveal_strlit("opret1st");
            reveal_strlit("tapret1st");
        }
        let r = match self {
            CloseMethod::OpretFirst => "opret1st",
            CloseMethod::TapretFirst => "tapret1st",
        };
        assert(r@ =~= self.name());
        r
    }

    /// Displays the method by its canonical name.
    pub fn to_string(&self) -> (r: String)
        ensures
            r@ == self.name(),
    {
        self.as_str().to_owned()
    }

    /// Reads the method which `chars[start..end]` names.
    pub fn from_chars(chars: &Vec<char>, start: usize, end: usize) -> (r: Option<CloseMethod>)
        requires
            start <= end <= chars.len(),
        ensures
            r == CloseMethod::from_text(chars@.subrange(start as int, end as int)),
    {
        if matches_ignoring_ascii_case(chars, start, end, CloseMethod::OpretFirst.as_str()) {
            Some(CloseMethod::OpretFirst)
        } else if matches_ignoring_ascii_case(
            chars,
            start,
            end,
            CloseMethod::TapretFirst.as_str(),
        ) {
            Some(CloseMethod::TapretFirst)
        } else {
            None
        }
    }

    /// Parses the name of a method, whatever the case of its letters. Any
    /// other text is handed back in the error.
    pub fn from_str(s: &str) -> (r: Result<CloseMethod, MethodParseError>)
        ensures
            match CloseMethod::from_text(s@) {
                Some(method) => r == Ok::<CloseMethod, MethodParseError>(method),
                None => r matches Err(e) && e.0@ == s@,
            },
    {
        let chars = chars_of(s);
        assert(chars@.subrange(0, chars.len() as int) == s@);
        match CloseMethod::from_chars(&chars, 0, chars.len()) {
            Some(method) => Ok(method),
            None => Err(MethodParseError(s.to_owned())),
        }
    }

    /// Encodes the method as its wire byte.
    pub fn encode_byte(self) -> (b: u8)
        ensures
            b == self.wire_byte(),
    {
        match self {
            CloseMethod::OpretFirst => 0x00,
            CloseMethod::TapretFirst => 0x01,
        }
    }

    /// Decodes a wire byte. A byte which stands for no method known here is
    /// refused, never mapped to a default.
    pub fn decode_byte(b: u8) -> (r: Option<CloseMethod>)
        ensures
            r == CloseMethod::from_wire_byte(b),
    {
        if b == 0x00 {
            Some(CloseMethod::OpretFirst)
        } else if b == 0x01 {
            Some(CloseMethod::TapretFirst)
        } else {
            None
        }
    }

    /// Parsing the canonical name of a method gives that method: display and
    /// parsing are inverse to each other.
    pub proof fn name_round_trip(self)
        ensures
            CloseMethod::from_text(self.name()) == Some(self),
    {
        assert(ascii_lowercase(self.name()) =~= self.name());
        assert(CloseMethod::OpretFirst.name().len() != CloseMethod::TapretFirst.name().len());
    }

    /// A name is never empty, is not the `~` placeholder, and holds no
    /// delimiter of the seal grammar.
    pub proof fn name_is_plain(self)
        ensures
            self.name().len() > 1,
            delimiter_free(self.name()),
    {
    }

    /// Decoding the wire byte of a method gives that method, and only the
    /// wire byte of a method decodes to it.
    pub proof fn wire_byte_round_trip(self, b: u8)
        ensures
            CloseMethod::from_wire_byte(self.wire_byte()) == Some(self),
            CloseMethod::from_wire_byte(b) == Some(self) <==> b == self.wire_byte(),
    {
    }
}

impl PartialOrd for CloseMethod {
    fn partial_cmp(&self, other: &CloseMethod) -> (r: Option<Ordering>) {
        Some(self.compare(*other).into_ordering())
    }
}

impl vstd::std_specs::cmp::PartialOrdSpecImpl for CloseMethod {
    open spec fn obeys_partial_cmp_spec() -> bool {
        true
    }

    open spec fn partial_cmp_spec(&self, other: &CloseMethod) -> Option<Ordering> {
        Some(self.order(*other).ordering())
    }
}

} // verus!
