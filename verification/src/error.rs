//! Failures of parsing, of outpoint resolution and of seal verification.

use crate::method::MethodParseError;
use vstd::prelude::*;

verus! {

/// The error type of `lnpbp_bech32`, of which nothing is known here but its
/// identity: it is carried from the decoder to the caller.
#[verifier::external_type_specification]
#[verifier::external_body]
pub struct ExBech32Error(lnpbp_bech32::Error);

/// The `Clone` of `lnpbp_bech32::Error`, which the `Clone` of `ParseError`
/// calls. Nothing is claimed of the copy.
pub assume_specification[ <lnpbp_bech32::Error as Clone>::clone ](
    err: &lnpbp_bech32::Error,
) -> lnpbp_bech32::Error
;

/// Errors happening during parsing string representation of different forms
/// of single-use-seals. Each names one malformed shape of the input.
#[derive(Clone, PartialEq, Eq, Debug)]
pub enum ParseError {
    /// single-use-seal must start with method name (e.g. 'tapret1st' etc)
    MethodRequired,
    /// full transaction id is required for the seal specification
    TxidRequired,
    /// wrong seal close method id
    WrongMethod(MethodParseError),
    /// unable to parse transaction id value; it must be 64-character
    /// hexadecimal string
    WrongTxid,
    /// unable to parse transaction vout value; it must be a decimal unsigned
    /// integer
    WrongVout,
    /// wrong structure of seal string representation
    WrongStructure,
    /// wrong Bech32 representation of the blinded TxOut seal
    Bech32(lnpbp_bech32::Error),
}

/// What a `ParseError` says, with the refused method name as its characters.
pub enum ParseErrorView {
    MethodRequired,
    TxidRequired,
    WrongMethod(Seq<char>),
    WrongTxid,
    WrongVout,
    WrongStructure,
    Bech32(lnpbp_bech32::Error),
}

impl View for ParseError {
    type V = ParseErrorView;

    open spec fn view(&self) -> ParseErrorView {
        match self {
            ParseError::MethodRequired => ParseErrorView::MethodRequired,
            ParseError::TxidRequired => ParseErrorView::TxidRequired,
            ParseError::WrongMethod(e) => ParseErrorView::WrongMethod(e.0@),
            ParseError::WrongTxid => ParseErrorView::WrongTxid,
            ParseError::WrongVout => ParseErrorView::WrongVout,
            ParseError::WrongStructure => ParseErrorView::WrongStructure,
            ParseError::Bech32(e) => ParseErrorView::Bech32(*e),
        }
    }
}

impl From<MethodParseError> for ParseError {
    fn from(err: MethodParseError) -> (r: ParseError) {
        ParseError::WrongMethod(err)
    }
}

impl vstd::std_specs::convert::FromSpecImpl<MethodParseError> for ParseError {
    open spec fn obeys_from_spec() -> bool {
        true
    }

    open spec fn from_spec(err: MethodParseError) -> ParseError {
        ParseError::WrongMethod(err)
    }
}

impl From<lnpbp_bech32::Error> for ParseError {
    fn from(err: lnpbp_bech32::Error) -> (r: ParseError) {
        ParseError::Bech32(err)
    }
}

impl vstd::std_specs::convert::FromSpecImpl<lnpbp_bech32::Error> for ParseError {
    open spec fn obeys_from_spec() -> bool {
        true
    }

    open spec fn from_spec(err: lnpbp_bech32::Error) -> ParseError {
        ParseError::Bech32(err)
    }
}

/// The seal names no transaction, so it gives no outpoint by itself: its
/// output lives in a transaction which only the context determines.
#[derive(Copy, Clone, PartialEq, Eq, PartialOrd, Ord, Hash, Debug, Structural)]
pub struct WitnessVoutError;

/// A disclosed seal is not the one which a concealed seal commits to.
#[derive(Copy, Clone, PartialEq, Eq, PartialOrd, Ord, Hash, Debug, Structural)]
pub struct VerifyError;

} // verus!
