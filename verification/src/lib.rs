//! Bitcoin single-use-seals defined by a transaction output and closed by
//! spending that output ("TxOut seals").
//!
//! A seal is bound to a transaction output and is closed exactly once, when
//! that output is spent by a transaction which holds a commitment placed as
//! the seal's [`CloseMethod`] asks. This crate holds the seal definitions:
//! the explicit form, which names its output in the open, and the blinded
//! pair of a revealed seal and its concealed commitment; with the rules for
//! outpoints of seals whose transaction is known from the context only, and
//! with the text and binary forms in which seals are exchanged.

pub mod blind;
pub mod error;
pub mod explicit;
pub mod method;
pub mod order;
pub mod outpoint;
pub mod seal;
pub mod text;
pub mod wire;

pub use blind::{ConcealedSeal, RevealedSeal};
pub use error::{ParseError, VerifyError, WitnessVoutError};
pub use explicit::ExplicitSeal;
pub use method::{CloseMethod, MethodParseError};
pub use outpoint::{OutPoint, Txid};
pub use seal::TxoSeal;
