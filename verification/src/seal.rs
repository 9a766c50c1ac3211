//! What all seals defined by a transaction output have in common.

use crate::explicit::ExplicitSeal;
use crate::method::CloseMethod;
use crate::outpoint::{OutPoint, Txid};
use vstd::prelude::*;

verus! {

/// Seal definition which names a transaction output, possibly without the
/// id of its transaction. Where the txid is absent, the caller supplies the
/// id of the transaction which the context determines (the witness
/// transaction closing some other seal) to the `_or` accessors.
pub trait TxoSeal {
    /// The method, txid and output number which the seal holds.
    spec fn explicit(&self) -> ExplicitSeal;

    /// Returns the method which must be used to close the seal.
    fn method(&self) -> (r: CloseMethod)
        ensures
            r == self.explicit().method,
    ;

    /// Returns the txid as the seal holds it.
    fn txid(&self) -> (r: Option<Txid>)
        ensures
            r == self.explicit().txid,
    ;

    /// Returns the number of the transaction output.
    fn vout(&self) -> (r: usize)
        ensures
            r == self.explicit().vout,
    ;

    /// Returns the outpoint of the seal, which exists only if the seal holds
    /// a txid.
    fn outpoint(&self) -> (r: Option<OutPoint>)
        ensures
            r == self.explicit().spec_outpoint(),
    ;

    /// Returns the txid which the seal holds, or `default_txid` if it holds
    /// none.
    fn txid_or(&self, default_txid: Txid) -> (r: Txid)
        ensures
            r == self.explicit().spec_txid_or(default_txid),
    ;

    /// Returns the outpoint made of the output number of the seal and of
    /// `txid_or(default_txid)`.
    fn outpoint_or(&self, default_txid: Txid) -> (r: OutPoint)
        ensures
            r == self.explicit().spec_outpoint_or(default_txid),
    ;
}

} // verus!
