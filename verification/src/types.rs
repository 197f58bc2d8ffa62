//! Plain data the wallet half works on: transaction ids, unspent outputs,
//! planned outputs, and the wallet's error taxonomy.

use vstd::prelude::*;

verus! {

/// A Bitcoin transaction id: 256 bits as four 64-bit limbs, `w0` holding the
/// first eight bytes of the id in big-endian order, `w3` the last. The limb
/// order is chosen so that comparing `(w0, w1, w2, w3)` lexicographically
/// compares the ids byte-wise, as deterministic input ordering does.
#[derive(Clone, Copy, Debug, PartialEq, Eq, Hash, Structural)]
pub struct TxId {
    pub w0: u64,
    pub w1: u64,
    pub w2: u64,
    pub w3: u64,
}

/// One wallet transaction as the store reports it: its id and, once it is
/// confirmed, its block height. Mempool transactions carry `None`.
#[derive(Clone, Copy, Debug)]
pub struct TxInfo {
    pub txid: TxId,
    pub height: Option<u32>,
}

/// An unspent output the wallet could spend: the funding transaction, the
/// output index within it, and the value in sats.
#[derive(Clone, Copy, Debug, PartialEq, Eq, Structural)]
pub struct Utxo {
    pub txid: TxId,
    pub vout: u32,
    pub value: u64,
}

/// A planned transaction output: value in sats and the locking script.
#[derive(Clone, Debug)]
pub struct TxOut {
    pub value: u64,
    pub script: Vec<u8>,
}

/// Errors of the wallet half. Store, transport and signer failures happen
/// outside the core and are reported into it; the build failures arise in
/// the core itself.
#[derive(Clone, Copy, Debug, PartialEq, Eq, Structural)]
pub enum WalletError {
    /// The underlying store failed.
    DbError,
    /// The signer rejected the transaction.
    SignError,
    /// The admissible unspent outputs cannot cover the requested amount
    /// plus fees.
    InsufficientFunds,
    /// A peg-out build pinned specific inputs; withdrawals must not.
    RequiredUtxosNotEmpty,
    /// A fee computation left the representable range.
    FeeOverflow,
}

} // verus!
