//! The messages the contract accepts from users: instantiation, migration,
//! execution and queries, with the coin and timeout values they carry.

use vstd::prelude::*;
use crate::decimal::{decimal, u128_to_decimal};

verus! {

/// An amount of one denomination. The amount is an unsigned 128-bit integer,
/// as chain token amounts are.
#[derive(Clone, Debug, PartialEq, Eq)]
pub struct Coin {
    pub denom: String,
    pub amount: u128,
}

/// A block height on a counterparty chain: the revision number and the height
/// within that revision.
#[derive(Clone, Debug, PartialEq, Eq)]
pub struct IbcTimeoutBlock {
    pub revision: u64,
    pub height: u64,
}

/// When an IBC packet times out: at a counterparty block height, at a time
/// given in nanoseconds since the Unix epoch, or at whichever comes first.
#[derive(Clone, Debug, PartialEq, Eq)]
pub struct IbcTimeout {
    pub block: Option<IbcTimeoutBlock>,
    pub timestamp: Option<u64>,
}

/// How a user names the callback that reports back on an operation: by an
/// identifier of its choosing, or by a numeric transaction id.
#[derive(Clone, Debug, PartialEq, Eq)]
pub enum CallbackId {
    Name(String),
    TxId(u64),
}

/// The key a callback identifier stands for: a name is its own key, and a
/// transaction id is keyed by its decimal digits.
pub open spec fn callback_key(c: CallbackId) -> Seq<char> {
    match c {
        CallbackId::Name(s) => s@,
        CallbackId::TxId(n) => decimal(n as nat),
    }
}

impl CallbackId {
    /// The key this identifier stands for.
    pub fn to_key(&self) -> (k: String)
        ensures
            k@ == callback_key(*self),
    {
        match self {
            CallbackId::Name(s) => s.clone(),
            CallbackId::TxId(n) => u128_to_decimal(*n as u128),
        }
    }
}

/// The message that instantiates the contract. It carries nothing.
#[derive(Clone, Debug, PartialEq, Eq)]
pub struct InstantiateMsg {}

/// The message that migrates the contract. It carries nothing.
#[derive(Clone, Debug, PartialEq, Eq)]
pub struct MigrateMsg {}

/// The operations a user can ask the contract to perform.
#[derive(Clone, Debug, PartialEq, Eq)]
pub enum ExecuteMsg {
    /// Register an interchain account on a connection.
    CreateAccount { conn_id: String, acc_id: String, version: String, callback: CallbackId },
    /// Delegate tokens from an interchain account to a validator.
    SendDelegateTx {
        conn_id: String,
        acc_id: String,
        validator: String,
        amount: Coin,
        callback: CallbackId,
    },
    /// Undelegate tokens of an interchain account from a validator, and record
    /// that the undelegation's completion time is awaited.
    SendUndelegateTx {
        conn_id: String,
        acc_id: String,
        validator: String,
        amount: Coin,
        callback: CallbackId,
    },
    /// An IBC token transfer through the chain's interchain-accounts module,
    /// which reports back to the contract under `callback`.
    CustomIbcTransfer {
        channel_id: String,
        to_address: String,
        amount: Coin,
        timeout: IbcTimeout,
        callback: CallbackId,
    },
    /// A plain IBC token transfer.
    IbcTransfer { channel_id: String, to_address: String, amount: Coin, timeout: IbcTimeout },
}

/// The questions a user can ask the contract.
#[derive(Clone, Debug, PartialEq, Eq)]
pub enum QueryMsg {
    /// The address of the interchain account `acc_id` on connection `conn_id`.
    Account { conn_id: String, acc_id: String },
    /// The keys of all recorded account-registration callbacks.
    IcaRegisterCallbackKeys {},
    /// The account-registration callback recorded under `callback`.
    IcaRegisterCallback { callback: String },
    /// The keys of all recorded transaction callbacks.
    IcaTxCallbackKeys {},
    /// The transaction callback recorded under `callback`.
    IcaTxCallback { callback: String },
    /// The recorded undelegation completion time for `callback`.
    IcaUndelegateCompletion { callback: String },
    /// The callback recorded under transaction id `tx_id`: the transaction
    /// callback where there is one, else the account-registration callback.
    IcaCallback { tx_id: u64 },
    /// The transfer callback recorded for packet `sequence`.
    TransferCallback { sequence: u64 },
    /// The sequences of all recorded transfer callbacks.
    TransferCallbackKeys {},
    /// The transfer receipt recorded for packet `sequence`.
    TransferReceipt { sequence: u64 },
    /// The sequences of all recorded transfer receipts.
    TransferReceiptKeys {},
}

} // verus!
