//! The chain-side vocabulary: the custom queries of the host chain, the
//! callbacks it delivers to the contract through `sudo`, and the messages the
//! contract sends to it.

use vstd::prelude::*;
use crate::msg::{Coin, IbcTimeout};

verus! {

/// A token denomination.
#[derive(Clone, Debug, PartialEq, Eq)]
pub struct Denom(pub String);

/// A fixed-point decimal with 18 fractional digits, held as its atomics
/// (the value times 10^18).
#[derive(Clone, Debug, PartialEq, Eq)]
pub struct Decimal {
    pub atomics: u128,
}

/// The host chain's custom queries.
#[derive(Clone, Debug, PartialEq, Eq)]
pub enum KujiraQuery {
    Bank(BankQuery),
    Oracle(OracleQuery),
    CwIca(CwICAQuery),
}

/// Queries of the bank module.
#[derive(Clone, Debug, PartialEq, Eq)]
pub enum BankQuery {
    /// The total supply of a denomination.
    Supply { denom: Denom },
}

/// Queries of the oracle module.
#[derive(Clone, Debug, PartialEq, Eq)]
pub enum OracleQuery {
    /// The exchange rate of a denomination.
    ExchangeRate { denom: String },
}

/// Queries of the interchain-accounts module.
#[derive(Clone, Debug, PartialEq, Eq)]
pub enum CwICAQuery {
    /// The address of the interchain account `account_id` that `owner`
    /// holds on connection `connection_id`.
    AccountAddress { owner: String, connection_id: String, account_id: String },
}

/// The answer to an exchange-rate query.
#[derive(Clone, Debug, PartialEq, Eq)]
pub struct ExchangeRateResponse {
    pub rate: Decimal,
}

/// The answer to a supply query.
#[derive(Clone, Debug, PartialEq, Eq)]
pub struct SupplyResponse {
    pub amount: Coin,
}

/// The answer to an interchain-account address query.
#[derive(Clone, Debug, PartialEq, Eq)]
pub struct AccountAddressResponse {
    pub address: String,
}

/// The callbacks the chain delivers to the contract.
#[derive(Clone, Debug, PartialEq, Eq)]
pub enum SudoMsg {
    IcaRegisterCallback(IcaRegisterCallbackData),
    IcaTxCallback(IcaTxCallbackData),
    TransferCallback(TransferCallbackData),
    TransferReceipt(TransferReceiptData),
}

/// The outcome of an interchain-account registration.
#[derive(Clone, Debug, PartialEq, Eq)]
pub struct IcaRegisterCallbackData {
    pub connection_id: String,
    pub account_id: String,
    pub callback: Vec<u8>,
    pub result: IcaResult,
}

/// The outcome of an interchain-account transaction.
#[derive(Clone, Debug, PartialEq, Eq)]
pub struct IcaTxCallbackData {
    pub connection_id: String,
    pub account_id: String,
    pub sequence: u64,
    pub callback: Vec<u8>,
    pub result: IcaResult,
}

/// How an interchain operation ended. A successful transaction carries the
/// protobuf-encoded `TxMsgData` of its execution.
#[derive(Clone, Debug, PartialEq, Eq)]
pub enum IcaResult {
    Success { data: Vec<u8> },
    Error { error: String },
    Timeout {},
}

/// The outcome of an IBC transfer sent through the interchain-accounts module.
#[derive(Clone, Debug, PartialEq, Eq)]
pub struct TransferCallbackData {
    pub port: String,
    pub channel: String,
    pub sequence: u64,
    pub receiver: String,
    pub denom: String,
    pub amount: String,
    pub memo: String,
    pub result: IcaResult,
    pub callback: Vec<u8>,
}

/// A record of tokens received by the contract over IBC.
#[derive(Clone, Debug, PartialEq, Eq)]
pub struct TransferReceiptData {
    pub port: String,
    pub channel: String,
    pub sequence: u64,
    pub sender: String,
    pub denom: String,
    pub amount: String,
    pub memo: String,
}

/// A protobuf message packed with its type URL, as the chain executes it on
/// the interchain account.
#[derive(Clone, Debug, PartialEq, Eq)]
pub struct ProtobufAny {
    pub type_url: String,
    pub value: Vec<u8>,
}

/// Requests to the interchain-accounts module.
#[derive(Clone, Debug, PartialEq, Eq)]
pub enum IcaMsg {
    /// Register an interchain account.
    Register { connection_id: String, account_id: String, version: String, callback: Vec<u8> },
    /// Execute `msgs` on the interchain account, timing out after `timeout`
    /// nanoseconds.
    Submit {
        connection_id: String,
        account_id: String,
        msgs: Vec<ProtobufAny>,
        memo: String,
        timeout: u64,
        callback: Vec<u8>,
    },
    /// Send tokens over IBC and report back under `callback`.
    Transfer {
        channel_id: String,
        to_address: String,
        amount: Coin,
        timeout: IbcTimeout,
        callback: Vec<u8>,
    },
}

/// The host chain's custom messages.
#[derive(Clone, Debug, PartialEq, Eq)]
pub enum KujiraMsg {
    Ica(IcaMsg),
}

/// The IBC messages of the base chain.
#[derive(Clone, Debug, PartialEq, Eq)]
pub enum IbcMsg {
    Transfer { channel_id: String, to_address: String, amount: Coin, timeout: IbcTimeout },
}

/// A message the contract hands to the chain for execution.
#[derive(Clone, Debug, PartialEq, Eq)]
pub enum CosmosMsg {
    Custom(KujiraMsg),
    Ibc(IbcMsg),
}

/// A key-value pair attached to a response as an event attribute.
#[derive(Clone, Debug, PartialEq, Eq)]
pub struct Attribute {
    pub key: String,
    pub value: String,
}

/// What an entry point hands back to the chain: messages to execute and
/// attributes to emit.
#[derive(Clone, Debug, PartialEq, Eq)]
pub struct Response {
    pub messages: Vec<CosmosMsg>,
    pub attributes: Vec<Attribute>,
}

} // verus!
