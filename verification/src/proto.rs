//! Protobuf encoding of the staking messages the contract submits, and
//! decoding of the transaction results the chain reports back, through the
//! Cosmos SDK protobuf definitions of `cosmos_sdk_proto`.

use vstd::prelude::*;
use crate::chain::ProtobufAny;
use cosmos_sdk_proto::cosmos::base::abci::v1beta1::TxMsgData as ProtoTxMsgData;
use cosmos_sdk_proto::cosmos::base::v1beta1::Coin as ProtoCoin;
use cosmos_sdk_proto::cosmos::staking::v1beta1::{MsgDelegate, MsgUndelegate, MsgUndelegateResponse};
use cosmos_sdk_proto::traits::Message;

verus! {

/// The protobuf encoding of a `cosmos.staking.v1beta1.MsgDelegate` with the
/// given delegator, validator, and coin (denomination and decimal amount).
pub uninterp spec fn delegate_encoding(
    delegator: Seq<char>,
    validator: Seq<char>,
    denom: Seq<char>,
    amount: Seq<char>,
) -> Seq<u8>;

/// The protobuf encoding of a `cosmos.staking.v1beta1.MsgUndelegate` with the
/// given delegator, validator, and coin (denomination and decimal amount).
pub uninterp spec fn undelegate_encoding(
    delegator: Seq<char>,
    validator: Seq<char>,
    denom: Seq<char>,
    amount: Seq<char>,
) -> Seq<u8>;

/// What decoding bytes as a `cosmos.base.abci.v1beta1.TxMsgData` gives:
/// `None` where the bytes are not such a message, else its `data` entries
/// (message type and payload) and its `msg_responses` (type URL and value).
pub uninterp spec fn tx_msg_data_decoding(bytes: Seq<u8>) -> Option<
    (Seq<(Seq<char>, Seq<u8>)>, Seq<(Seq<char>, Seq<u8>)>),
>;

/// What decoding bytes as a `cosmos.staking.v1beta1.MsgUndelegateResponse`
/// gives: `None` where the bytes are not such a message, else the seconds of
/// its completion time where it carries one.
pub uninterp spec fn undelegate_response_decoding(bytes: Seq<u8>) -> Option<Option<i64>>;

/// One entry of the pre-0.46 `data` field of a transaction result.
#[derive(Clone, Debug, PartialEq, Eq)]
pub struct MsgData {
    pub msg_type: String,
    pub data: Vec<u8>,
}

impl View for MsgData {
    type V = (Seq<char>, Seq<u8>);

    open spec fn view(&self) -> (Seq<char>, Seq<u8>) {
        (self.msg_type@, self.data@)
    }
}

impl View for ProtobufAny {
    type V = (Seq<char>, Seq<u8>);

    open spec fn view(&self) -> (Seq<char>, Seq<u8>) {
        (self.type_url@, self.value@)
    }
}

/// The result of executing a transaction's messages: the responses in the
/// format before Cosmos SDK 0.46 (`data`) and after it (`msg_responses`).
#[derive(Clone, Debug, PartialEq, Eq)]
pub struct TxMsgData {
    pub data: Vec<MsgData>,
    pub msg_responses: Vec<ProtobufAny>,
}

impl View for TxMsgData {
    type V = (Seq<(Seq<char>, Seq<u8>)>, Seq<(Seq<char>, Seq<u8>)>);

    open spec fn view(&self) -> (Seq<(Seq<char>, Seq<u8>)>, Seq<(Seq<char>, Seq<u8>)>) {
        (self.data@.map_values(|m: MsgData| m@), self.msg_responses@.map_values(|a: ProtobufAny| a@))
    }
}

/// Calls `prost::Message::encode_to_vec` on a `MsgDelegate` built from the
/// arguments; the result is named by `delegate_encoding`.
#[verifier::external_body]
pub(crate) fn encode_msg_delegate(
    delegator: &String,
    validator: &String,
    denom: &String,
    amount: &String,
) -> (bytes: Vec<u8>)
    ensures
        bytes@ == delegate_encoding(delegator@, validator@, denom@, amount@),
{
    let coin = ProtoCoin { denom: denom.clone(), amount: amount.clone() };
    MsgDelegate {
        delegator_address: delegator.clone(),
        validator_address: validator.clone(),
        amount: Some(coin),
    }.encode_to_vec()
}

/// Calls `prost::Message::encode_to_vec` on a `MsgUndelegate` built from the
/// arguments; the result is named by `undelegate_encoding`.
#[verifier::external_body]
pub(crate) fn encode_msg_undelegate(
    delegator: &String,
    validator: &String,
    denom: &String,
    amount: &String,
) -> (bytes: Vec<u8>)
    ensures
        bytes@ == undelegate_encoding(delegator@, validator@, denom@, amount@),
{
    let coin = ProtoCoin { denom: denom.clone(), amount: amount.clone() };
    MsgUndelegate {
        delegator_address: delegator.clone(),
        validator_address: validator.clone(),
        amount: Some(coin),
    }.encode_to_vec()
}

/// Calls `prost::Message::decode` for a `TxMsgData` and copies its two
/// repeated fields into library values; the result is named by
/// `tx_msg_data_decoding`.
#[verifier::external_body]
#[allow(deprecated)]
pub(crate) fn decode_tx_msg_data(bytes: &[u8]) -> (r: Option<TxMsgData>)
    ensures
        r is None <==> tx_msg_data_decoding(bytes@) is None,
        r matches Some(d) ==> tx_msg_data_decoding(bytes@) == Some(d@),
{
    match ProtoTxMsgData::decode(bytes) {
        Ok(d) => Some(TxMsgData {
            data: d.data.into_iter().map(|m| MsgData { msg_type: m.msg_type, data: m.data }).collect(),
            msg_responses: d.msg_responses.into_iter().map(
                |a| ProtobufAny { type_url: a.type_url, value: a.value },
            ).collect(),
        }),
        Err(_) => None,
    }
}

/// Calls `prost::Message::decode` for a `MsgUndelegateResponse` and keeps the
/// seconds of its completion time; the result is named by
/// `undelegate_response_decoding`.
#[verifier::external_body]
pub(crate) fn decode_undelegate_response(bytes: &[u8]) -> (r: Option<Option<i64>>)
    ensures
        r == undelegate_response_decoding(bytes@),
{
    match MsgUndelegateResponse::decode(bytes) {
        Ok(d) => Some(d.completion_time.map(|t| t.seconds)),
        Err(_) => None,
    }
}

} // verus!
