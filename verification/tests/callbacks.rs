#![allow(deprecated)]

use cosmos_sdk_proto::cosmos::base::abci::v1beta1::{MsgData as ProtoMsgData, TxMsgData as ProtoTxMsgData};
use cosmos_sdk_proto::cosmos::staking::v1beta1::MsgUndelegateResponse;
use cosmos_sdk_proto::traits::Message;
use cosmos_sdk_proto::{Any, Timestamp};
use icatest::chain::{
    IcaRegisterCallbackData, IcaResult, IcaTxCallbackData, ProtobufAny, SudoMsg, TransferCallbackData,
    TransferReceiptData,
};
use icatest::contract::ContractError;
use icatest::proto::MsgData;
use icatest::state::StoreWrite;
use icatest::sudo::{
    latest_completion, parse_callback_data, parse_old_callback_data, pending_lookup,
    record_undelegate_completion, sudo,
};

fn s(x: &str) -> String {
    x.to_string()
}

fn undelegate_response(seconds: Option<i64>) -> Vec<u8> {
    MsgUndelegateResponse {
        completion_time: seconds.map(|seconds| Timestamp { seconds, nanos: 0 }),
        amount: None,
    }
    .encode_to_vec()
}

fn tx_old(payloads: Vec<Vec<u8>>) -> Vec<u8> {
    ProtoTxMsgData {
        data: payloads
            .into_iter()
            .map(|data| ProtoMsgData { msg_type: s("/cosmos.staking.v1beta1.MsgUndelegate"), data })
            .collect(),
        msg_responses: vec![],
    }
    .encode_to_vec()
}

fn tx_new(payloads: Vec<Vec<u8>>) -> Vec<u8> {
    ProtoTxMsgData {
        data: vec![],
        msg_responses: payloads
            .into_iter()
            .map(|value| Any { type_url: s("/cosmos.staking.v1beta1.MsgUndelegateResponse"), value })
            .collect(),
    }
    .encode_to_vec()
}

fn tx_callback(callback: &[u8], result: IcaResult) -> IcaTxCallbackData {
    IcaTxCallbackData {
        connection_id: s("connection-0"),
        account_id: s("1"),
        sequence: 3,
        callback: callback.to_vec(),
        result,
    }
}

#[test]
fn register_callback_recorded_under_its_identifier() {
    let data = IcaRegisterCallbackData {
        connection_id: s("connection-0"),
        account_id: s("1"),
        callback: b"1".to_vec(),
        result: IcaResult::Success { data: vec![] },
    };
    let msg = SudoMsg::IcaRegisterCallback(data.clone());
    assert_eq!(pending_lookup(&msg), None);
    let o = sudo(msg, false).unwrap();
    assert_eq!(o.writes, vec![StoreWrite::IcaRegisterCallback { key: s("1"), data }]);
    assert!(o.response.messages.is_empty());
}

#[test]
fn register_callback_with_invalid_utf8_fails() {
    let data = IcaRegisterCallbackData {
        connection_id: s("connection-0"),
        account_id: s("1"),
        callback: vec![0xff, 0xfe],
        result: IcaResult::Timeout {},
    };
    assert_eq!(sudo(SudoMsg::IcaRegisterCallback(data), false), Err(ContractError::InvalidUtf8));
}

#[test]
fn tx_callback_with_invalid_utf8_fails() {
    let data = tx_callback(&[0xc3, 0x28], IcaResult::Timeout {});
    let msg = SudoMsg::IcaTxCallback(data);
    assert_eq!(pending_lookup(&msg), None);
    assert_eq!(sudo(msg, true), Err(ContractError::InvalidUtf8));
}

#[test]
fn tx_callback_without_awaited_undelegation_only_recorded() {
    let bytes = tx_old(vec![undelegate_response(Some(1700000000))]);
    let data = tx_callback(b"2", IcaResult::Success { data: bytes });
    let msg = SudoMsg::IcaTxCallback(data.clone());
    assert_eq!(pending_lookup(&msg), Some(s("2")));
    let o = sudo(msg, false).unwrap();
    assert_eq!(o.writes, vec![StoreWrite::IcaTxCallback { key: s("2"), data }]);
}

#[test]
fn tx_callback_records_old_format_completion() {
    let bytes = tx_old(vec![undelegate_response(Some(1700000000))]);
    let data = tx_callback(b"4", IcaResult::Success { data: bytes });
    let o = sudo(SudoMsg::IcaTxCallback(data.clone()), true).unwrap();
    assert_eq!(
        o.writes,
        vec![
            StoreWrite::IcaTxCallback { key: s("4"), data },
            StoreWrite::UndelegateCompletion { key: s("4"), timestamp: 1700000000 },
        ]
    );
}

#[test]
fn tx_callback_falls_back_to_new_format() {
    let bytes = tx_new(vec![undelegate_response(Some(1800000000))]);
    let data = tx_callback(b"4", IcaResult::Success { data: bytes });
    let o = sudo(SudoMsg::IcaTxCallback(data.clone()), true).unwrap();
    assert_eq!(
        o.writes,
        vec![
            StoreWrite::IcaTxCallback { key: s("4"), data },
            StoreWrite::UndelegateCompletion { key: s("4"), timestamp: 0 },
            StoreWrite::UndelegateCompletion { key: s("4"), timestamp: 1800000000 },
        ]
    );
}

#[test]
fn tx_callback_with_undecodable_result_only_recorded() {
    let data = tx_callback(b"4", IcaResult::Success { data: vec![0xff, 0xff, 0xff] });
    let o = sudo(SudoMsg::IcaTxCallback(data.clone()), true).unwrap();
    assert_eq!(o.writes, vec![StoreWrite::IcaTxCallback { key: s("4"), data }]);
}

#[test]
fn tx_callback_with_error_result_only_recorded() {
    let data = tx_callback(b"4", IcaResult::Error { error: s("out of gas") });
    let o = sudo(SudoMsg::IcaTxCallback(data.clone()), true).unwrap();
    assert_eq!(o.writes, vec![StoreWrite::IcaTxCallback { key: s("4"), data }]);
}

#[test]
fn transfer_callback_recorded_under_sequence() {
    let data = TransferCallbackData {
        port: s("transfer"),
        channel: s("channel-0"),
        sequence: 9,
        receiver: s("terra1xyz"),
        denom: s("ukuji"),
        amount: s("10"),
        memo: s(""),
        result: IcaResult::Success { data: vec![1] },
        callback: b"t1".to_vec(),
    };
    let o = sudo(SudoMsg::TransferCallback(data.clone()), false).unwrap();
    assert_eq!(o.writes, vec![StoreWrite::TransferCallback { sequence: 9, data }]);
}

#[test]
fn transfer_receipt_recorded_under_sequence() {
    let data = TransferReceiptData {
        port: s("transfer"),
        channel: s("channel-0"),
        sequence: 11,
        sender: s("terra1abc"),
        denom: s("uluna"),
        amount: s("5"),
        memo: s("hi"),
    };
    let o = sudo(SudoMsg::TransferReceipt(data.clone()), true).unwrap();
    assert_eq!(o.writes, vec![StoreWrite::TransferReceipt { sequence: 11, data }]);
}

#[test]
fn latest_completion_takes_last_reported_time() {
    assert_eq!(latest_completion(&vec![]), 0);
    assert_eq!(latest_completion(&vec![Some(Some(5)), None, Some(Some(7)), Some(None)]), 7);
    assert_eq!(latest_completion(&vec![Some(Some(5)), None, Some(None)]), 5);
    assert_eq!(latest_completion(&vec![None, Some(None)]), 0);
}

#[test]
fn parse_old_reads_each_entry() {
    let entries = vec![
        MsgData { msg_type: s("a"), data: undelegate_response(Some(10)) },
        MsgData { msg_type: s("b"), data: vec![0xff, 0xff] },
        MsgData { msg_type: s("c"), data: undelegate_response(Some(20)) },
        MsgData { msg_type: s("d"), data: undelegate_response(None) },
    ];
    let (w, ok) = parse_old_callback_data(s("k"), entries);
    assert_eq!(w, StoreWrite::UndelegateCompletion { key: s("k"), timestamp: 20 });
    assert!(ok);
}

#[test]
fn parse_new_without_completion_reports_zero() {
    let entries = vec![ProtobufAny { type_url: s("x"), value: undelegate_response(None) }];
    let (w, ok) = parse_callback_data(s("k"), entries);
    assert_eq!(w, StoreWrite::UndelegateCompletion { key: s("k"), timestamp: 0 });
    assert!(!ok);
}

#[test]
fn record_completion_prefers_old_format() {
    let tx = icatest::proto::TxMsgData {
        data: vec![MsgData { msg_type: s("a"), data: undelegate_response(Some(3)) }],
        msg_responses: vec![ProtobufAny { type_url: s("x"), value: undelegate_response(Some(4)) }],
    };
    assert_eq!(
        record_undelegate_completion(s("k"), tx),
        vec![StoreWrite::UndelegateCompletion { key: s("k"), timestamp: 3 }]
    );
}
