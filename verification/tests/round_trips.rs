#![allow(deprecated)]

use std::collections::BTreeMap;

use cosmos_sdk_proto::cosmos::base::abci::v1beta1::{MsgData as ProtoMsgData, TxMsgData as ProtoTxMsgData};
use cosmos_sdk_proto::cosmos::staking::v1beta1::MsgUndelegateResponse;
use cosmos_sdk_proto::traits::Message;
use cosmos_sdk_proto::Timestamp;
use icatest::chain::{
    AccountAddressResponse, CosmosMsg, IcaMsg, IcaRegisterCallbackData, IcaResult, IcaTxCallbackData,
    KujiraMsg, Response, SudoMsg, TransferCallbackData,
};
use icatest::contract::{execute, instantiate};
use icatest::msg::{CallbackId, Coin, ExecuteMsg, InstantiateMsg, QueryMsg};
use icatest::query::{query, QueryPlan};
use icatest::state::{Slot, StoreWrite};
use icatest::sudo::{pending_lookup, sudo};

/// A plain in-memory store that makes the writes the entry points ask for.
#[derive(Default)]
struct Store {
    version: Option<(String, String)>,
    register: BTreeMap<String, IcaRegisterCallbackData>,
    tx: BTreeMap<String, IcaTxCallbackData>,
    completions: BTreeMap<String, i64>,
    transfers: BTreeMap<u64, TransferCallbackData>,
}

impl Store {
    fn apply(&mut self, writes: Vec<StoreWrite>) {
        for w in writes {
            match w {
                StoreWrite::ContractVersion { contract, version } => self.version = Some((contract, version)),
                StoreWrite::IcaRegisterCallback { key, data } => {
                    self.register.insert(key, data);
                }
                StoreWrite::IcaTxCallback { key, data } => {
                    self.tx.insert(key, data);
                }
                StoreWrite::UndelegateCompletion { key, timestamp } => {
                    self.completions.insert(key, timestamp);
                }
                StoreWrite::TransferCallback { sequence, data } => {
                    self.transfers.insert(sequence, data);
                }
                StoreWrite::TransferReceipt { .. } => {}
            }
        }
    }

    /// What `Slot::IcaCallback(tx_id)` reads: the transaction callback under
    /// the id's key where there is one, else the registration callback.
    fn ica_callback(&self, tx_id: u64) -> Option<SudoMsg> {
        let key = CallbackId::TxId(tx_id).to_key();
        match self.tx.get(&key) {
            Some(d) => Some(SudoMsg::IcaTxCallback(d.clone())),
            None => self.register.get(&key).map(|d| SudoMsg::IcaRegisterCallback(d.clone())),
        }
    }

    fn handle(&mut self, msg: SudoMsg) {
        let pending = pending_lookup(&msg).map(|k| self.completions.contains_key(&k)).unwrap_or(false);
        let out = sudo(msg, pending).unwrap();
        self.apply(out.writes);
    }
}

fn s(x: &str) -> String {
    x.to_string()
}

fn sent_callback(r: &Response) -> Vec<u8> {
    match &r.messages[0] {
        CosmosMsg::Custom(KujiraMsg::Ica(IcaMsg::Register { callback, .. }))
        | CosmosMsg::Custom(KujiraMsg::Ica(IcaMsg::Submit { callback, .. }))
        | CosmosMsg::Custom(KujiraMsg::Ica(IcaMsg::Transfer { callback, .. })) => callback.clone(),
        other => panic!("not an interchain-account message: {:?}", other),
    }
}

#[test]
fn instantiate_then_version_is_recorded() {
    let mut store = Store::default();
    store.apply(instantiate(InstantiateMsg {}, s("1.2.3")).writes);
    assert_eq!(store.version, Some((s("icatest"), s("1.2.3"))));
    assert!(store.register.is_empty() && store.tx.is_empty() && store.completions.is_empty());
}

#[test]
fn registration_callback_is_read_back_under_given_identifier() {
    let mut store = Store::default();
    let out = execute(
        ExecuteMsg::CreateAccount { conn_id: s("connection-0"), acc_id: s("1"), version: s(""), callback: CallbackId::Name(s("reg-ü")) },
        None,
    );
    store.apply(out.writes);
    let data = IcaRegisterCallbackData {
        connection_id: s("connection-0"),
        account_id: s("1"),
        callback: sent_callback(&out.response),
        result: IcaResult::Success { data: vec![] },
    };
    store.handle(SudoMsg::IcaRegisterCallback(data.clone()));
    match query(QueryMsg::IcaRegisterCallback { callback: s("reg-ü") }, s("kujira1c")) {
        QueryPlan::Load(Slot::IcaRegisterCallback(k)) => assert_eq!(store.register.get(&k), Some(&data)),
        other => panic!("unexpected plan {:?}", other),
    }
}

#[test]
fn transfer_callback_is_read_back_under_sequence() {
    let mut store = Store::default();
    let data = TransferCallbackData {
        port: s("transfer"),
        channel: s("channel-0"),
        sequence: 12,
        receiver: s("r"),
        denom: s("d"),
        amount: s("1"),
        memo: s(""),
        result: IcaResult::Timeout {},
        callback: b"t".to_vec(),
    };
    store.handle(SudoMsg::TransferCallback(data.clone()));
    match query(QueryMsg::TransferCallback { sequence: 12 }, s("kujira1c")) {
        QueryPlan::Load(Slot::TransferCallback(q)) => assert_eq!(store.transfers.get(&q), Some(&data)),
        other => panic!("unexpected plan {:?}", other),
    }
}

#[test]
fn undelegation_completion_is_recorded_from_its_callback() {
    let mut store = Store::default();
    let out = execute(
        ExecuteMsg::SendUndelegateTx {
            conn_id: s("connection-0"),
            acc_id: s("2"),
            validator: s("val"),
            amount: Coin { denom: s("uluna"), amount: 1000000 },
            callback: CallbackId::Name(s("4")),
        },
        Some(AccountAddressResponse { address: s("terra1ica") }),
    );
    store.apply(out.writes);
    assert_eq!(store.completions.get("4"), Some(&-1));

    let completion = MsgUndelegateResponse {
        completion_time: Some(Timestamp { seconds: 1717000000, nanos: 0 }),
        amount: None,
    }
    .encode_to_vec();
    let result = ProtoTxMsgData {
        data: vec![ProtoMsgData { msg_type: s("/cosmos.staking.v1beta1.MsgUndelegate"), data: completion }],
        msg_responses: vec![],
    }
    .encode_to_vec();
    let data = IcaTxCallbackData {
        connection_id: s("connection-0"),
        account_id: s("2"),
        sequence: 1,
        callback: sent_callback(&out.response),
        result: IcaResult::Success { data: result },
    };
    store.handle(SudoMsg::IcaTxCallback(data.clone()));
    assert_eq!(store.completions.get("4"), Some(&1717000000));
    assert_eq!(store.tx.get("4"), Some(&data));
}

#[test]
fn delegation_leaves_storage_untouched() {
    let out = execute(
        ExecuteMsg::SendDelegateTx {
            conn_id: s("connection-0"),
            acc_id: s("1"),
            validator: s("val"),
            amount: Coin { denom: s("uluna"), amount: 1 },
            callback: CallbackId::Name(s("2")),
        },
        Some(AccountAddressResponse { address: s("terra1ica") }),
    );
    assert!(out.writes.is_empty());
}

#[test]
fn tx_callback_for_unawaited_identifier_keeps_completions() {
    let mut store = Store::default();
    store.completions.insert(s("other"), -1);
    let data = IcaTxCallbackData {
        connection_id: s("connection-0"),
        account_id: s("1"),
        sequence: 1,
        callback: b"2".to_vec(),
        result: IcaResult::Success { data: vec![] },
    };
    store.handle(SudoMsg::IcaTxCallback(data));
    assert_eq!(store.completions.len(), 1);
    assert_eq!(store.completions.get("other"), Some(&-1));
}

#[test]
fn execute_is_the_same_for_every_sender() {
    let msg = ExecuteMsg::SendDelegateTx {
        conn_id: s("connection-0"),
        acc_id: s("1"),
        validator: s("val"),
        amount: Coin { denom: s("uluna"), amount: 25 },
        callback: CallbackId::Name(s("2")),
    };
    let account = AccountAddressResponse { address: s("terra1ica") };
    let first = execute(msg.clone(), Some(account.clone()));
    let second = execute(msg, Some(account));
    assert_eq!(first, second);
}

#[test]
fn completions_exist_only_for_undelegated_identifiers() {
    let mut store = Store::default();
    let out = execute(
        ExecuteMsg::SendUndelegateTx {
            conn_id: s("connection-0"),
            acc_id: s("2"),
            validator: s("val"),
            amount: Coin { denom: s("uluna"), amount: 3 },
            callback: CallbackId::Name(s("u")),
        },
        Some(AccountAddressResponse { address: s("terra1ica") }),
    );
    store.apply(out.writes);
    let result = ProtoTxMsgData {
        data: vec![ProtoMsgData {
            msg_type: s("/cosmos.staking.v1beta1.MsgUndelegate"),
            data: MsgUndelegateResponse {
                completion_time: Some(Timestamp { seconds: 99, nanos: 0 }),
                amount: None,
            }
            .encode_to_vec(),
        }],
        msg_responses: vec![],
    }
    .encode_to_vec();
    for callback in [b"u".to_vec(), b"other".to_vec()] {
        store.handle(SudoMsg::IcaTxCallback(IcaTxCallbackData {
            connection_id: s("connection-0"),
            account_id: s("2"),
            sequence: 1,
            callback,
            result: IcaResult::Success { data: result.clone() },
        }));
    }
    assert_eq!(store.completions.keys().cloned().collect::<Vec<_>>(), vec![s("u")]);
    assert_eq!(store.completions.get("u"), Some(&99));
    for (k, v) in store.tx.iter() {
        assert_eq!(k.as_bytes(), v.callback.as_slice());
    }
}

#[test]
fn callbacks_are_read_back_by_tx_id() {
    let mut store = Store::default();
    let owner = s("kujira14hj2tavq8fpesdwxxcu44rty3hh90vhujrvcmstl4zr3txmfvw9sl4e867");

    // create_account with tx_id 1, then its registration callback arrives.
    let out = execute(
        ExecuteMsg::CreateAccount { conn_id: s("connection-0"), acc_id: s("1"), version: s(""), callback: CallbackId::TxId(1) },
        None,
    );
    store.apply(out.writes);
    let registered = IcaRegisterCallbackData {
        connection_id: s("connection-0"),
        account_id: s("1"),
        callback: sent_callback(&out.response),
        result: IcaResult::Success { data: vec![] },
    };
    store.handle(SudoMsg::IcaRegisterCallback(registered.clone()));
    assert_eq!(query(QueryMsg::IcaCallback { tx_id: 1 }, owner.clone()), QueryPlan::Load(Slot::IcaCallback(1)));
    assert_eq!(store.ica_callback(1), Some(SudoMsg::IcaRegisterCallback(registered.clone())));

    // send_delegate_tx with tx_id 2, then its transaction callback arrives.
    let out = execute(
        ExecuteMsg::SendDelegateTx {
            conn_id: s("connection-0"),
            acc_id: s("1"),
            validator: s("terravaloper1nea2gprul95vglryw9zxsm02hfm28s4p05ptg4"),
            amount: Coin { denom: s("uluna"), amount: 1000000 },
            callback: CallbackId::TxId(2),
        },
        Some(AccountAddressResponse { address: s("terra1e8t35pqen4f5exzznwet829r7vd82k3emsa8aq9es5kd2dyn726qurq7dq") }),
    );
    store.apply(out.writes);
    let delegated = IcaTxCallbackData {
        connection_id: s("connection-0"),
        account_id: s("1"),
        sequence: 1,
        callback: sent_callback(&out.response),
        result: IcaResult::Success { data: vec![] },
    };
    store.handle(SudoMsg::IcaTxCallback(delegated.clone()));
    assert_eq!(store.ica_callback(2), Some(SudoMsg::IcaTxCallback(delegated)));
    assert_eq!(store.ica_callback(1), Some(SudoMsg::IcaRegisterCallback(registered)));
    assert_eq!(store.ica_callback(3), None);
}

#[test]
fn tx_id_query_prefers_the_transaction_callback() {
    let mut store = Store::default();
    let registered = IcaRegisterCallbackData {
        connection_id: s("connection-0"),
        account_id: s("1"),
        callback: b"5".to_vec(),
        result: IcaResult::Success { data: vec![] },
    };
    let submitted = IcaTxCallbackData {
        connection_id: s("connection-0"),
        account_id: s("1"),
        sequence: 3,
        callback: b"5".to_vec(),
        result: IcaResult::Timeout {},
    };
    store.handle(SudoMsg::IcaRegisterCallback(registered));
    store.handle(SudoMsg::IcaTxCallback(submitted.clone()));
    assert_eq!(store.ica_callback(5), Some(SudoMsg::IcaTxCallback(submitted)));
}

#[test]
fn recorded_callback_survives_unrelated_calls() {
    let mut store = Store::default();
    let registered = IcaRegisterCallbackData {
        connection_id: s("connection-0"),
        account_id: s("1"),
        callback: b"a".to_vec(),
        result: IcaResult::Success { data: vec![] },
    };
    store.handle(SudoMsg::IcaRegisterCallback(registered.clone()));
    let out = execute(
        ExecuteMsg::SendUndelegateTx {
            conn_id: s("connection-0"),
            acc_id: s("1"),
            validator: s("val"),
            amount: Coin { denom: s("uluna"), amount: 7 },
            callback: CallbackId::Name(s("b")),
        },
        Some(AccountAddressResponse { address: s("terra1ica") }),
    );
    store.apply(out.writes);
    store.handle(SudoMsg::IcaTxCallback(IcaTxCallbackData {
        connection_id: s("connection-0"),
        account_id: s("1"),
        sequence: 2,
        callback: b"b".to_vec(),
        result: IcaResult::Error { error: s("out of gas") },
    }));
    store.handle(SudoMsg::IcaRegisterCallback(IcaRegisterCallbackData { callback: b"c".to_vec(), ..registered.clone() }));
    assert_eq!(store.register.get("a"), Some(&registered));
}
