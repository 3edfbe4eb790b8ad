use icatest::chain::{
    AccountAddressResponse, Attribute, CosmosMsg, CwICAQuery, IbcMsg, IcaMsg, KujiraMsg, ProtobufAny,
    Response,
};
use icatest::contract::{
    account_query, execute, instantiate, migrate, ContractError, Outcome, COMPLETION_PENDING,
    SUBMIT_TIMEOUT,
};
use icatest::decimal::u128_to_decimal;
use icatest::msg::{CallbackId, Coin, ExecuteMsg, IbcTimeout, IbcTimeoutBlock, InstantiateMsg, MigrateMsg};
use icatest::state::StoreWrite;

fn s(x: &str) -> String {
    x.to_string()
}

fn coin(denom: &str, amount: u128) -> Coin {
    Coin { denom: s(denom), amount }
}

#[test]
fn decimal_renders_zero() {
    assert_eq!(u128_to_decimal(0), "0");
}

#[test]
fn decimal_renders_amounts() {
    assert_eq!(u128_to_decimal(7), "7");
    assert_eq!(u128_to_decimal(10), "10");
    assert_eq!(u128_to_decimal(1000000), "1000000");
    assert_eq!(u128_to_decimal(9876543210), "9876543210");
}

#[test]
fn decimal_renders_largest_amount() {
    assert_eq!(u128_to_decimal(u128::MAX), u128::MAX.to_string());
}

#[test]
fn migrate_answers_empty() {
    let r = migrate(MigrateMsg {});
    assert!(r.messages.is_empty());
    assert!(r.attributes.is_empty());
}

#[test]
fn instantiate_records_version() {
    let o = instantiate(InstantiateMsg {}, s("0.1.0"));
    assert_eq!(
        o.writes,
        vec![StoreWrite::ContractVersion { contract: s("icatest"), version: s("0.1.0") }]
    );
    assert!(o.response.messages.is_empty());
    assert!(o.response.attributes.is_empty());
}

#[test]
fn create_account_registers_with_callback_bytes() {
    let msg = ExecuteMsg::CreateAccount {
        conn_id: s("connection-0"),
        acc_id: s("1"),
        version: s(""),
        callback: CallbackId::Name(s("cb-é")),
    };
    assert_eq!(account_query(&msg, &s("kujira1contract")), None);
    let o = execute(msg, None);
    assert!(o.writes.is_empty());
    assert_eq!(
        o.response,
        Response {
            messages: vec![CosmosMsg::Custom(KujiraMsg::Ica(IcaMsg::Register {
                connection_id: s("connection-0"),
                account_id: s("1"),
                version: s(""),
                callback: "cb-é".as_bytes().to_vec(),
            }))],
            attributes: vec![],
        }
    );
}

#[test]
fn delegate_asks_for_the_account_address() {
    let msg = ExecuteMsg::SendDelegateTx {
        conn_id: s("connection-0"),
        acc_id: s("1"),
        validator: s("val"),
        amount: coin("uluna", 1000000),
        callback: CallbackId::Name(s("2")),
    };
    assert_eq!(
        account_query(&msg, &s("kujira1contract")),
        Some(CwICAQuery::AccountAddress {
            owner: s("kujira1contract"),
            connection_id: s("connection-0"),
            account_id: s("1"),
        })
    );
}

#[test]
fn delegate_submits_encoded_msg_delegate() {
    let msg = ExecuteMsg::SendDelegateTx {
        conn_id: s("connection-0"),
        acc_id: s("1"),
        validator: s("b"),
        amount: coin("c", 5),
        callback: CallbackId::Name(s("2")),
    };
    let o = execute(msg, Some(AccountAddressResponse { address: s("a") }));
    assert!(o.writes.is_empty());
    // MsgDelegate { delegator_address: "a", validator_address: "b", amount: Coin { "c", "5" } }
    let expected = vec![0x0a, 0x01, b'a', 0x12, 0x01, b'b', 0x1a, 0x06, 0x0a, 0x01, b'c', 0x12, 0x01, b'5'];
    assert_eq!(
        o.response,
        Response {
            messages: vec![CosmosMsg::Custom(KujiraMsg::Ica(IcaMsg::Submit {
                connection_id: s("connection-0"),
                account_id: s("1"),
                msgs: vec![ProtobufAny {
                    type_url: s("/cosmos.staking.v1beta1.MsgDelegate"),
                    value: expected,
                }],
                memo: s("Hello from Kujira"),
                timeout: 100000000000,
                callback: b"2".to_vec(),
            }))],
            attributes: vec![Attribute { key: s("Interchain Account Address"), value: s("a") }],
        }
    );
}

#[test]
fn delegate_encodes_multi_digit_amount() {
    let msg = ExecuteMsg::SendDelegateTx {
        conn_id: s("connection-0"),
        acc_id: s("1"),
        validator: s("b"),
        amount: coin("c", 1000000),
        callback: CallbackId::Name(s("2")),
    };
    let o = execute(msg, Some(AccountAddressResponse { address: s("a") }));
    match &o.response.messages[0] {
        CosmosMsg::Custom(KujiraMsg::Ica(IcaMsg::Submit { msgs, timeout, .. })) => {
            assert_eq!(*timeout, SUBMIT_TIMEOUT);
            let mut expected = vec![0x0a, 0x01, b'a', 0x12, 0x01, b'b', 0x1a, 0x0c, 0x0a, 0x01, b'c', 0x12, 0x07];
            expected.extend_from_slice(b"1000000");
            assert_eq!(msgs[0].value, expected);
        }
        other => panic!("unexpected message {:?}", other),
    }
}

#[test]
fn undelegate_awaits_completion_and_submits() {
    let msg = ExecuteMsg::SendUndelegateTx {
        conn_id: s("connection-0"),
        acc_id: s("2"),
        validator: s("b"),
        amount: coin("c", 5),
        callback: CallbackId::Name(s("4")),
    };
    let o = execute(msg, Some(AccountAddressResponse { address: s("a") }));
    assert_eq!(o.writes, vec![StoreWrite::UndelegateCompletion { key: s("4"), timestamp: -1 }]);
    assert_eq!(COMPLETION_PENDING, -1);
    let expected = vec![0x0a, 0x01, b'a', 0x12, 0x01, b'b', 0x1a, 0x06, 0x0a, 0x01, b'c', 0x12, 0x01, b'5'];
    assert_eq!(
        o.response,
        Response {
            messages: vec![CosmosMsg::Custom(KujiraMsg::Ica(IcaMsg::Submit {
                connection_id: s("connection-0"),
                account_id: s("2"),
                msgs: vec![ProtobufAny {
                    type_url: s("/cosmos.staking.v1beta1.MsgUndelegate"),
                    value: expected,
                }],
                memo: s("Hello from Kujira"),
                timeout: 100000000000,
                callback: b"4".to_vec(),
            }))],
            attributes: vec![Attribute { key: s("Interchain Account Address"), value: s("a") }],
        }
    );
}

fn timeout() -> IbcTimeout {
    IbcTimeout { block: Some(IbcTimeoutBlock { revision: 1, height: 100 }), timestamp: Some(42) }
}

#[test]
fn custom_ibc_transfer_goes_through_ica_module() {
    let msg = ExecuteMsg::CustomIbcTransfer {
        channel_id: s("channel-0"),
        to_address: s("terra1xyz"),
        amount: coin("ukuji", 10),
        timeout: timeout(),
        callback: CallbackId::Name(s("t1")),
    };
    let o: Outcome = execute(msg, None);
    assert!(o.writes.is_empty());
    assert_eq!(
        o.response.messages,
        vec![CosmosMsg::Custom(KujiraMsg::Ica(IcaMsg::Transfer {
            channel_id: s("channel-0"),
            to_address: s("terra1xyz"),
            amount: coin("ukuji", 10),
            timeout: timeout(),
            callback: b"t1".to_vec(),
        }))]
    );
    assert!(o.response.attributes.is_empty());
}

#[test]
fn ibc_transfer_is_a_plain_ibc_message() {
    let msg = ExecuteMsg::IbcTransfer {
        channel_id: s("channel-0"),
        to_address: s("terra1xyz"),
        amount: coin("ukuji", 10),
        timeout: timeout(),
    };
    let o = execute(msg, None);
    assert!(o.writes.is_empty());
    assert_eq!(
        o.response.messages,
        vec![CosmosMsg::Ibc(IbcMsg::Transfer {
            channel_id: s("channel-0"),
            to_address: s("terra1xyz"),
            amount: coin("ukuji", 10),
            timeout: timeout(),
        })]
    );
}

#[test]
fn contract_error_is_comparable() {
    assert_eq!(ContractError::InvalidUtf8, ContractError::InvalidUtf8);
}

#[test]
fn callback_keys_of_names_and_tx_ids() {
    assert_eq!(CallbackId::Name(s("reg-ü")).to_key(), s("reg-ü"));
    assert_eq!(CallbackId::TxId(0).to_key(), s("0"));
    assert_eq!(CallbackId::TxId(1).to_key(), s("1"));
    assert_eq!(CallbackId::TxId(18446744073709551615).to_key(), s("18446744073709551615"));
}

#[test]
fn create_account_with_tx_id_sends_its_digits() {
    let msg = ExecuteMsg::CreateAccount {
        conn_id: s("connection-0"),
        acc_id: s("1"),
        version: s(""),
        callback: CallbackId::TxId(1),
    };
    let o = execute(msg, None);
    assert!(o.writes.is_empty());
    assert_eq!(
        o.response.messages,
        vec![CosmosMsg::Custom(KujiraMsg::Ica(IcaMsg::Register {
            connection_id: s("connection-0"),
            account_id: s("1"),
            version: s(""),
            callback: b"1".to_vec(),
        }))]
    );
}

#[test]
fn undelegate_with_tx_id_awaits_under_its_digits() {
    let msg = ExecuteMsg::SendUndelegateTx {
        conn_id: s("connection-0"),
        acc_id: s("2"),
        validator: s("b"),
        amount: coin("c", 5),
        callback: CallbackId::TxId(40),
    };
    let o = execute(msg, Some(AccountAddressResponse { address: s("a") }));
    assert_eq!(o.writes, vec![StoreWrite::UndelegateCompletion { key: s("40"), timestamp: -1 }]);
    match &o.response.messages[0] {
        CosmosMsg::Custom(KujiraMsg::Ica(IcaMsg::Submit { callback, .. })) => assert_eq!(callback, &b"40".to_vec()),
        other => panic!("unexpected message {:?}", other),
    }
}
