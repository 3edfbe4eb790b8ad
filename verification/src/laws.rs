//! Properties that span the entry points: what storage holds after the
//! writes they ask for, and how the identifiers the contract sends out come
//! back in the chain's callbacks.

use vstd::prelude::*;
use vstd::utf8::{decode_utf8, encode_utf8, encode_utf8_decode_utf8, encode_utf8_valid_utf8, valid_utf8};
use crate::chain::{
    AccountAddressResponse, Attribute, CosmosMsg, IbcMsg, IcaMsg, IcaResult, IcaTxCallbackData, KujiraMsg,
    ProtobufAny, Response, SudoMsg,
};
use crate::msg::IbcTimeout;
use crate::contract::{COMPLETION_PENDING, ContractError, Outcome, contract_name, execute_post};
use crate::decimal::decimal;
use crate::msg::{CallbackId, ExecuteMsg, QueryMsg, callback_key};
use crate::proto::tx_msg_data_decoding;
use crate::query::{QueryPlan, query_plan};
use crate::state::{
    Slot, StoreModel, StoredValue, WriteView, apply_write, apply_writes, lemma_apply_writes_concat, read_slot,
    writes_view,
};
use crate::sudo::{completion_of, completion_writes, pending_key, reported_completion, sudo_post};

verus! {

/// Making a list of one write is making that write.
pub proof fn lemma_apply_one(s: StoreModel, w: WriteView)
    ensures
        apply_writes(s, seq![w]) == apply_write(s, w),
{
    let ws = seq![w];
    assert(ws.drop_first() =~= Seq::<WriteView>::empty());
    assert(ws[0] == w);
    assert(apply_writes(apply_write(s, w), Seq::<WriteView>::empty()) == apply_write(s, w));
}

/// Making a list of two writes is making the first, then the second.
pub proof fn lemma_apply_two(s: StoreModel, w1: WriteView, w2: WriteView)
    ensures
        apply_writes(s, seq![w1, w2]) == apply_write(apply_write(s, w1), w2),
{
    assert(seq![w1, w2].drop_first() =~= seq![w2]);
    lemma_apply_one(apply_write(s, w1), w2);
}

/// The completion writes for `key` leave everything but the completion
/// under `key` as it was, and store there the completion they report.
proof fn lemma_completion_writes_effect(
    s: StoreModel,
    key: Seq<char>,
    tx: (Seq<(Seq<char>, Seq<u8>)>, Seq<(Seq<char>, Seq<u8>)>),
)
    ensures
        apply_writes(s, completion_writes(key, tx)) == (StoreModel {
            completions: s.completions.insert(key, reported_completion(tx)),
            ..s
        }),
{
    let ws = completion_writes(key, tx);
    if completion_of(tx.0) != 0 {
        lemma_apply_one(s, ws[0]);
    } else {
        lemma_apply_two(s, ws[0], ws[1]);
        assert(s.completions.insert(key, completion_of(tx.0)).insert(key, completion_of(tx.1))
            =~= s.completions.insert(key, completion_of(tx.1)));
    }
}

/// Storage after the callback `msg` is handled successfully, given whether
/// an undelegation is awaited under its key: the callback is recorded under
/// its identifier or packet sequence; a transaction callback that answers an
/// awaited undelegation with a successful, decodable result also records the
/// completion time it reports.
pub open spec fn sudo_effect(s: StoreModel, msg: SudoMsg, pending: bool) -> StoreModel {
    match msg {
        SudoMsg::IcaRegisterCallback(d) => StoreModel {
            register_callbacks: s.register_callbacks.insert(decode_utf8(d.callback@), d),
            ..s
        },
        SudoMsg::IcaTxCallback(d) => {
            let key = decode_utf8(d.callback@);
            StoreModel {
                tx_callbacks: s.tx_callbacks.insert(key, d),
                completions: match success_result(d) {
                    Some(tx) if pending => s.completions.insert(key, reported_completion(tx)),
                    _ => s.completions,
                },
                ..s
            }
        },
        SudoMsg::TransferCallback(d) => StoreModel {
            transfer_callbacks: s.transfer_callbacks.insert(d.sequence, d),
            ..s
        },
        SudoMsg::TransferReceipt(d) => StoreModel {
            transfer_receipts: s.transfer_receipts.insert(d.sequence, d),
            ..s
        },
    }
}

/// The writes a successfully handled callback asks for have the effect
/// `sudo_effect` describes.
pub proof fn lemma_sudo_effect(s: StoreModel, msg: SudoMsg, pending: bool, r: Result<Outcome, ContractError>)
    requires
        sudo_post(msg, pending, r),
        r is Ok,
    ensures
        apply_writes(s, writes_view(r->Ok_0.writes@)) == sudo_effect(s, msg, pending),
{
    let ws = writes_view(r->Ok_0.writes@);
    match msg {
        SudoMsg::IcaTxCallback(d) => {
            let key = decode_utf8(d.callback@);
            let first = seq![WriteView::IcaTxCallback { key, data: d }];
            lemma_apply_one(s, first[0]);
            match success_result(d) {
                Some(tx) if pending => {
                    assert(ws == first + completion_writes(key, tx));
                    lemma_apply_writes_concat(s, first, completion_writes(key, tx));
                    lemma_completion_writes_effect(apply_writes(s, first), key, tx);
                },
                _ => {
                    assert(ws == first);
                },
            }
        },
        _ => {
            lemma_apply_one(s, ws[0]);
            assert(ws =~= seq![ws[0]]);
        },
    }
}

/// Storage after `msg` is executed: an undelegation leaves its callback key
/// awaiting a completion time; every other message leaves storage as it was.
pub open spec fn execute_effect(s: StoreModel, msg: ExecuteMsg) -> StoreModel {
    match msg {
        ExecuteMsg::SendUndelegateTx { callback, .. } => StoreModel {
            completions: s.completions.insert(callback_key(callback), COMPLETION_PENDING),
            ..s
        },
        _ => s,
    }
}

/// The writes an execution asks for have the effect `execute_effect`
/// describes.
pub proof fn lemma_execute_effect(
    s: StoreModel,
    msg: ExecuteMsg,
    account: Option<AccountAddressResponse>,
    out: Outcome,
)
    requires
        execute_post(msg, account, out),
    ensures
        apply_writes(s, writes_view(out.writes@)) == execute_effect(s, msg),
{
    if msg is SendUndelegateTx {
        lemma_apply_one(s, writes_view(out.writes@)[0]);
    } else {
        assert(writes_view(out.writes@).len() == 0);
    }
}

/// The query that reads back the entry a callback is recorded in, on
/// storage `s` before the callback: by its own key, or, for an
/// interchain-account callback, by the transaction id whose decimal digits
/// are its key. An account-registration callback is read back by
/// transaction id only where no transaction callback is held under that key.
pub open spec fn reads_entry_of(s: StoreModel, q: QueryMsg, msg: SudoMsg) -> bool {
    match (q, msg) {
        (QueryMsg::IcaRegisterCallback { callback }, SudoMsg::IcaRegisterCallback(d)) => callback@
            == decode_utf8(d.callback@),
        (QueryMsg::IcaTxCallback { callback }, SudoMsg::IcaTxCallback(d)) => callback@ == decode_utf8(
            d.callback@,
        ),
        (QueryMsg::IcaCallback { tx_id }, SudoMsg::IcaTxCallback(d)) => decimal(tx_id as nat)
            == decode_utf8(d.callback@),
        (QueryMsg::IcaCallback { tx_id }, SudoMsg::IcaRegisterCallback(d)) => {
            &&& decimal(tx_id as nat) == decode_utf8(d.callback@)
            &&& !s.tx_callbacks.contains_key(decimal(tx_id as nat))
        },
        (QueryMsg::TransferCallback { sequence }, SudoMsg::TransferCallback(d)) => sequence == d.sequence,
        (QueryMsg::TransferReceipt { sequence }, SudoMsg::TransferReceipt(d)) => sequence == d.sequence,
        _ => false,
    }
}

/// The data a callback delivers, as stored.
pub open spec fn delivered_value(msg: SudoMsg) -> StoredValue {
    match msg {
        SudoMsg::IcaRegisterCallback(d) => StoredValue::RegisterCallback(d),
        SudoMsg::IcaTxCallback(d) => StoredValue::TxCallback(d),
        SudoMsg::TransferCallback(d) => StoredValue::TransferCallback(d),
        SudoMsg::TransferReceipt(d) => StoredValue::TransferReceipt(d),
    }
}

/// Whatever callback the chain delivers, once it is handled successfully
/// and its writes are made, the query for its key reads back exactly the
/// delivered data.
pub proof fn lemma_callback_read_back(
    s: StoreModel,
    msg: SudoMsg,
    pending: bool,
    r: Result<Outcome, ContractError>,
    q: QueryMsg,
    owner: String,
)
    requires
        sudo_post(msg, pending, r),
        r is Ok,
        reads_entry_of(s, q, msg),
    ensures
        query_plan(q, owner) matches QueryPlan::Load(slot) && read_slot(
            apply_writes(s, writes_view(r->Ok_0.writes@)),
            slot,
        ) == Some(delivered_value(msg)),
{
    lemma_sudo_effect(s, msg, pending, r);
}

/// The completion time recorded by a transaction callback: where an
/// undelegation is awaited under the callback's key and the transaction
/// succeeded with a decodable result, the key afterwards holds the
/// completion time of the pre-0.46 entries, or of the 0.46 entries where
/// that is 0; in every other case the recorded completion times are left
/// as they were.
pub proof fn lemma_completion_recorded(
    s: StoreModel,
    d: IcaTxCallbackData,
    pending: bool,
    r: Result<Outcome, ContractError>,
)
    requires
        sudo_post(SudoMsg::IcaTxCallback(d), pending, r),
        r is Ok,
    ensures
        ({
            let after = apply_writes(s, writes_view(r->Ok_0.writes@));
            let key = decode_utf8(d.callback@);
            match success_result(d) {
                Some(tx) if pending => {
                    &&& after.completions.contains_key(key)
                    &&& after.completions[key] == if completion_of(tx.0) != 0 {
                        completion_of(tx.0)
                    } else {
                        completion_of(tx.1)
                    }
                    &&& forall|k: Seq<char>| k != key ==> after.completions.contains_key(k)
                        == s.completions.contains_key(k) && after.completions[k] == s.completions[k]
                },
                _ => after.completions == s.completions,
            }
        }),
{
    lemma_sudo_effect(s, SudoMsg::IcaTxCallback(d), pending, r);
}

/// The decoded result of a successful transaction callback, if it decodes.
pub open spec fn success_result(d: IcaTxCallbackData) -> Option<
    (Seq<(Seq<char>, Seq<u8>)>, Seq<(Seq<char>, Seq<u8>)>),
> {
    match d.result {
        IcaResult::Success { data } => tx_msg_data_decoding(data@),
        _ => None,
    }
}

/// The callback bytes carried by the first message of a response, where it
/// is an interchain-account message.
pub open spec fn sent_callback(r: Response) -> Option<Seq<u8>> {
    if r.messages@.len() == 0 {
        None
    } else {
        match r.messages@[0] {
            CosmosMsg::Custom(KujiraMsg::Ica(IcaMsg::Register { callback, .. })) => Some(callback@),
            CosmosMsg::Custom(KujiraMsg::Ica(IcaMsg::Submit { callback, .. })) => Some(callback@),
            CosmosMsg::Custom(KujiraMsg::Ica(IcaMsg::Transfer { callback, .. })) => Some(callback@),
            _ => None,
        }
    }
}

/// The callback identifier a user gives with an execution message.
pub open spec fn given_callback_id(msg: ExecuteMsg) -> Option<CallbackId> {
    match msg {
        ExecuteMsg::CreateAccount { callback, .. } => Some(callback),
        ExecuteMsg::SendDelegateTx { callback, .. } => Some(callback),
        ExecuteMsg::SendUndelegateTx { callback, .. } => Some(callback),
        ExecuteMsg::CustomIbcTransfer { callback, .. } => Some(callback),
        ExecuteMsg::IbcTransfer { .. } => None,
    }
}

/// The key of the callback identifier a user gives with an execution message.
pub open spec fn given_callback(msg: ExecuteMsg) -> Option<Seq<char>> {
    match given_callback_id(msg) {
        Some(c) => Some(callback_key(c)),
        None => None,
    }
}

/// The callback bytes an interchain-account callback carries.
pub open spec fn ica_callback_bytes(msg: SudoMsg) -> Option<Seq<u8>> {
    match msg {
        SudoMsg::IcaRegisterCallback(d) => Some(d.callback@),
        SudoMsg::IcaTxCallback(d) => Some(d.callback@),
        _ => None,
    }
}

/// Every interchain-account message the contract sends carries the bytes of
/// the callback identifier the user gave, and a callback that comes back
/// with those bytes is recorded under that same identifier.
pub proof fn lemma_callback_identifier_round_trip(
    msg: ExecuteMsg,
    account: Option<AccountAddressResponse>,
    out: Outcome,
)
    requires
        execute_post(msg, account, out),
        given_callback(msg) is Some,
    ensures
        sent_callback(out.response) == Some(encode_utf8(given_callback(msg)->0)),
        valid_utf8(encode_utf8(given_callback(msg)->0)),
        decode_utf8(encode_utf8(given_callback(msg)->0)) == given_callback(msg)->0,
{
    encode_utf8_valid_utf8(given_callback(msg)->0);
    encode_utf8_decode_utf8(given_callback(msg)->0);
}

/// An operation sent with transaction id `tx_id` is answered by an
/// interchain-account callback that carries the bytes sent with it. That
/// callback is handled successfully, and the query by `tx_id` then reads
/// back exactly the delivered data (for an account-registration callback,
/// where no transaction callback is held under the same id).
pub proof fn lemma_tx_id_read_back(
    s: StoreModel,
    msg: ExecuteMsg,
    account: Option<AccountAddressResponse>,
    out: Outcome,
    tx_id: u64,
    cb: SudoMsg,
    pending: bool,
    r: Result<Outcome, ContractError>,
    owner: String,
)
    requires
        execute_post(msg, account, out),
        given_callback_id(msg) == Some(CallbackId::TxId(tx_id)),
        ica_callback_bytes(cb) is Some,
        ica_callback_bytes(cb) == sent_callback(out.response),
        cb is IcaRegisterCallback ==> !s.tx_callbacks.contains_key(decimal(tx_id as nat)),
        sudo_post(cb, pending, r),
    ensures
        r is Ok,
        query_plan(QueryMsg::IcaCallback { tx_id }, owner) == QueryPlan::Load(Slot::IcaCallback(tx_id)),
        read_slot(apply_writes(s, writes_view(r->Ok_0.writes@)), Slot::IcaCallback(tx_id)) == Some(
            delivered_value(cb),
        ),
{
    lemma_callback_identifier_round_trip(msg, account, out);
    lemma_callback_read_back(s, cb, pending, r, QueryMsg::IcaCallback { tx_id }, owner);
}

/// An undelegation leaves its callback identifier awaiting a completion
/// time, and the transaction callback that answers it (one that carries the
/// bytes sent with the undelegation) finds that entry: its pending key is the
/// identifier, which storage holds.
pub proof fn lemma_undelegation_awaited(
    s: StoreModel,
    msg: ExecuteMsg,
    account: Option<AccountAddressResponse>,
    out: Outcome,
    d: IcaTxCallbackData,
)
    requires
        msg is SendUndelegateTx,
        execute_post(msg, account, out),
        sent_callback(out.response) == Some(d.callback@),
    ensures
        ({
            let after = apply_writes(s, writes_view(out.writes@));
            let key = given_callback(msg)->0;
            &&& pending_key(SudoMsg::IcaTxCallback(d)) == Some(key)
            &&& after.completions.contains_key(key)
            &&& after.completions[key] == COMPLETION_PENDING
        }),
{
    lemma_callback_identifier_round_trip(msg, account, out);
    lemma_execute_effect(s, msg, account, out);
}

/// Executing any message other than an undelegation leaves storage as it was.
pub proof fn lemma_execute_writes_only_undelegations(
    s: StoreModel,
    msg: ExecuteMsg,
    account: Option<AccountAddressResponse>,
    out: Outcome,
)
    requires
        execute_post(msg, account, out),
        !(msg is SendUndelegateTx),
    ensures
        apply_writes(s, writes_view(out.writes@)) == s,
{
    lemma_execute_effect(s, msg, account, out);
}

/// Instantiation records the contract's name and version and leaves the
/// stored maps as they were.
pub proof fn lemma_instantiate_records_version(s: StoreModel, version: String, o: Outcome)
    requires
        writes_view(o.writes@) == seq![
            WriteView::ContractVersion { contract: contract_name(), version: version@ },
        ],
    ensures
        apply_writes(s, writes_view(o.writes@)) == (StoreModel {
            version: Some((contract_name(), version@)),
            ..s
        }),
{
    lemma_apply_one(s, writes_view(o.writes@)[0]);
}

/// An outgoing message with its strings and bytes taken as sequences.
pub ghost enum MsgView {
    Register { connection_id: Seq<char>, account_id: Seq<char>, version: Seq<char>, callback: Seq<u8> },
    Submit {
        connection_id: Seq<char>,
        account_id: Seq<char>,
        msgs: Seq<(Seq<char>, Seq<u8>)>,
        memo: Seq<char>,
        timeout: u64,
        callback: Seq<u8>,
    },
    IcaTransfer {
        channel_id: Seq<char>,
        to_address: Seq<char>,
        denom: Seq<char>,
        amount: u128,
        timeout: IbcTimeout,
        callback: Seq<u8>,
    },
    IbcTransfer {
        channel_id: Seq<char>,
        to_address: Seq<char>,
        denom: Seq<char>,
        amount: u128,
        timeout: IbcTimeout,
    },
}

/// The view of an outgoing message.
pub open spec fn msg_view(m: CosmosMsg) -> MsgView {
    match m {
        CosmosMsg::Custom(KujiraMsg::Ica(IcaMsg::Register { connection_id, account_id, version, callback })) => {
            MsgView::Register {
                connection_id: connection_id@,
                account_id: account_id@,
                version: version@,
                callback: callback@,
            }
        },
        CosmosMsg::Custom(
            KujiraMsg::Ica(IcaMsg::Submit { connection_id, account_id, msgs, memo, timeout, callback }),
        ) => MsgView::Submit {
            connection_id: connection_id@,
            account_id: account_id@,
            msgs: msgs@.map_values(|a: ProtobufAny| a@),
            memo: memo@,
            timeout,
            callback: callback@,
        },
        CosmosMsg::Custom(
            KujiraMsg::Ica(IcaMsg::Transfer { channel_id, to_address, amount, timeout, callback }),
        ) => MsgView::IcaTransfer {
            channel_id: channel_id@,
            to_address: to_address@,
            denom: amount.denom@,
            amount: amount.amount,
            timeout,
            callback: callback@,
        },
        CosmosMsg::Ibc(IbcMsg::Transfer { channel_id, to_address, amount, timeout }) => MsgView::IbcTransfer {
            channel_id: channel_id@,
            to_address: to_address@,
            denom: amount.denom@,
            amount: amount.amount,
            timeout,
        },
    }
}

/// The view of a response: its messages and its attributes (key, value).
pub open spec fn response_view(r: Response) -> (Seq<MsgView>, Seq<(Seq<char>, Seq<char>)>) {
    (
        r.messages@.map_values(|m: CosmosMsg| msg_view(m)),
        r.attributes@.map_values(|a: Attribute| (a.key@, a.value@)),
    )
}

/// Execution depends on nothing but its message and the account address the
/// chain reports: two executions of the same message with the same address
/// ask for the same writes and give the same response. Whoever sends the
/// message, with whatever funds, gets the same result.
pub proof fn lemma_execute_determined(
    msg: ExecuteMsg,
    account: Option<AccountAddressResponse>,
    o1: Outcome,
    o2: Outcome,
)
    requires
        execute_post(msg, account, o1),
        execute_post(msg, account, o2),
    ensures
        writes_view(o1.writes@) == writes_view(o2.writes@),
        response_view(o1.response) == response_view(o2.response),
{
    let (m1, a1) = response_view(o1.response);
    let (m2, a2) = response_view(o2.response);
    assert(writes_view(o1.writes@) =~= writes_view(o2.writes@));
    assert(o1.response.messages@.len() == o2.response.messages@.len());
    if o1.response.messages@.len() == 1 {
        let x = o1.response.messages@[0];
        let y = o2.response.messages@[0];
        match (x, y) {
            (
                CosmosMsg::Custom(KujiraMsg::Ica(IcaMsg::Submit { msgs: p, .. })),
                CosmosMsg::Custom(KujiraMsg::Ica(IcaMsg::Submit { msgs: q, .. })),
            ) => {
                assert(p@.map_values(|a: ProtobufAny| a@) =~= q@.map_values(|a: ProtobufAny| a@));
            },
            _ => {},
        }
        assert(msg_view(x) == msg_view(y));
    }
    assert(m1 =~= m2);
    assert(a1 =~= a2);
}

} // verus!
