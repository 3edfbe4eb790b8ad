//! The callbacks the chain delivers: each is recorded under its key, and the
//! result of an undelegation is decoded for its completion time.

use vstd::prelude::*;
use vstd::utf8::{decode_utf8, valid_utf8};
use crate::chain::{
    IcaRegisterCallbackData, IcaResult, IcaTxCallbackData, ProtobufAny, SudoMsg, TransferCallbackData,
    TransferReceiptData,
};
use crate::contract::{ContractError, Outcome, empty_response, is_empty_response};
use crate::proto::{
    decode_tx_msg_data, decode_undelegate_response, tx_msg_data_decoding, undelegate_response_decoding,
    MsgData, TxMsgData,
};
use crate::state::{StoreWrite, WriteView, writes_view};
use crate::text::decode_callback;

verus! {

/// The completion time that a sequence of decoded undelegation responses
/// reports: that of the last response that decoded and carries one, else 0.
pub open spec fn last_completion(decoded: Seq<Option<Option<i64>>>) -> i64
    decreases decoded.len(),
{
    if decoded.len() == 0 {
        0
    } else {
        match decoded.last() {
            Some(Some(t)) => t,
            _ => last_completion(decoded.drop_last()),
        }
    }
}

/// The completion time that a list of response entries (type and payload)
/// reports, each payload decoded as an undelegation response.
pub open spec fn completion_of(entries: Seq<(Seq<char>, Seq<u8>)>) -> i64 {
    last_completion(entries.map_values(|e: (Seq<char>, Seq<u8>)| undelegate_response_decoding(e.1)))
}

/// The completion time a decoded transaction result reports: that of the
/// pre-0.46 entries, or of the 0.46 entries where that is 0.
pub open spec fn reported_completion(tx: (Seq<(Seq<char>, Seq<u8>)>, Seq<(Seq<char>, Seq<u8>)>)) -> i64 {
    if completion_of(tx.0) != 0 {
        completion_of(tx.0)
    } else {
        completion_of(tx.1)
    }
}

/// The completion writes for `key` from a decoded transaction result: the
/// completion found in the pre-0.46 entries is recorded; where it is 0, the
/// one found in the 0.46 entries is recorded after it.
pub open spec fn completion_writes(
    key: Seq<char>,
    tx: (Seq<(Seq<char>, Seq<u8>)>, Seq<(Seq<char>, Seq<u8>)>),
) -> Seq<WriteView> {
    let old_t = completion_of(tx.0);
    if old_t != 0 {
        seq![WriteView::UndelegateCompletion { key, timestamp: old_t }]
    } else {
        seq![
            WriteView::UndelegateCompletion { key, timestamp: old_t },
            WriteView::UndelegateCompletion { key, timestamp: completion_of(tx.1) },
        ]
    }
}

/// The writes for a transaction callback under `key`: the callback itself;
/// then, where an undelegation is awaited under that key and the transaction
/// succeeded with a decodable result, its completion writes.
pub open spec fn tx_callback_writes(key: Seq<char>, d: IcaTxCallbackData, pending: bool) -> Seq<
    WriteView,
> {
    let recorded = seq![WriteView::IcaTxCallback { key, data: d }];
    if pending {
        match d.result {
            IcaResult::Success { data } => match tx_msg_data_decoding(data@) {
                Some(tx) => recorded + completion_writes(key, tx),
                None => recorded,
            },
            _ => recorded,
        }
    } else {
        recorded
    }
}

/// The completion time reported by decoded undelegation responses, in order:
/// that of the last one that decoded and carries a completion time, else 0.
pub fn latest_completion(decoded: &Vec<Option<Option<i64>>>) -> (t: i64)
    ensures
        t == last_completion(decoded@),
{
    let mut timestamp: i64 = 0;
    for i in 0..decoded.len()
        invariant
            timestamp == last_completion(decoded@.take(i as int)),
    {
        let ghost prefix = decoded@.take(i + 1);
        assert(prefix.drop_last() =~= decoded@.take(i as int));
        match decoded[i] {
            Some(Some(t)) => {
                timestamp = t;
            },
            _ => {},
        }
    }
    assert(decoded@.take(decoded@.len() as int) =~= decoded@);
    timestamp
}

/// Reads an undelegation's completion time from the pre-0.46 result entries
/// and records it under `callback`; tells whether it is non-zero.
pub fn parse_old_callback_data(callback: String, resp_arr: Vec<MsgData>) -> (r: (StoreWrite, bool))
    ensures
        r.0@ == (WriteView::UndelegateCompletion {
            key: callback@,
            timestamp: completion_of(resp_arr@.map_values(|m: MsgData| m@)),
        }),
        r.1 == (completion_of(resp_arr@.map_values(|m: MsgData| m@)) != 0),
{
    let mut decoded: Vec<Option<Option<i64>>> = Vec::new();
    for i in 0..resp_arr.len()
        invariant
            decoded@ =~= resp_arr@.take(i as int).map_values(
                |m: MsgData| undelegate_response_decoding(m.data@),
            ),
    {
        decoded.push(decode_undelegate_response(resp_arr[i].data.as_slice()));
    }
    assert(decoded@ =~= resp_arr@.map_values(|m: MsgData| m@).map_values(
        |e: (Seq<char>, Seq<u8>)| undelegate_response_decoding(e.1),
    ));
    let timestamp = latest_completion(&decoded);
    (StoreWrite::UndelegateCompletion { key: callback, timestamp }, timestamp != 0)
}

/// Reads an undelegation's completion time from the 0.46 result entries
/// (packed responses) and records it under `callback`; tells whether it is
/// non-zero.
pub fn parse_callback_data(callback: String, resp_arr: Vec<ProtobufAny>) -> (r: (StoreWrite, bool))
    ensures
        r.0@ == (WriteView::UndelegateCompletion {
            key: callback@,
            timestamp: completion_of(resp_arr@.map_values(|a: ProtobufAny| a@)),
        }),
        r.1 == (completion_of(resp_arr@.map_values(|a: ProtobufAny| a@)) != 0),
{
    let mut decoded: Vec<Option<Option<i64>>> = Vec::new();
    for i in 0..resp_arr.len()
        invariant
            decoded@ =~= resp_arr@.take(i as int).map_values(
                |a: ProtobufAny| undelegate_response_decoding(a.value@),
            ),
    {
        decoded.push(decode_undelegate_response(resp_arr[i].value.as_slice()));
    }
    assert(decoded@ =~= resp_arr@.map_values(|a: ProtobufAny| a@).map_values(
        |e: (Seq<char>, Seq<u8>)| undelegate_response_decoding(e.1),
    ));
    let timestamp = latest_completion(&decoded);
    (StoreWrite::UndelegateCompletion { key: callback, timestamp }, timestamp != 0)
}

/// The completion writes for `key` from a decoded transaction result: the
/// pre-0.46 entries are read first, and the 0.46 entries only where those
/// report no completion time.
pub fn record_undelegate_completion(key: String, tx: TxMsgData) -> (ws: Vec<StoreWrite>)
    ensures
        writes_view(ws@) == completion_writes(key@, tx@),
{
    let TxMsgData { data, msg_responses } = tx;
    let mut writes: Vec<StoreWrite> = Vec::new();
    let (recorded, success) = parse_old_callback_data(key.clone(), data);
    writes.push(recorded);
    if !success {
        let (recorded_new, _) = parse_callback_data(key, msg_responses);
        writes.push(recorded_new);
    }
    assert(writes_view(writes@) =~= completion_writes(key@, tx@));
    writes
}

/// Records an account-registration callback under the identifier its
/// callback bytes encode.
pub fn sudo_ica_register_callback(data: IcaRegisterCallbackData) -> (r: Result<Outcome, ContractError>)
    ensures
        r is Ok <==> valid_utf8(data.callback@),
        r matches Err(e) ==> e == ContractError::InvalidUtf8,
        r matches Ok(o) ==> {
            &&& writes_view(o.writes@) == seq![
                WriteView::IcaRegisterCallback { key: decode_utf8(data.callback@), data },
            ]
            &&& is_empty_response(o.response)
        },
{
    match decode_callback(&data.callback) {
        Some(key) => {
            let ghost d = data;
            let mut writes: Vec<StoreWrite> = Vec::new();
            writes.push(StoreWrite::IcaRegisterCallback { key, data });
            assert(writes_view(writes@) =~= seq![
                WriteView::IcaRegisterCallback { key: decode_utf8(d.callback@), data: d },
            ]);
            Ok(Outcome { writes, response: empty_response() })
        },
        None => Err(ContractError::InvalidUtf8),
    }
}

/// Records a transaction callback under the identifier its callback bytes
/// encode. Where an undelegation is awaited under that identifier
/// (`pending`, as the host found in storage) and the transaction succeeded,
/// its result is decoded and the undelegation's completion time recorded.
pub fn sudo_ica_tx_callback(data: IcaTxCallbackData, pending: bool) -> (r: Result<Outcome, ContractError>)
    ensures
        r is Ok <==> valid_utf8(data.callback@),
        r matches Err(e) ==> e == ContractError::InvalidUtf8,
        r matches Ok(o) ==> {
            &&& writes_view(o.writes@) == tx_callback_writes(decode_utf8(data.callback@), data, pending)
            &&& is_empty_response(o.response)
        },
{
    match decode_callback(&data.callback) {
        Some(key) => {
            let ghost d = data;
            let decoded: Option<TxMsgData> = if pending {
                match &data.result {
                    IcaResult::Success { data: bytes } => decode_tx_msg_data(bytes.as_slice()),
                    _ => None,
                }
            } else {
                None
            };
            let mut writes: Vec<StoreWrite> = Vec::new();
            writes.push(StoreWrite::IcaTxCallback { key: key.clone(), data });
            let ghost recorded = writes@;
            match decoded {
                Some(tx) => {
                    let mut more = record_undelegate_completion(key, tx);
                    writes.append(&mut more);
                    assert(writes_view(writes@) =~= writes_view(recorded) + completion_writes(
                        decode_utf8(d.callback@),
                        tx@,
                    ));
                },
                None => {},
            }
            assert(writes_view(writes@) =~= tx_callback_writes(decode_utf8(d.callback@), d, pending));
            Ok(Outcome { writes, response: empty_response() })
        },
        None => Err(ContractError::InvalidUtf8),
    }
}

/// Records a transfer callback under its packet sequence.
pub fn sudo_transfer_callback(data: TransferCallbackData) -> (o: Outcome)
    ensures
        writes_view(o.writes@) == seq![WriteView::TransferCallback { sequence: data.sequence, data }],
        is_empty_response(o.response),
{
    let ghost d = data;
    let mut writes: Vec<StoreWrite> = Vec::new();
    writes.push(StoreWrite::TransferCallback { sequence: data.sequence, data });
    assert(writes_view(writes@) =~= seq![WriteView::TransferCallback { sequence: d.sequence, data: d }]);
    Outcome { writes, response: empty_response() }
}

/// Records a transfer receipt under its packet sequence.
pub fn sudo_transfer_receipt(data: TransferReceiptData) -> (o: Outcome)
    ensures
        writes_view(o.writes@) == seq![WriteView::TransferReceipt { sequence: data.sequence, data }],
        is_empty_response(o.response),
{
    let ghost d = data;
    let mut writes: Vec<StoreWrite> = Vec::new();
    writes.push(StoreWrite::TransferReceipt { sequence: data.sequence, data });
    assert(writes_view(writes@) =~= seq![WriteView::TransferReceipt { sequence: d.sequence, data: d }]);
    Outcome { writes, response: empty_response() }
}

/// The key under which a callback's awaited undelegation is looked up: the
/// identifier of a transaction callback whose bytes are valid UTF-8.
pub open spec fn pending_key(msg: SudoMsg) -> Option<Seq<char>> {
    match msg {
        SudoMsg::IcaTxCallback(d) => if valid_utf8(d.callback@) {
            Some(decode_utf8(d.callback@))
        } else {
            None
        },
        _ => None,
    }
}

/// The undelegation-completion entry the host is to look up before handing
/// `msg` to `sudo`, if any.
pub fn pending_lookup(msg: &SudoMsg) -> (key: Option<String>)
    ensures
        key is Some <==> pending_key(*msg) is Some,
        key matches Some(k) ==> pending_key(*msg) == Some(k@),
{
    match msg {
        SudoMsg::IcaTxCallback(d) => decode_callback(&d.callback),
        _ => None,
    }
}

/// What handling `msg` does, given whether an undelegation is awaited under
/// its `pending_key`.
pub open spec fn sudo_post(msg: SudoMsg, pending: bool, r: Result<Outcome, ContractError>) -> bool {
    match msg {
        SudoMsg::IcaRegisterCallback(d) => {
            &&& r is Ok <==> valid_utf8(d.callback@)
            &&& r matches Err(e) ==> e == ContractError::InvalidUtf8
            &&& r matches Ok(o) ==> {
                &&& writes_view(o.writes@) == seq![
                    WriteView::IcaRegisterCallback { key: decode_utf8(d.callback@), data: d },
                ]
                &&& is_empty_response(o.response)
            }
        },
        SudoMsg::IcaTxCallback(d) => {
            &&& r is Ok <==> valid_utf8(d.callback@)
            &&& r matches Err(e) ==> e == ContractError::InvalidUtf8
            &&& r matches Ok(o) ==> {
                &&& writes_view(o.writes@) == tx_callback_writes(decode_utf8(d.callback@), d, pending)
                &&& is_empty_response(o.response)
            }
        },
        SudoMsg::TransferCallback(d) => {
            &&& r matches Ok(o)
            &&& writes_view(r->Ok_0.writes@) == seq![
                WriteView::TransferCallback { sequence: d.sequence, data: d },
            ]
            &&& is_empty_response(r->Ok_0.response)
        },
        SudoMsg::TransferReceipt(d) => {
            &&& r matches Ok(o)
            &&& writes_view(r->Ok_0.writes@) == seq![
                WriteView::TransferReceipt { sequence: d.sequence, data: d },
            ]
            &&& is_empty_response(r->Ok_0.response)
        },
    }
}

/// Handles a callback from the chain. `pending` tells whether storage holds
/// an undelegation completion under the message's `pending_key`; it matters
/// only for transaction callbacks.
pub fn sudo(msg: SudoMsg, pending: bool) -> (r: Result<Outcome, ContractError>)
    ensures
        sudo_post(msg, pending, r),
{
    match msg {
        SudoMsg::IcaRegisterCallback(data) => sudo_ica_register_callback(data),
        SudoMsg::IcaTxCallback(data) => sudo_ica_tx_callback(data, pending),
        SudoMsg::TransferCallback(data) => Ok(sudo_transfer_callback(data)),
        SudoMsg::TransferReceipt(data) => Ok(sudo_transfer_receipt(data)),
    }
}

} // verus!
