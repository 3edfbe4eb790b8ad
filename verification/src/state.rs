//! The contract's persistent state: the storage slots it reads and writes,
//! the writes an entry point asks for, and a mathematical model of the
//! stored maps against which the effect of those writes is stated.

use vstd::prelude::*;
use crate::chain::{IcaRegisterCallbackData, IcaTxCallbackData, TransferCallbackData, TransferReceiptData};
use crate::decimal::decimal;

verus! {

/// The keyed maps the contract stores.
#[derive(Clone, Copy, Debug, PartialEq, Eq)]
pub enum StoreMap {
    /// Account-registration callbacks, keyed by callback identifier.
    IcaRegisterCallbacks,
    /// Transaction callbacks, keyed by callback identifier.
    IcaTxCallbacks,
    /// Undelegation completion times (seconds), keyed by callback identifier.
    UndelegateCompletion,
    /// Transfer callbacks, keyed by packet sequence.
    TransferCallbacks,
    /// Transfer receipts, keyed by packet sequence.
    TransferReceipts,
}

/// One entry of one stored map, or the interchain-account callback recorded
/// under a transaction id.
#[derive(Clone, Debug, PartialEq, Eq)]
pub enum Slot {
    IcaRegisterCallback(String),
    IcaTxCallback(String),
    UndelegateCompletion(String),
    TransferCallback(u64),
    TransferReceipt(u64),
    /// The transaction callback keyed by the decimal digits of the id where
    /// there is one, else the account-registration callback under that key.
    IcaCallback(u64),
}

/// A write an entry point asks the host to make to storage.
#[derive(Clone, Debug, PartialEq, Eq)]
pub enum StoreWrite {
    /// Record the contract's name and version.
    ContractVersion { contract: String, version: String },
    IcaRegisterCallback { key: String, data: IcaRegisterCallbackData },
    IcaTxCallback { key: String, data: IcaTxCallbackData },
    UndelegateCompletion { key: String, timestamp: i64 },
    TransferCallback { sequence: u64, data: TransferCallbackData },
    TransferReceipt { sequence: u64, data: TransferReceiptData },
}

/// A storage write with its string keys taken as character sequences.
pub ghost enum WriteView {
    ContractVersion { contract: Seq<char>, version: Seq<char> },
    IcaRegisterCallback { key: Seq<char>, data: IcaRegisterCallbackData },
    IcaTxCallback { key: Seq<char>, data: IcaTxCallbackData },
    UndelegateCompletion { key: Seq<char>, timestamp: i64 },
    TransferCallback { sequence: u64, data: TransferCallbackData },
    TransferReceipt { sequence: u64, data: TransferReceiptData },
}

impl View for StoreWrite {
    type V = WriteView;

    open spec fn view(&self) -> WriteView {
        match self {
            StoreWrite::ContractVersion { contract, version } => WriteView::ContractVersion {
                contract: contract@,
                version: version@,
            },
            StoreWrite::IcaRegisterCallback { key, data } => WriteView::IcaRegisterCallback {
                key: key@,
                data: *data,
            },
            StoreWrite::IcaTxCallback { key, data } => WriteView::IcaTxCallback {
                key: key@,
                data: *data,
            },
            StoreWrite::UndelegateCompletion { key, timestamp } => WriteView::UndelegateCompletion {
                key: key@,
                timestamp: *timestamp,
            },
            StoreWrite::TransferCallback { sequence, data } => WriteView::TransferCallback {
                sequence: *sequence,
                data: *data,
            },
            StoreWrite::TransferReceipt { sequence, data } => WriteView::TransferReceipt {
                sequence: *sequence,
                data: *data,
            },
        }
    }
}

/// The views of a list of writes, in order.
pub open spec fn writes_view(ws: Seq<StoreWrite>) -> Seq<WriteView> {
    ws.map_values(|w: StoreWrite| w@)
}

/// The stored state: the recorded contract version and the five maps.
pub ghost struct StoreModel {
    pub version: Option<(Seq<char>, Seq<char>)>,
    pub register_callbacks: Map<Seq<char>, IcaRegisterCallbackData>,
    pub tx_callbacks: Map<Seq<char>, IcaTxCallbackData>,
    pub completions: Map<Seq<char>, i64>,
    pub transfer_callbacks: Map<u64, TransferCallbackData>,
    pub transfer_receipts: Map<u64, TransferReceiptData>,
}

/// The state after one write: the written entry is set, all else is kept.
pub open spec fn apply_write(s: StoreModel, w: WriteView) -> StoreModel {
    match w {
        WriteView::ContractVersion { contract, version } => StoreModel {
            version: Some((contract, version)),
            ..s
        },
        WriteView::IcaRegisterCallback { key, data } => StoreModel {
            register_callbacks: s.register_callbacks.insert(key, data),
            ..s
        },
        WriteView::IcaTxCallback { key, data } => StoreModel {
            tx_callbacks: s.tx_callbacks.insert(key, data),
            ..s
        },
        WriteView::UndelegateCompletion { key, timestamp } => StoreModel {
            completions: s.completions.insert(key, timestamp),
            ..s
        },
        WriteView::TransferCallback { sequence, data } => StoreModel {
            transfer_callbacks: s.transfer_callbacks.insert(sequence, data),
            ..s
        },
        WriteView::TransferReceipt { sequence, data } => StoreModel {
            transfer_receipts: s.transfer_receipts.insert(sequence, data),
            ..s
        },
    }
}

/// The state after a list of writes made in order.
pub open spec fn apply_writes(s: StoreModel, ws: Seq<WriteView>) -> StoreModel
    decreases ws.len(),
{
    if ws.len() == 0 {
        s
    } else {
        apply_writes(apply_write(s, ws[0]), ws.drop_first())
    }
}

/// A value held in one stored entry.
pub ghost enum StoredValue {
    RegisterCallback(IcaRegisterCallbackData),
    TxCallback(IcaTxCallbackData),
    Completion(i64),
    TransferCallback(TransferCallbackData),
    TransferReceipt(TransferReceiptData),
}

/// What the entry `slot` holds in `s`, if anything.
pub open spec fn read_slot(s: StoreModel, slot: Slot) -> Option<StoredValue> {
    match slot {
        Slot::IcaRegisterCallback(k) => if s.register_callbacks.contains_key(k@) {
            Some(StoredValue::RegisterCallback(s.register_callbacks[k@]))
        } else {
            None
        },
        Slot::IcaTxCallback(k) => if s.tx_callbacks.contains_key(k@) {
            Some(StoredValue::TxCallback(s.tx_callbacks[k@]))
        } else {
            None
        },
        Slot::UndelegateCompletion(k) => if s.completions.contains_key(k@) {
            Some(StoredValue::Completion(s.completions[k@]))
        } else {
            None
        },
        Slot::TransferCallback(q) => if s.transfer_callbacks.contains_key(q) {
            Some(StoredValue::TransferCallback(s.transfer_callbacks[q]))
        } else {
            None
        },
        Slot::TransferReceipt(q) => if s.transfer_receipts.contains_key(q) {
            Some(StoredValue::TransferReceipt(s.transfer_receipts[q]))
        } else {
            None
        },
        Slot::IcaCallback(n) => {
            let k = decimal(n as nat);
            if s.tx_callbacks.contains_key(k) {
                Some(StoredValue::TxCallback(s.tx_callbacks[k]))
            } else if s.register_callbacks.contains_key(k) {
                Some(StoredValue::RegisterCallback(s.register_callbacks[k]))
            } else {
                None
            }
        },
    }
}

/// Writes made one list after another have the effect of making the first
/// list's writes, then the second's.
pub proof fn lemma_apply_writes_concat(s: StoreModel, a: Seq<WriteView>, b: Seq<WriteView>)
    ensures
        apply_writes(s, a + b) == apply_writes(apply_writes(s, a), b),
    decreases a.len(),
{
    if a.len() == 0 {
        assert(a + b =~= b);
    } else {
        assert((a + b).drop_first() =~= a.drop_first() + b);
        lemma_apply_writes_concat(apply_write(s, a[0]), a.drop_first(), b);
    }
}

} // verus!
