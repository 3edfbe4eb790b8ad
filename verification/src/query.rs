//! What each query asks of the host: a chain query, one stored entry, or the
//! keys of one stored map; and how the keys of a map are listed.

use vstd::prelude::*;
use crate::chain::CwICAQuery;
use crate::msg::QueryMsg;
use crate::state::{Slot, StoreMap};

verus! {

/// The order in which the keys of a stored map are listed.
#[derive(Clone, Copy, Debug, PartialEq, Eq)]
pub enum KeyOrder {
    Ascending,
    Descending,
}

/// What answering a query takes: an interchain-account address query, the
/// value of one stored entry, or the keys of one stored map in the given
/// order.
#[derive(Clone, Debug, PartialEq, Eq)]
pub enum QueryPlan {
    InterchainAccount(CwICAQuery),
    Load(Slot),
    Keys(StoreMap, KeyOrder),
}

/// The plan for `msg`, asked on behalf of the contract at `owner`.
pub open spec fn query_plan(msg: QueryMsg, owner: String) -> QueryPlan {
    match msg {
        QueryMsg::Account { conn_id, acc_id } => QueryPlan::InterchainAccount(
            CwICAQuery::AccountAddress { owner, connection_id: conn_id, account_id: acc_id },
        ),
        QueryMsg::IcaRegisterCallbackKeys {  } => QueryPlan::Keys(StoreMap::IcaRegisterCallbacks, KeyOrder::Ascending),
        QueryMsg::IcaRegisterCallback { callback } => QueryPlan::Load(Slot::IcaRegisterCallback(callback)),
        QueryMsg::IcaTxCallbackKeys {  } => QueryPlan::Keys(StoreMap::IcaTxCallbacks, KeyOrder::Ascending),
        QueryMsg::IcaTxCallback { callback } => QueryPlan::Load(Slot::IcaTxCallback(callback)),
        QueryMsg::IcaUndelegateCompletion { callback } => QueryPlan::Load(
            Slot::UndelegateCompletion(callback),
        ),
        QueryMsg::IcaCallback { tx_id } => QueryPlan::Load(Slot::IcaCallback(tx_id)),
        QueryMsg::TransferCallback { sequence } => QueryPlan::Load(Slot::TransferCallback(sequence)),
        QueryMsg::TransferCallbackKeys {  } => QueryPlan::Keys(StoreMap::TransferCallbacks, KeyOrder::Ascending),
        QueryMsg::TransferReceipt { sequence } => QueryPlan::Load(Slot::TransferReceipt(sequence)),
        QueryMsg::TransferReceiptKeys {  } => QueryPlan::Keys(StoreMap::TransferReceipts, KeyOrder::Ascending),
    }
}

/// Plans the answer to `msg` for the contract at `contract_address`.
pub fn query(msg: QueryMsg, contract_address: String) -> (p: QueryPlan)
    ensures
        p == query_plan(msg, contract_address),
{
    match msg {
        QueryMsg::Account { conn_id, acc_id } => QueryPlan::InterchainAccount(
            CwICAQuery::AccountAddress {
                owner: contract_address,
                connection_id: conn_id,
                account_id: acc_id,
            },
        ),
        QueryMsg::IcaRegisterCallbackKeys {  } => QueryPlan::Keys(StoreMap::IcaRegisterCallbacks, KeyOrder::Ascending),
        QueryMsg::IcaRegisterCallback { callback } => QueryPlan::Load(Slot::IcaRegisterCallback(callback)),
        QueryMsg::IcaTxCallbackKeys {  } => QueryPlan::Keys(StoreMap::IcaTxCallbacks, KeyOrder::Ascending),
        QueryMsg::IcaTxCallback { callback } => QueryPlan::Load(Slot::IcaTxCallback(callback)),
        QueryMsg::IcaUndelegateCompletion { callback } => QueryPlan::Load(
            Slot::UndelegateCompletion(callback),
        ),
        QueryMsg::IcaCallback { tx_id } => QueryPlan::Load(Slot::IcaCallback(tx_id)),
        QueryMsg::TransferCallback { sequence } => QueryPlan::Load(Slot::TransferCallback(sequence)),
        QueryMsg::TransferCallbackKeys {  } => QueryPlan::Keys(StoreMap::TransferCallbacks, KeyOrder::Ascending),
        QueryMsg::TransferReceipt { sequence } => QueryPlan::Load(Slot::TransferReceipt(sequence)),
        QueryMsg::TransferReceiptKeys {  } => QueryPlan::Keys(StoreMap::TransferReceipts, KeyOrder::Ascending),
    }
}

/// Lists the keys of a map keyed by packet sequence, from the entries the
/// host read in ascending order: an entry that could not be read (`None`)
/// is listed as 0.
pub fn collect_sequence_keys(entries: Vec<Option<u64>>) -> (keys: Vec<u64>)
    ensures
        keys@.len() == entries@.len(),
        forall|i: int|
            0 <= i < entries@.len() ==> #[trigger] keys@[i] == match entries@[i] {
                Some(k) => k,
                None => 0u64,
            },
{
    let mut keys: Vec<u64> = Vec::new();
    for i in 0..entries.len()
        invariant
            keys@.len() == i,
            forall|j: int|
                0 <= j < i ==> #[trigger] keys@[j] == match entries@[j] {
                    Some(k) => k,
                    None => 0u64,
                },
    {
        match entries[i] {
            Some(k) => keys.push(k),
            None => keys.push(0),
        }
    }
    keys
}

/// Lists the keys of a map keyed by callback identifier, from the entries
/// the host read in ascending order: an entry that could not be read
/// (`None`) is listed as the empty string.
pub fn collect_callback_keys(entries: Vec<Option<String>>) -> (keys: Vec<String>)
    ensures
        keys@.len() == entries@.len(),
        forall|i: int|
            0 <= i < entries@.len() ==> (#[trigger] keys@[i])@ == match entries@[i] {
                Some(k) => k@,
                None => Seq::<char>::empty(),
            },
{
    let mut keys: Vec<String> = Vec::new();
    for i in 0..entries.len()
        invariant
            keys@.len() == i,
            forall|j: int|
                0 <= j < i ==> (#[trigger] keys@[j])@ == match entries@[j] {
                    Some(k) => k@,
                    None => Seq::<char>::empty(),
                },
    {
        match &entries[i] {
            Some(k) => keys.push(k.clone()),
            None => keys.push(String::new()),
        }
    }
    keys
}

} // verus!
