//! What each message makes the contract send, record or read, stated field
//! by field against the message the user gave; and what a callback
//! identifier and a decimal amount stand for.

use vstd::prelude::*;
use vstd::utf8::encode_utf8;
use crate::chain::{AccountAddressResponse, CosmosMsg, CwICAQuery, IbcMsg, IcaMsg, KujiraMsg};
use crate::contract::{Outcome, account_query_of, execute_post};
use crate::msg::QueryMsg;
use crate::query::{KeyOrder, QueryPlan, query_plan};
use crate::state::{Slot, StoreMap};
use crate::decimal::decimal;
use crate::msg::{CallbackId, Coin, ExecuteMsg, IbcTimeout, callback_key};
use crate::proto::{delegate_encoding, undelegate_encoding};
use crate::state::{WriteView, writes_view};

verus! {

/// The number a string of decimal digits denotes, most significant digit
/// first.
pub open spec fn digits_value(s: Seq<char>) -> nat
    decreases s.len(),
{
    if s.len() == 0 {
        0
    } else {
        digits_value(s.drop_last()) * 10 + ((s.last() as nat) - 48) as nat
    }
}

/// The decimal rendering of `n` consists of decimal digits, has no leading
/// zero, and denotes `n` itself.
pub proof fn lemma_decimal_denotes(n: nat)
    ensures
        decimal(n).len() >= 1,
        forall|i: int| 0 <= i < decimal(n).len() ==> 48 <= (#[trigger] decimal(n)[i]) as int <= 57,
        (decimal(n)[0] as int == 48) == (n == 0),
        decimal(n).len() > 1 ==> decimal(n)[0] as int != 48,
        digits_value(decimal(n)) == n,
    decreases n,
{
    let d = decimal(n);
    if n >= 10 {
        lemma_decimal_denotes(n / 10);
        let p = decimal(n / 10);
        let c = ((n % 10) + 48) as char;
        assert(c as int == (n % 10) + 48);
        assert(d == p.push(c));
        assert(d.drop_last() =~= p);
        assert(d[0] == p[0]);
        assert forall|i: int| 0 <= i < d.len() implies 48 <= (#[trigger] d[i]) as int <= 57 by {
            if i < p.len() {
                assert(d[i] == p[i]);
            } else {
                assert(d[i] == c);
            }
        }
        assert(d.last() == c);
        assert(digits_value(d) == digits_value(p) * 10 + ((c as nat) - 48) as nat);
        assert(digits_value(d) == (n / 10) * 10 + n % 10);
        assert(n == (n / 10) * 10 + n % 10);
    } else {
        let c = (n + 48) as char;
        assert(c as int == n + 48);
        assert(d == seq![c]);
        assert(d.drop_last() =~= Seq::<char>::empty());
        assert(d.last() == c);
        assert(digits_value(d) == digits_value(d.drop_last()) * 10 + ((c as nat) - 48) as nat);
    }
}

/// A named callback identifier is its own key, and a transaction id is keyed
/// by the decimal digits of the id.
pub proof fn lemma_callback_key_is_given(s: String, n: u64)
    ensures
        callback_key(CallbackId::Name(s)) == s@,
        callback_key(CallbackId::TxId(n)) == decimal(n as nat),
        digits_value(callback_key(CallbackId::TxId(n))) == n,
{
    lemma_decimal_denotes(n as nat);
}

/// A staking message asks the chain for the interchain account the user
/// named: owned by the contract, on the message's own connection, with the
/// message's own account id. No other message asks for an account.
pub proof fn lemma_account_query_names_the_account(msg: ExecuteMsg, owner: String)
    ensures
        match msg {
            ExecuteMsg::SendDelegateTx { conn_id, acc_id, .. } => account_query_of(msg, owner) == Some(
                CwICAQuery::AccountAddress { owner, connection_id: conn_id, account_id: acc_id },
            ),
            ExecuteMsg::SendUndelegateTx { conn_id, acc_id, .. } => account_query_of(msg, owner) == Some(
                CwICAQuery::AccountAddress { owner, connection_id: conn_id, account_id: acc_id },
            ),
            _ => account_query_of(msg, owner) is None,
        },
{
}

/// Registering an account writes nothing and sends one registration message
/// for exactly the connection, account and version the user gave, carrying
/// the UTF-8 bytes of the callback key.
pub proof fn lemma_create_account_registers(
    conn_id: String,
    acc_id: String,
    version: String,
    callback: CallbackId,
    account: Option<AccountAddressResponse>,
    out: Outcome,
)
    requires
        execute_post(ExecuteMsg::CreateAccount { conn_id, acc_id, version, callback }, account, out),
    ensures
        out.writes@.len() == 0,
        out.response.attributes@.len() == 0,
        out.response.messages@.len() == 1,
        out.response.messages@[0] matches CosmosMsg::Custom(
            KujiraMsg::Ica(IcaMsg::Register { connection_id, account_id, version: v, callback: cb }),
        ) && connection_id@ == conn_id@ && account_id@ == acc_id@ && v@ == version@ && cb@
            == encode_utf8(callback_key(callback)),
{
}

/// A delegation writes nothing, and submits to the interchain account the
/// user named one packed `MsgDelegate` from the account's address to the
/// user's validator for the user's denomination and whole amount in
/// decimal, with the fixed memo and 100-second timeout and the UTF-8 bytes
/// of the callback key; its one attribute names the account's address.
pub proof fn lemma_delegate_submits(
    conn_id: String,
    acc_id: String,
    validator: String,
    amount: Coin,
    callback: CallbackId,
    account: Option<AccountAddressResponse>,
    out: Outcome,
)
    requires
        account is Some,
        execute_post(ExecuteMsg::SendDelegateTx { conn_id, acc_id, validator, amount, callback }, account, out),
    ensures
        out.writes@.len() == 0,
        out.response.attributes@.len() == 1,
        out.response.attributes@[0].key@ == "Interchain Account Address"@,
        out.response.attributes@[0].value@ == account->0.address@,
        out.response.messages@.len() == 1,
        out.response.messages@[0] matches CosmosMsg::Custom(
            KujiraMsg::Ica(IcaMsg::Submit { connection_id, account_id, msgs, memo, timeout, callback: cb }),
        ) && connection_id@ == conn_id@ && account_id@ == acc_id@ && msgs@.len() == 1
            && msgs@[0].type_url@ == "/cosmos.staking.v1beta1.MsgDelegate"@ && msgs@[0].value@
            == delegate_encoding(account->0.address@, validator@, amount.denom@, decimal(amount.amount as nat))
            && memo@ == "Hello from Kujira"@ && timeout == 100000000000u64 && cb@ == encode_utf8(
            callback_key(callback),
        ),
{
}

/// An undelegation records its callback key as awaiting a completion time
/// (-1), and submits to the interchain account the user named one packed
/// `MsgUndelegate` from the account's address to the user's validator for
/// the user's denomination and whole amount in decimal, with the fixed memo
/// and 100-second timeout and the UTF-8 bytes of the callback key; its one
/// attribute names the account's address.
pub proof fn lemma_undelegate_submits(
    conn_id: String,
    acc_id: String,
    validator: String,
    amount: Coin,
    callback: CallbackId,
    account: Option<AccountAddressResponse>,
    out: Outcome,
)
    requires
        account is Some,
        execute_post(ExecuteMsg::SendUndelegateTx { conn_id, acc_id, validator, amount, callback }, account, out),
    ensures
        writes_view(out.writes@) == seq![
            WriteView::UndelegateCompletion { key: callback_key(callback), timestamp: -1i64 },
        ],
        out.response.attributes@.len() == 1,
        out.response.attributes@[0].key@ == "Interchain Account Address"@,
        out.response.attributes@[0].value@ == account->0.address@,
        out.response.messages@.len() == 1,
        out.response.messages@[0] matches CosmosMsg::Custom(
            KujiraMsg::Ica(IcaMsg::Submit { connection_id, account_id, msgs, memo, timeout, callback: cb }),
        ) && connection_id@ == conn_id@ && account_id@ == acc_id@ && msgs@.len() == 1
            && msgs@[0].type_url@ == "/cosmos.staking.v1beta1.MsgUndelegate"@ && msgs@[0].value@
            == undelegate_encoding(account->0.address@, validator@, amount.denom@, decimal(amount.amount as nat))
            && memo@ == "Hello from Kujira"@ && timeout == 100000000000u64 && cb@ == encode_utf8(
            callback_key(callback),
        ),
{
}

/// A transfer through the interchain-accounts module writes nothing and
/// sends exactly the user's transfer, carrying the UTF-8 bytes of the
/// callback key.
pub proof fn lemma_custom_transfer_sends_it(
    channel_id: String,
    to_address: String,
    amount: Coin,
    timeout: IbcTimeout,
    callback: CallbackId,
    account: Option<AccountAddressResponse>,
    out: Outcome,
)
    requires
        execute_post(
            ExecuteMsg::CustomIbcTransfer { channel_id, to_address, amount, timeout, callback },
            account,
            out,
        ),
    ensures
        out.writes@.len() == 0,
        out.response.attributes@.len() == 0,
        out.response.messages@.len() == 1,
        out.response.messages@[0] matches CosmosMsg::Custom(
            KujiraMsg::Ica(IcaMsg::Transfer { channel_id: c, to_address: t, amount: a, timeout: o, callback: cb }),
        ) && c == channel_id && t == to_address && a == amount && o == timeout && cb@ == encode_utf8(
            callback_key(callback),
        ),
{
}

/// A plain IBC transfer writes nothing and sends exactly the user's
/// transfer: one IBC transfer message over the user's channel, to the
/// user's recipient, of the user's coin, with the user's timeout.
pub proof fn lemma_ibc_transfer_sends_it(
    channel_id: String,
    to_address: String,
    amount: Coin,
    timeout: IbcTimeout,
    account: Option<AccountAddressResponse>,
    out: Outcome,
)
    requires
        execute_post(ExecuteMsg::IbcTransfer { channel_id, to_address, amount, timeout }, account, out),
    ensures
        out.writes@.len() == 0,
        out.response.attributes@.len() == 0,
        out.response.messages@.len() == 1,
        out.response.messages@[0] matches CosmosMsg::Ibc(
            IbcMsg::Transfer { channel_id: c, to_address: t, amount: a, timeout: o },
        ) && c == channel_id && t == to_address && a == amount && o == timeout,
{
}

/// Instantiation records the version under the name "icatest", and nothing
/// else.
pub proof fn lemma_instantiate_names_the_contract(version: String, out: Outcome)
    requires
        writes_view(out.writes@) == seq![
            WriteView::ContractVersion { contract: crate::contract::contract_name(), version: version@ },
        ],
    ensures
        writes_view(out.writes@) == seq![WriteView::ContractVersion { contract: "icatest"@, version: version@ }],
{
}

/// Each query reads what it names: the account query asks for the account
/// the user named, owned by the contract; an entry query reads the entry of
/// its own map under the user's key (by transaction id, the interchain
/// callback under that id); a key query lists the keys of its own map in
/// ascending order.
pub proof fn lemma_query_reads_what_it_names(msg: QueryMsg, owner: String)
    ensures
        query_plan(msg, owner) == match msg {
            QueryMsg::Account { conn_id, acc_id } => QueryPlan::InterchainAccount(
                CwICAQuery::AccountAddress { owner, connection_id: conn_id, account_id: acc_id },
            ),
            QueryMsg::IcaRegisterCallbackKeys {  } => QueryPlan::Keys(
                StoreMap::IcaRegisterCallbacks,
                KeyOrder::Ascending,
            ),
            QueryMsg::IcaRegisterCallback { callback } => QueryPlan::Load(Slot::IcaRegisterCallback(callback)),
            QueryMsg::IcaTxCallbackKeys {  } => QueryPlan::Keys(StoreMap::IcaTxCallbacks, KeyOrder::Ascending),
            QueryMsg::IcaTxCallback { callback } => QueryPlan::Load(Slot::IcaTxCallback(callback)),
            QueryMsg::IcaUndelegateCompletion { callback } => QueryPlan::Load(
                Slot::UndelegateCompletion(callback),
            ),
            QueryMsg::IcaCallback { tx_id } => QueryPlan::Load(Slot::IcaCallback(tx_id)),
            QueryMsg::TransferCallback { sequence } => QueryPlan::Load(Slot::TransferCallback(sequence)),
            QueryMsg::TransferCallbackKeys {  } => QueryPlan::Keys(
                StoreMap::TransferCallbacks,
                KeyOrder::Ascending,
            ),
            QueryMsg::TransferReceipt { sequence } => QueryPlan::Load(Slot::TransferReceipt(sequence)),
            QueryMsg::TransferReceiptKeys {  } => QueryPlan::Keys(
                StoreMap::TransferReceipts,
                KeyOrder::Ascending,
            ),
        },
{
}

} // verus!
