//! The contract's entry points: what each message makes the contract send to
//! the chain, write to storage, and read back.
//!
//! Storage and chain queries are the host's: an entry point that needs a
//! stored value or a query answer takes it as an argument, and hands back
//! the writes it wants made, in the order they are to be made.

use vstd::prelude::*;
use vstd::string::StringExecFns;
use vstd::utf8::encode_utf8;
use crate::chain::{
    AccountAddressResponse, Attribute, CosmosMsg, CwICAQuery, IbcMsg, IcaMsg, KujiraMsg, ProtobufAny,
    Response,
};
use crate::decimal::{decimal, u128_to_decimal};
use crate::msg::{Coin, ExecuteMsg, IbcTimeout, InstantiateMsg, MigrateMsg, callback_key};
use crate::proto::{delegate_encoding, encode_msg_delegate, encode_msg_undelegate, undelegate_encoding};
use crate::state::{StoreWrite, WriteView, writes_view};
use crate::text::encode_callback;

verus! {

/// The name under which the contract records its version.
pub open spec fn contract_name() -> Seq<char> {
    "icatest"@
}

/// The memo of every transaction the contract submits to an interchain account.
pub open spec fn memo_text() -> Seq<char> {
    "Hello from Kujira"@
}

/// The type URL of a packed delegation message.
pub open spec fn delegate_type_url() -> Seq<char> {
    "/cosmos.staking.v1beta1.MsgDelegate"@
}

/// The type URL of a packed undelegation message.
pub open spec fn undelegate_type_url() -> Seq<char> {
    "/cosmos.staking.v1beta1.MsgUndelegate"@
}

/// The attribute key under which a staking transaction reports the
/// interchain account it used.
pub open spec fn account_attribute_key() -> Seq<char> {
    "Interchain Account Address"@
}

/// How long a submitted interchain transaction may take: 100 seconds, in
/// nanoseconds.
pub const SUBMIT_TIMEOUT: u64 = 100000000000;

/// The completion time recorded for an undelegation whose result has not
/// arrived yet.
pub const COMPLETION_PENDING: i64 = -1;

/// Errors of the contract's own logic.
#[derive(Clone, Debug, PartialEq, Eq)]
pub enum ContractError {
    /// A callback identifier delivered by the chain is not valid UTF-8.
    InvalidUtf8,
}

/// What an entry point asks of the host: writes to make, then a response.
#[derive(Clone, Debug, PartialEq, Eq)]
pub struct Outcome {
    pub writes: Vec<StoreWrite>,
    pub response: Response,
}

/// A response with no messages and no attributes.
pub open spec fn is_empty_response(r: Response) -> bool {
    r.messages@.len() == 0 && r.attributes@.len() == 0
}

pub(crate) fn empty_response() -> (r: Response)
    ensures
        is_empty_response(r),
{
    Response { messages: Vec::new(), attributes: Vec::new() }
}

/// Migration changes nothing and answers with an empty response.
pub fn migrate(msg: MigrateMsg) -> (r: Response)
    ensures
        is_empty_response(r),
{
    empty_response()
}

/// Instantiation records the contract's name and the given version, and
/// answers with an empty response.
pub fn instantiate(msg: InstantiateMsg, version: String) -> (o: Outcome)
    ensures
        writes_view(o.writes@) == seq![
            WriteView::ContractVersion { contract: contract_name(), version: version@ },
        ],
        is_empty_response(o.response),
{
    let mut writes: Vec<StoreWrite> = Vec::new();
    writes.push(StoreWrite::ContractVersion { contract: String::from_str("icatest"), version });
    assert(writes_view(writes@) =~= seq![
        WriteView::ContractVersion { contract: contract_name(), version: version@ },
    ]);
    Outcome { writes, response: empty_response() }
}

/// Whether executing `msg` needs the address of an interchain account.
pub open spec fn needs_account(msg: ExecuteMsg) -> bool {
    msg is SendDelegateTx || msg is SendUndelegateTx
}

/// The interchain-account address query that executing `msg` needs, asked
/// on behalf of the contract at `owner`.
pub open spec fn account_query_of(msg: ExecuteMsg, owner: String) -> Option<CwICAQuery> {
    match msg {
        ExecuteMsg::SendDelegateTx { conn_id, acc_id, .. } => Some(
            CwICAQuery::AccountAddress { owner, connection_id: conn_id, account_id: acc_id },
        ),
        ExecuteMsg::SendUndelegateTx { conn_id, acc_id, .. } => Some(
            CwICAQuery::AccountAddress { owner, connection_id: conn_id, account_id: acc_id },
        ),
        _ => None,
    }
}

/// The interchain-account address query that executing `msg` needs, if any.
pub fn account_query(msg: &ExecuteMsg, contract_address: &String) -> (q: Option<CwICAQuery>)
    ensures
        q == account_query_of(*msg, *contract_address),
        q is Some <==> needs_account(*msg),
{
    match msg {
        ExecuteMsg::SendDelegateTx { conn_id, acc_id, .. } => Some(
            CwICAQuery::AccountAddress {
                owner: contract_address.clone(),
                connection_id: conn_id.clone(),
                account_id: acc_id.clone(),
            },
        ),
        ExecuteMsg::SendUndelegateTx { conn_id, acc_id, .. } => Some(
            CwICAQuery::AccountAddress {
                owner: contract_address.clone(),
                connection_id: conn_id.clone(),
                account_id: acc_id.clone(),
            },
        ),
        _ => None,
    }
}

/// `m` registers interchain account `acc_id` on `conn_id` with `version`,
/// reporting back under the UTF-8 bytes of `callback`.
pub open spec fn is_register(
    m: CosmosMsg,
    conn_id: Seq<char>,
    acc_id: Seq<char>,
    version: Seq<char>,
    callback: Seq<char>,
) -> bool {
    match m {
        CosmosMsg::Custom(
            KujiraMsg::Ica(IcaMsg::Register { connection_id, account_id, version: v, callback: cb }),
        ) => {
            &&& connection_id@ == conn_id
            &&& account_id@ == acc_id
            &&& v@ == version
            &&& cb@ == encode_utf8(callback)
        },
        _ => false,
    }
}

/// `r` submits one packed message (`type_url`, `value`) to interchain account
/// `acc_id` on `conn_id`, with the fixed memo and timeout, reporting back
/// under the UTF-8 bytes of `callback`; and it names the account's `address`
/// in its one attribute.
pub open spec fn is_staking_submission(
    r: Response,
    conn_id: Seq<char>,
    acc_id: Seq<char>,
    type_url: Seq<char>,
    value: Seq<u8>,
    callback: Seq<char>,
    address: Seq<char>,
) -> bool {
    &&& r.messages@.len() == 1
    &&& r.attributes@.len() == 1
    &&& r.attributes@[0].key@ == account_attribute_key()
    &&& r.attributes@[0].value@ == address
    &&& match r.messages@[0] {
        CosmosMsg::Custom(
            KujiraMsg::Ica(
                IcaMsg::Submit { connection_id, account_id, msgs, memo, timeout, callback: cb },
            ),
        ) => {
            &&& connection_id@ == conn_id
            &&& account_id@ == acc_id
            &&& msgs@.len() == 1
            &&& msgs@[0].type_url@ == type_url
            &&& msgs@[0].value@ == value
            &&& memo@ == memo_text()
            &&& timeout == SUBMIT_TIMEOUT
            &&& cb@ == encode_utf8(callback)
        },
        _ => false,
    }
}

/// `m` sends `amount` to `to_address` over `channel_id` through the
/// interchain-accounts module, reporting back under the UTF-8 bytes of
/// `callback`.
pub open spec fn is_ica_transfer(
    m: CosmosMsg,
    channel_id: String,
    to_address: String,
    amount: Coin,
    timeout: IbcTimeout,
    callback: Seq<char>,
) -> bool {
    match m {
        CosmosMsg::Custom(
            KujiraMsg::Ica(
                IcaMsg::Transfer { channel_id: c, to_address: t, amount: a, timeout: o, callback: cb },
            ),
        ) => {
            &&& c == channel_id
            &&& t == to_address
            &&& a == amount
            &&& o == timeout
            &&& cb@ == encode_utf8(callback)
        },
        _ => false,
    }
}

/// What executing `msg` does, given the interchain account's address where
/// the message needs one.
pub open spec fn execute_post(
    msg: ExecuteMsg,
    account: Option<AccountAddressResponse>,
    out: Outcome,
) -> bool {
    match msg {
        ExecuteMsg::CreateAccount { conn_id, acc_id, version, callback } => {
            &&& out.writes@.len() == 0
            &&& out.response.attributes@.len() == 0
            &&& out.response.messages@.len() == 1
            &&& is_register(out.response.messages@[0], conn_id@, acc_id@, version@, callback_key(callback))
        },
        ExecuteMsg::SendDelegateTx { conn_id, acc_id, validator, amount, callback } => {
            let address = account->0.address@;
            &&& out.writes@.len() == 0
            &&& is_staking_submission(
                out.response,
                conn_id@,
                acc_id@,
                delegate_type_url(),
                delegate_encoding(address, validator@, amount.denom@, decimal(amount.amount as nat)),
                callback_key(callback),
                address,
            )
        },
        ExecuteMsg::SendUndelegateTx { conn_id, acc_id, validator, amount, callback } => {
            let address = account->0.address@;
            &&& writes_view(out.writes@) == seq![
                WriteView::UndelegateCompletion { key: callback_key(callback), timestamp: COMPLETION_PENDING },
            ]
            &&& is_staking_submission(
                out.response,
                conn_id@,
                acc_id@,
                undelegate_type_url(),
                undelegate_encoding(address, validator@, amount.denom@, decimal(amount.amount as nat)),
                callback_key(callback),
                address,
            )
        },
        ExecuteMsg::CustomIbcTransfer { channel_id, to_address, amount, timeout, callback } => {
            &&& out.writes@.len() == 0
            &&& out.response.attributes@.len() == 0
            &&& out.response.messages@.len() == 1
            &&& is_ica_transfer(out.response.messages@[0], channel_id, to_address, amount, timeout, callback_key(callback))
        },
        ExecuteMsg::IbcTransfer { channel_id, to_address, amount, timeout } => {
            &&& out.writes@.len() == 0
            &&& out.response.attributes@.len() == 0
            &&& out.response.messages@ == seq![
                CosmosMsg::Ibc(IbcMsg::Transfer { channel_id, to_address, amount, timeout }),
            ]
        },
    }
}

/// A response that submits one packed staking message to an interchain
/// account and names the account in an attribute.
pub fn staking_submission(
    conn_id: String,
    acc_id: String,
    type_url: String,
    value: Vec<u8>,
    callback: &String,
    address: String,
) -> (r: Response)
    ensures
        is_staking_submission(r, conn_id@, acc_id@, type_url@, value@, callback@, address@),
{
    let mut msgs: Vec<ProtobufAny> = Vec::new();
    msgs.push(ProtobufAny { type_url, value });
    let submit = IcaMsg::Submit {
        connection_id: conn_id,
        account_id: acc_id,
        msgs,
        memo: String::from_str("Hello from Kujira"),
        timeout: SUBMIT_TIMEOUT,
        callback: encode_callback(callback),
    };
    let mut messages: Vec<CosmosMsg> = Vec::new();
    messages.push(CosmosMsg::Custom(KujiraMsg::Ica(submit)));
    let mut attributes: Vec<Attribute> = Vec::new();
    attributes.push(Attribute { key: String::from_str("Interchain Account Address"), value: address });
    Response { messages, attributes }
}

/// Executes `msg`. A staking message needs the address of the interchain
/// account it acts through, which the caller has asked the chain for with
/// the query that `account_query` gives.
pub fn execute(msg: ExecuteMsg, account: Option<AccountAddressResponse>) -> (out: Outcome)
    requires
        needs_account(msg) ==> account is Some,
    ensures
        execute_post(msg, account, out),
{
    match msg {
        ExecuteMsg::CreateAccount { conn_id, acc_id, version, callback } => {
            let key = callback.to_key();
            let register = IcaMsg::Register {
                connection_id: conn_id,
                account_id: acc_id,
                version,
                callback: encode_callback(&key),
            };
            let mut messages: Vec<CosmosMsg> = Vec::new();
            messages.push(CosmosMsg::Custom(KujiraMsg::Ica(register)));
            Outcome { writes: Vec::new(), response: Response { messages, attributes: Vec::new() } }
        },
        ExecuteMsg::SendDelegateTx { conn_id, acc_id, validator, amount, callback } => {
            let address = account.unwrap().address;
            let key = callback.to_key();
            let amount_text = u128_to_decimal(amount.amount);
            let bytes = encode_msg_delegate(&address, &validator, &amount.denom, &amount_text);
            let type_url = String::from_str("/cosmos.staking.v1beta1.MsgDelegate");
            let response = staking_submission(conn_id, acc_id, type_url, bytes, &key, address);
            Outcome { writes: Vec::new(), response }
        },
        ExecuteMsg::SendUndelegateTx { conn_id, acc_id, validator, amount, callback } => {
            let address = account.unwrap().address;
            let key = callback.to_key();
            let amount_text = u128_to_decimal(amount.amount);
            let mut writes: Vec<StoreWrite> = Vec::new();
            writes.push(StoreWrite::UndelegateCompletion { key: key.clone(), timestamp: COMPLETION_PENDING });
            let bytes = encode_msg_undelegate(&address, &validator, &amount.denom, &amount_text);
            let type_url = String::from_str("/cosmos.staking.v1beta1.MsgUndelegate");
            let response = staking_submission(conn_id, acc_id, type_url, bytes, &key, address);
            assert(writes_view(writes@) =~= seq![
                WriteView::UndelegateCompletion { key: key@, timestamp: COMPLETION_PENDING },
            ]);
            Outcome { writes, response }
        },
        ExecuteMsg::CustomIbcTransfer { channel_id, to_address, amount, timeout, callback } => {
            let key = callback.to_key();
            let transfer = IcaMsg::Transfer {
                channel_id,
                to_address,
                amount,
                timeout,
                callback: encode_callback(&key),
            };
            let mut messages: Vec<CosmosMsg> = Vec::new();
            messages.push(CosmosMsg::Custom(KujiraMsg::Ica(transfer)));
            Outcome { writes: Vec::new(), response: Response { messages, attributes: Vec::new() } }
        },
        ExecuteMsg::IbcTransfer { channel_id, to_address, amount, timeout } => {
            let mut messages: Vec<CosmosMsg> = Vec::new();
            messages.push(CosmosMsg::Ibc(IbcMsg::Transfer { channel_id, to_address, amount, timeout }));
            assert(messages@ =~= seq![
                CosmosMsg::Ibc(IbcMsg::Transfer { channel_id, to_address, amount, timeout }),
            ]);
            Outcome { writes: Vec::new(), response: Response { messages, attributes: Vec::new() } }
        },
    }
}

} // verus!
