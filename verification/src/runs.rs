//! Properties of every state the contract's storage can reach: from empty
//! storage, through instantiation and any sequence of executions and
//! callbacks, where each callback is handled with the undelegation lookup
//! made in that very storage.

use vstd::prelude::*;
use vstd::utf8::{decode_utf8, decode_utf8_encode_utf8, encode_utf8, valid_utf8};
use crate::chain::{AccountAddressResponse, SudoMsg};
use crate::contract::{COMPLETION_PENDING, ContractError, Outcome, contract_name, execute_post, needs_account};
use crate::decimal::decimal;
use crate::laws::{
    delivered_value, execute_effect, lemma_apply_one, lemma_callback_read_back, lemma_execute_effect,
    lemma_sudo_effect, reads_entry_of, success_result, sudo_effect,
};
use crate::msg::{ExecuteMsg, QueryMsg, callback_key};
use crate::query::{QueryPlan, query_plan};
use crate::state::{Slot, StoreModel, WriteView, apply_writes, read_slot, writes_view};
use crate::sudo::{pending_key, sudo_post};

verus! {

/// Storage before the contract is instantiated: nothing recorded.
pub open spec fn empty_store() -> StoreModel {
    StoreModel {
        version: None,
        register_callbacks: Map::empty(),
        tx_callbacks: Map::empty(),
        completions: Map::empty(),
        transfer_callbacks: Map::empty(),
        transfer_receipts: Map::empty(),
    }
}

/// Whether storage holds an undelegation completion under the key that a
/// callback is looked up by: what the host tells `sudo`.
pub open spec fn awaited(s: StoreModel, msg: SudoMsg) -> bool {
    match pending_key(msg) {
        Some(k) => s.completions.contains_key(k),
        None => false,
    }
}

/// Storage after a callback was handled: its writes where it succeeded,
/// else unchanged.
pub open spec fn after_sudo(s: StoreModel, r: Result<Outcome, ContractError>) -> StoreModel {
    match r {
        Ok(o) => apply_writes(s, writes_view(o.writes@)),
        Err(_) => s,
    }
}

/// Every record is stored under its own identifier: a callback under the
/// identifier its callback bytes encode, a transfer record under its packet
/// sequence.
pub open spec fn keyed_by_own_identifier(s: StoreModel) -> bool {
    &&& forall|k: Seq<char>| #[trigger]
        s.register_callbacks.contains_key(k) ==> s.register_callbacks[k].callback@ == encode_utf8(k)
    &&& forall|k: Seq<char>| #[trigger]
        s.tx_callbacks.contains_key(k) ==> s.tx_callbacks[k].callback@ == encode_utf8(k)
    &&& forall|q: u64| #[trigger]
        s.transfer_callbacks.contains_key(q) ==> s.transfer_callbacks[q].sequence == q
    &&& forall|q: u64| #[trigger]
        s.transfer_receipts.contains_key(q) ==> s.transfer_receipts[q].sequence == q
}

/// What holds of every reachable storage, given the identifiers that
/// undelegations were sent with so far: records are keyed by their own
/// identifiers, and completion times are held only for undelegated
/// identifiers.
pub open spec fn store_invariant(s: StoreModel, undelegated: Set<Seq<char>>) -> bool {
    &&& keyed_by_own_identifier(s)
    &&& forall|k: Seq<char>| #[trigger] s.completions.contains_key(k) ==> undelegated.contains(k)
}

/// The identifiers undelegated so far, after `msg` is executed.
pub open spec fn undelegated_after(undelegated: Set<Seq<char>>, msg: ExecuteMsg) -> Set<Seq<char>> {
    match msg {
        ExecuteMsg::SendUndelegateTx { callback, .. } => undelegated.insert(callback_key(callback)),
        _ => undelegated,
    }
}

/// One call of an entry point, with what it returned.
pub ghost enum Call {
    Instantiate { version: Seq<char>, out: Outcome },
    Execute { msg: ExecuteMsg, account: Option<AccountAddressResponse>, out: Outcome },
    Sudo { msg: SudoMsg, result: Result<Outcome, ContractError> },
}

/// Whether `c` is a possible outcome of its entry point on storage `s`: the
/// entry point's contract holds of it, an execution is given the account
/// address it needs, and a callback is told whether `s` awaits its
/// undelegation.
pub open spec fn call_allowed(s: StoreModel, c: Call) -> bool {
    match c {
        Call::Instantiate { version, out } => writes_view(out.writes@) == seq![
            WriteView::ContractVersion { contract: contract_name(), version },
        ],
        Call::Execute { msg, account, out } => {
            &&& needs_account(msg) ==> account is Some
            &&& execute_post(msg, account, out)
        },
        Call::Sudo { msg, result } => sudo_post(msg, awaited(s, msg), result),
    }
}

/// Storage after the call `c` on storage `s`.
pub open spec fn after_call(s: StoreModel, c: Call) -> StoreModel {
    match c {
        Call::Instantiate { out, .. } => apply_writes(s, writes_view(out.writes@)),
        Call::Execute { out, .. } => apply_writes(s, writes_view(out.writes@)),
        Call::Sudo { result, .. } => after_sudo(s, result),
    }
}

/// The identifiers undelegated so far, after the call `c`.
pub open spec fn undelegated_after_call(undelegated: Set<Seq<char>>, c: Call) -> Set<Seq<char>> {
    match c {
        Call::Execute { msg, .. } => undelegated_after(undelegated, msg),
        _ => undelegated,
    }
}

/// Whether every call of `calls` is allowed on the storage the calls
/// before it left, starting from `s`.
pub open spec fn run_allowed(s: StoreModel, calls: Seq<Call>) -> bool
    decreases calls.len(),
{
    calls.len() == 0 || (call_allowed(s, calls[0]) && run_allowed(after_call(s, calls[0]), calls.drop_first()))
}

/// Storage after the calls of `calls`, in order, starting from `s`.
pub open spec fn after_run(s: StoreModel, calls: Seq<Call>) -> StoreModel
    decreases calls.len(),
{
    if calls.len() == 0 {
        s
    } else {
        after_run(after_call(s, calls[0]), calls.drop_first())
    }
}

/// The identifiers undelegated by the calls of `calls`, added to `undelegated`.
pub open spec fn undelegated_by(undelegated: Set<Seq<char>>, calls: Seq<Call>) -> Set<Seq<char>>
    decreases calls.len(),
{
    if calls.len() == 0 {
        undelegated
    } else {
        undelegated_by(undelegated_after_call(undelegated, calls[0]), calls.drop_first())
    }
}

/// Storage after the call `c` on storage `s`, by what the call does: see
/// `sudo_effect` and `execute_effect`.
pub open spec fn call_effect(s: StoreModel, c: Call) -> StoreModel {
    match c {
        Call::Instantiate { version, .. } => StoreModel { version: Some((contract_name(), version)), ..s },
        Call::Execute { msg, .. } => execute_effect(s, msg),
        Call::Sudo { msg, result } => if result is Ok {
            sudo_effect(s, msg, awaited(s, msg))
        } else {
            s
        },
    }
}

/// An allowed call has the effect `call_effect` describes.
pub proof fn lemma_call_effect(s: StoreModel, c: Call)
    requires
        call_allowed(s, c),
    ensures
        after_call(s, c) == call_effect(s, c),
{
    match c {
        Call::Instantiate { version, out } => {
            lemma_apply_one(s, writes_view(out.writes@)[0]);
        },
        Call::Execute { msg, account, out } => {
            lemma_execute_effect(s, msg, account, out);
        },
        Call::Sudo { msg, result } => {
            if result is Ok {
                lemma_sudo_effect(s, msg, awaited(s, msg), result);
            }
        },
    }
}

/// A callback handled with the lookup made in the storage it is applied to
/// creates no completion entry: the keys of the stored completion times are
/// the same before and after.
pub proof fn lemma_sudo_creates_no_completion(s: StoreModel, msg: SudoMsg, r: Result<Outcome, ContractError>)
    requires
        sudo_post(msg, awaited(s, msg), r),
    ensures
        after_sudo(s, r).completions.dom() == s.completions.dom(),
{
    if r is Ok {
        lemma_sudo_effect(s, msg, awaited(s, msg), r);
        assert(after_sudo(s, r).completions.dom() =~= s.completions.dom());
    }
}

/// One allowed call keeps the invariant of reachable storage.
pub proof fn lemma_call_keeps_invariant(s: StoreModel, undelegated: Set<Seq<char>>, c: Call)
    requires
        store_invariant(s, undelegated),
        call_allowed(s, c),
    ensures
        store_invariant(after_call(s, c), undelegated_after_call(undelegated, c)),
{
    lemma_call_effect(s, c);
    if let Call::Sudo { msg, result } = c {
        lemma_sudo_creates_no_completion(s, msg, result);
        let t = after_sudo(s, result);
        assert forall|k: Seq<char>| #[trigger] t.completions.contains_key(k) implies undelegated.contains(
            k,
        ) by {
            assert(t.completions.dom().contains(k));
        }
        if result is Ok {
            match msg {
                SudoMsg::IcaTxCallback(d) => {
                    decode_utf8_encode_utf8(d.callback@);
                },
                SudoMsg::IcaRegisterCallback(d) => {
                    decode_utf8_encode_utf8(d.callback@);
                },
                _ => {},
            }
        }
    }
}

/// Every storage reached from empty storage by allowed calls holds its
/// records under their own identifiers, and holds completion times only for
/// identifiers that an undelegation was sent with.
pub proof fn lemma_reachable_store(calls: Seq<Call>)
    requires
        run_allowed(empty_store(), calls),
    ensures
        store_invariant(after_run(empty_store(), calls), undelegated_by(Set::empty(), calls)),
{
    lemma_run_keeps_invariant(empty_store(), Set::empty(), calls);
}

/// Allowed calls keep the invariant of reachable storage.
pub proof fn lemma_run_keeps_invariant(s: StoreModel, undelegated: Set<Seq<char>>, calls: Seq<Call>)
    requires
        store_invariant(s, undelegated),
        run_allowed(s, calls),
    ensures
        store_invariant(after_run(s, calls), undelegated_by(undelegated, calls)),
    decreases calls.len(),
{
    if calls.len() > 0 {
        lemma_call_keeps_invariant(s, undelegated, calls[0]);
        lemma_run_keeps_invariant(
            after_call(s, calls[0]),
            undelegated_after_call(undelegated, calls[0]),
            calls.drop_first(),
        );
    }
}

/// In any reachable storage, the completion time of an identifier that no
/// undelegation was sent with reads as not found.
pub proof fn lemma_unundelegated_completion_not_found(calls: Seq<Call>, callback: String, owner: String)
    requires
        run_allowed(empty_store(), calls),
        !undelegated_by(Set::empty(), calls).contains(callback@),
    ensures
        query_plan(QueryMsg::IcaUndelegateCompletion { callback }, owner) == QueryPlan::Load(
            Slot::UndelegateCompletion(callback),
        ),
        read_slot(after_run(empty_store(), calls), Slot::UndelegateCompletion(callback)) is None,
{
    lemma_reachable_store(calls);
}

/// Whether the call `c` is a transaction callback for identifier `key` whose
/// transaction succeeded with a decodable result: the only call that may
/// record a completion time for `key`.
pub open spec fn reports_completion(c: Call, key: Seq<char>) -> bool {
    match c {
        Call::Sudo { msg: SudoMsg::IcaTxCallback(d), .. } => {
            &&& valid_utf8(d.callback@)
            &&& decode_utf8(d.callback@) == key
            &&& success_result(d) is Some
        },
        _ => false,
    }
}

/// A call that does not report a completion for `key` leaves an awaited
/// undelegation under `key` awaited.
pub proof fn lemma_call_keeps_pending(s: StoreModel, c: Call, key: Seq<char>)
    requires
        call_allowed(s, c),
        s.completions.contains_key(key),
        s.completions[key] == COMPLETION_PENDING,
        !reports_completion(c, key),
    ensures
        after_call(s, c).completions.contains_key(key),
        after_call(s, c).completions[key] == COMPLETION_PENDING,
{
    lemma_call_effect(s, c);
}

/// An undelegation's completion time stays pending (-1) through any allowed
/// calls until a transaction callback for its identifier reports a
/// successful, decodable result.
pub proof fn lemma_completion_stays_pending(s: StoreModel, calls: Seq<Call>, key: Seq<char>)
    requires
        run_allowed(s, calls),
        s.completions.contains_key(key),
        s.completions[key] == COMPLETION_PENDING,
        forall|i: int| 0 <= i < calls.len() ==> !reports_completion(#[trigger] calls[i], key),
    ensures
        after_run(s, calls).completions.contains_key(key),
        after_run(s, calls).completions[key] == COMPLETION_PENDING,
    decreases calls.len(),
{
    if calls.len() > 0 {
        assert(!reports_completion(calls[0], key));
        lemma_call_keeps_pending(s, calls[0], key);
        let rest = calls.drop_first();
        assert forall|i: int| 0 <= i < rest.len() implies !reports_completion(#[trigger] rest[i], key) by {
            assert(rest[i] == calls[i + 1]);
        }
        lemma_completion_stays_pending(after_call(s, calls[0]), rest, key);
    }
}

/// Whether the call `c` may write an entry that `slot` reads: an
/// undelegation writes the completion under its key; a callback writes its
/// record under its identifier or packet sequence, and a transaction callback
/// also the completion under its identifier; an interchain-account callback
/// is read by transaction id under the decimal digits of the id.
pub open spec fn may_write(c: Call, slot: Slot) -> bool {
    match c {
        Call::Instantiate { .. } => false,
        Call::Execute { msg, .. } => match (msg, slot) {
            (ExecuteMsg::SendUndelegateTx { callback, .. }, Slot::UndelegateCompletion(k)) => callback_key(callback)
                == k@,
            _ => false,
        },
        Call::Sudo { msg, .. } => match (msg, slot) {
            (SudoMsg::IcaRegisterCallback(d), Slot::IcaRegisterCallback(k)) => decode_utf8(d.callback@) == k@,
            (SudoMsg::IcaRegisterCallback(d), Slot::IcaCallback(n)) => decode_utf8(d.callback@) == decimal(
                n as nat,
            ),
            (SudoMsg::IcaTxCallback(d), Slot::IcaTxCallback(k)) => decode_utf8(d.callback@) == k@,
            (SudoMsg::IcaTxCallback(d), Slot::UndelegateCompletion(k)) => decode_utf8(d.callback@) == k@,
            (SudoMsg::IcaTxCallback(d), Slot::IcaCallback(n)) => decode_utf8(d.callback@) == decimal(n as nat),
            (SudoMsg::TransferCallback(d), Slot::TransferCallback(q)) => d.sequence == q,
            (SudoMsg::TransferReceipt(d), Slot::TransferReceipt(q)) => d.sequence == q,
            _ => false,
        },
    }
}

/// An allowed call that writes no entry `slot` reads leaves what `slot`
/// reads as it was.
pub proof fn lemma_call_frame(s: StoreModel, c: Call, slot: Slot)
    requires
        call_allowed(s, c),
        !may_write(c, slot),
    ensures
        read_slot(after_call(s, c), slot) == read_slot(s, slot),
{
    lemma_call_effect(s, c);
}

/// Allowed calls none of which writes an entry `slot` reads leave what
/// `slot` reads as it was.
pub proof fn lemma_run_frame(s: StoreModel, calls: Seq<Call>, slot: Slot)
    requires
        run_allowed(s, calls),
        forall|i: int| 0 <= i < calls.len() ==> !may_write(#[trigger] calls[i], slot),
    ensures
        read_slot(after_run(s, calls), slot) == read_slot(s, slot),
    decreases calls.len(),
{
    if calls.len() > 0 {
        assert(!may_write(calls[0], slot));
        lemma_call_frame(s, calls[0], slot);
        let rest = calls.drop_first();
        assert forall|i: int| 0 <= i < rest.len() implies !may_write(#[trigger] rest[i], slot) by {
            assert(rest[i] == calls[i + 1]);
        }
        lemma_run_frame(after_call(s, calls[0]), rest, slot);
    }
}

/// A callback, once handled successfully, keeps reading back as the
/// delivered data through any later allowed calls that write no entry its
/// query reads.
pub proof fn lemma_callback_read_back_later(
    s: StoreModel,
    msg: SudoMsg,
    pending: bool,
    r: Result<Outcome, ContractError>,
    q: QueryMsg,
    owner: String,
    calls: Seq<Call>,
)
    requires
        sudo_post(msg, pending, r),
        r is Ok,
        reads_entry_of(s, q, msg),
        run_allowed(apply_writes(s, writes_view(r->Ok_0.writes@)), calls),
        forall|i: int|
            0 <= i < calls.len() ==> !may_write(#[trigger] calls[i], query_plan(q, owner)->Load_0),
    ensures
        query_plan(q, owner) matches QueryPlan::Load(slot) && read_slot(
            after_run(apply_writes(s, writes_view(r->Ok_0.writes@)), calls),
            slot,
        ) == Some(delivered_value(msg)),
{
    lemma_callback_read_back(s, msg, pending, r, q, owner);
    lemma_run_frame(apply_writes(s, writes_view(r->Ok_0.writes@)), calls, query_plan(q, owner)->Load_0);
}

} // verus!
