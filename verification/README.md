# icatest

A verified library for an interchain-accounts test contract on a Cosmos chain
with a custom interchain-accounts module. Users ask the contract to register
interchain accounts, delegate and undelegate through them, and send IBC
transfers; the chain reports back through callbacks, which the contract
records and serves to queries. For undelegations it also decodes the
transaction result and records the completion time.

Layout:

- `src/` — the verified library (Verus).
  - `msg.rs`, `chain.rs`: the messages, queries, callbacks and outgoing
    chain messages.
  - `contract.rs`: instantiation, migration and execution.
  - `sudo.rs`: the chain's callbacks and the decoding of undelegation results.
  - `query.rs`: what each query reads.
  - `state.rs`: storage slots, the writes entry points ask for, and a model
    of the stored maps.
  - `laws.rs`: the effect of each entry point on the stored maps, and
    properties across entry points (what a query reads back after a
    callback, also by transaction id; how callback identifiers round-trip;
    when completion times are recorded; that execution depends only on its
    message).
  - `runs.rs`: properties of every storage reachable by allowed calls
    (records keyed by their own identifiers, completion times only for
    undelegated identifiers and pending until reported, recorded callbacks
    read back until a call writes their entry).
  - `decimal.rs`, `text.rs`, `proto.rs`: decimal amounts, UTF-8 callback
    identifiers, and protobuf encoding/decoding through `cosmos_sdk_proto`.
- `app/` — the CosmWasm entry points: they read storage and query the chain
  for what the library asks, apply the writes it returns, and convert
  between the library's types and their JSON forms.
- `tests/` — tests of the library on concrete values.

Each interchain-account operation names the callback that reports back on
it, either by a string (`"callback": "..."`) or by a numeric transaction id
(`"tx_id": 1`), which stands for its decimal digits. The identifier travels
with the interchain message as its UTF-8 bytes and keys the recorded
callbacks. Recorded callbacks are read back by their string key
(`ica_register_callback`, `ica_tx_callback`) or by transaction id
(`{"ica_callback": {"tx_id": 1}}`, which answers with the transaction
callback under that id where there is one, else the account-registration
callback).
