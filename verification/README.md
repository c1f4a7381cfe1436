# voucher

A CosmWasm voucher contract, verified with Verus. The admin allows kinds of NFT (a
collection, optionally restricted to tokens with one trait); a holder burns such an NFT by
sending it to the contract and earns one voucher for that kind.

- `src/` is the verified library. `contract.rs` holds the entry points as decision functions:
  given the message and what the host chain has answered so far (`host.rs`), each one either
  asks the host for the next thing it needs (validate an address, read storage, ask a
  collection about a token, decode a message) or finishes with a storage write and a response
  (`response.rs`) or an error (`error.rs`). `state.rs` and `msg.rs` hold the stored values and
  the messages with their models; `laws.rs` proves properties that span entry points.
- `app/` is the contract on the chain: entry points, serde copies of the messages, storage
  through `cw-storage-plus`, and the loop that answers the library's requests.
- `tests/` runs the entry points against a small in-memory host.
