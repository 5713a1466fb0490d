# gravity_sdk

The decisions of a consensus node that hands ordered blocks to a separate execution layer, written
in Rust and verified with Verus.

## Layout

* `src/` is the verified library.
  * `block_buffer_manager`, `buffer_model`, `block_map`, `block_state`, `txn_buffer`: the buffer
    between consensus and execution, and its mathematical model.
  * `block_store`, `block_retrieval`, `block_retriever`, `sync_manager`: holding, serving and
    fetching blocks.
  * `epoch_manager`, `epoch_start`, `proposer_election`, `randomness_setup`: what outlives an epoch.
  * `state_computer`, `pipelined_block`, `vote_proposal`, `block_executor`, `bcs_encoding`: executing
    and committing blocks.
  * `reader`, `https`, `set_failpoints`: reading the chain, and the HTTP surface of a node.
  * `buffer_laws`, `retrieval_laws`, `sync_laws`, `epoch_laws`: what holds across functions. Laws
    about a single module stand in that module.
* `tests/` runs the library on concrete values.
* `app/` is ordinary Rust around the library: locks, channels, timers, the network, storage and the
  HTTP server. It is not verified; it tests the conditions of each library function before it
  calls it.

## How waiting and reading are modelled

The library never waits and never reads. A function that would wait answers that there is nothing
yet; one that would read from a database or ask a peer is a state machine that says what it needs
next and is told what came of it. The time, random draws made elsewhere, and failures that are
injected for testing are arguments.

The calls that the library makes itself and that Verus cannot read (`bcs::to_bytes`, `fail::cfg`,
`rand::Rng::gen_range`, `str::contains`) stand behind small functions whose doc comments say what is
taken on trust.

## Fail points

`/set_failpoint` is open where `FAILPOINT_AUTH_TOKEN` is not set or empty: a request that sends no
token is then served. Where the variable holds a token, only requests that send it are served. A
node that others can reach sets the variable, or is built without fail points.
