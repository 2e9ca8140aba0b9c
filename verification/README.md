# rsp-host-executor

Executes Ethereum and OP Stack blocks on the host and prepares them for a zkVM client program.

The library in `src/` is verified with Verus. It decides what is done next, what is asked for, and
what the answers amount to:

- `host_executor` takes a block from its number to the input of the client program. Each phase asks
  for one thing, and its answer leads to the next phase or to an error. The block is accepted if the
  state root over all that execution changed is that of its header, and the header derived from the
  execution hashes to the block's own hash.
- `full_executor` and `client_run` hold the executors: where an input comes from, where it is saved,
  and how the client program is executed and proved.
- `replay` takes the transactions of a block one by one and compares the state root that results. A
  transaction without a signer ends it without a root.
- `header`, `bloom`, `storage_keys`, `bundle`, `transaction` and `cache` are the computations
  underneath; `bytes` and `primitives` are the values they work on.

`app/` is the program around it, for Ethereum: it talks to the node, runs the EVM, the state trie and
the prover, reads and writes the cache, and hands the answers to the library. It needs the crates of reth, of SP1 and of the client program beside those
in `Cargo.toml`.

`tests/` runs the library on concrete values.
