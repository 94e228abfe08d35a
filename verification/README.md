# ser

The stages of an OP Stack batcher, verified with Verus.

L2 blocks flow through the pipeline

    L2Traversal -> L2Retrieval -> BatchProcessor -> ChannelBuilder -> TransactionBuilder

and leave it as batch transactions of channel frames, ready to post to L1.

* `src/` is the verified library: the block references and sync status, the
  block-to-batch conversion, the channel (`ChannelOut`) with its frame output
  and timeouts, every stage's state and decisions, the block cursor of the
  driver, and `laws.rs`, the properties proved across calls. `external.rs`
  holds the calls into `op-alloy-protocol`, `op-alloy-genesis`,
  `op-alloy-consensus`, `alloy-rlp`
  and `rand`, with the contracts that the rest of the library relies on.
* `app/` is the asynchronous edge: the provider traits that reach the L1 and
  L2 chains and the rollup node, and the drivers that await them and hand
  their results to the library's step functions.
* `tests/` runs the library on concrete values.
