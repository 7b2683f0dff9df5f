# graph_substreams

Substreams support for a GraphQL indexing node, verified with Verus.

- `src/` is the verified library:
  - `block` — block hashes, block pointers and the substreams block;
  - `substreams` — the stream messages (block-scoped outputs, clock, fork
    step) and the block pointer of a message;
  - `chain` — node capabilities and the mapper from stream messages to
    block stream events;
  - `uniswap` — the `uniswap.types.v1` messages and their enumerations;
  - `resolver` and `value` — which block a query reads, the `_meta` field,
    resolving prefetched objects and the handling of indexing errors;
  - `hex` and `text` — hexadecimal and decimal text.
- `app/` holds what the library leaves to its host: protobuf decoding of
  the messages, JSON block data, text forms of node capabilities and the
  store lookups that create a resolver at a block.
- `tests/` exercises the library on concrete values.
