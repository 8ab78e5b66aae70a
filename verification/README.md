# m0_orderbook

The verified core of a cross-chain order book (an EVM contract and a Solana
program, a quoter service, a solver and a block indexer), written in Verus.

`src/` is the library, verified by Verus: each function's contract states
what it returns, except where what it returns is the system clock's reading
or a unit component:

- `order_id`, `program` — order identifiers, the program's account rules
  (closing an order's token account, flushing deferred fill reports) and the
  token-program calls they make.
- `bytes`, `layout`, `text` — byte layouts of integers and program records,
  hex, decimal and base64 texts.
- `builder`, `evm_builder`, `svm_builder`, `instruction` — the quoter's
  transaction builders: ABI calldata for the EVM contract, instructions and
  unsigned transactions for the Solana program.
- `solver` — the solver's decisions on new orders and holds.
- `pb`, `indexer` — the indexer's records, the decoding of the program's
  events and instructions, and the walk over a block.
- `hash`, `solana`, `clock` — the calls into `alloy`, `anchor_lang` and the
  system clock, each with the contract the library relies on.
- `models`, `quote` — the quoter's request and response bodies.

`app/` holds what the library does not: the wire models with serde, and the
flows that read accounts, nonces, allowances and quotes from RPC nodes and
relayers before handing them to the library, and the solver's event
handling (the order store and the asset lookups around its decisions).

`tests/` exercises the library on concrete values.
