# headstash

Verified message building and state transitions for the contracts that
deploy a headstash airdrop on Secret Network from Terp Network through
interchain accounts (ICA).

## Layout

- `src/` is the library, verified with Verus:
  - `proto` encodes the protobuf bodies of `MsgStoreCode`,
    `MsgInstantiateContract`, `MsgExecuteContract` and `MsgGrantAllowance`
    (through `anybuf`), each against a byte-level specification;
  - `text` and `codec` hold the string and number routines and the calls
    into `cosmwasm-std` and `hex`;
  - `msg` holds the messages and responses the contracts exchange, and
    `keyed` a keyed list with distinct keys that models contract storage;
  - `glob` is the wasm-blob store, `ica_owner` the ICA owner that drives a
    deployment step by step, and `circuitboard` the circuit board that
    creates ICA controllers and sends blooms; each has its `execute`
    dispatcher and its laws (what a read gives back after a write, what
    every message keeps).
- `tests/` runs the library on concrete values.
- `app/` is the CosmWasm (and Secret Network) glue: the JSON forms of the
  messages, storage, address validation, `instantiate2`, ownership changes
  through `cw-ownable`, and the entry points.
