# morpheum_sdk

Verified building blocks of the Morpheum SDK, written in Verus.

- `src/` is the library, every function of it proved against its contract:
  - `common`, `json`: shared errors, maps keyed by name, byte and decimal
    text helpers, and the JSON documents sent to contracts;
  - `cosmwasm`: message builders, the protobuf wire format of the queries
    and of `BroadcastTx`, and the reading of their replies;
  - `evm`: the chain registry (lookup by name or alias, merge of overrides,
    address parsing) and the reading of dispatch, payment and CCTP results
    out of transaction logs;
  - `gmp`: GMP and Hyperlane parameters and builders, and the byte-level
    relay (message layout, checkpoint digests and signatures, ISM metadata,
    `Mailbox.process` calldata and the parsing of the queries it needs);
  - `dao`, `gov`, `directory`, `identity`, `inference_registry`,
    `insurance`, `intent`, `fundingrate`: domain types, requests and builders
    of the Morpheum modules.
- `tests/` runs the library on concrete values.
- `app/` holds what needs I/O, serde or floating point: loading
  `chains.toml`, the relay and EVM flows over caller-supplied endpoints, and
  presentation helpers.

Outside crates are reached only through the small trusted wrappers marked
`#[verifier::external_body]` (Keccak-256 from `sha3`, ECDSA from `k256`,
address parsing from `alloy-primitives`, JSON from `serde_json`, hexadecimal
decoding from `hex`); each states in its doc comment what its contract
claims.
