# fisco_bcos_service

A client core for FISCO BCOS nodes, written in Verus and verified.

- `src/json.rs`: the JSON documents the client exchanges, with their
  mathematical model, member lookup and copying.
- `src/rpc.rs`: JSON-RPC 2.0 requests, and the law that a request reads back
  the method and parameters it was built from.
- `src/service.rs`: the `Service` and one request builder per node method,
  plus the reading of call replies and the block limit of new transactions.
- `src/helpers.rs`: reading string, string-array and hexadecimal replies,
  and the law that the library's hexadecimal text reads back as its number.
- `src/encoding.rs`: `0x`-prefixed hexadecimal text (through the `hex` crate).
- `src/deploy.rs`: the state machine of a deployment waiting for its receipt.
- `app/`: the asynchronous service that sends the core's requests through a
  fetcher, converts `serde_json` documents, and drives the deployment loop.
