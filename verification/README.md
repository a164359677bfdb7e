# swissknife

The decision logic of a Lightning and Bitcoin wallet orchestrator that talks to
Core Lightning, LND and the Breez SDKs, written in Verus with its behaviour
stated as contracts and proved.

- `src/` is the verified library: the domain model (`domain`), Bitcoin and
  invoice helpers (`network`, `bolt11`, `chain`, `text`, `time`), the mapping
  of each node's wire types to the domain (`cln_rest`, `cln_grpc`, `cln_ws`,
  `lnd`, `lnrpc`, `breez*`), the synchronisation cursors and batches, the
  listener supervision rules (`listener`) and the configuration rules
  (`config`). Calls into `bitcoin`, `lightning-invoice`, `hex`, `base64` and
  `chrono` go through small trusted wrappers whose contracts are documented
  where they stand.
- `tests/` runs the library on concrete values.
- `app/` holds the I/O around it: the HTTP clients for Core Lightning and LND,
  the JSON wire types, logging setup and the server entry point.
