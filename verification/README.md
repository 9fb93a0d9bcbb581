# brindexer-logic

The verified core of a token-metadata indexer for EVM chains.

- `src/` — the library, verified with Verus:
  - `settings` — indexer settings and their defaults;
  - `job` — the token metadata job and the retry state machine of a job run,
    with the proofs that a run makes at most its number of attempts, in order,
    and that an ended run stays ended;
  - `abi` — the token interface's methods, their selectors and the decoding of
    their answers (through `alloy-sol-types` and `alloy-primitives`);
  - `rpc` — the `eth_call`s of a batch and the decoding of each raw answer;
  - `token` — token metadata, and how a contract-URI document completes it;
  - `token_rpc` — token metadata from the five batches of answers;
  - `token_db` — the row updates written back, and the proof that an updated
    token is not picked up again as uncatalogued.
- `app/` — the service around it: settings file, JSON-RPC transport, database
  access, contract-URI fetching and the job scheduler.
- `tests/` — tests of the library.
