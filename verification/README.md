# pool_escrow

A Soroban contract that holds pooled cooperative funding in escrow, one escrow
per invoice. Funding is locked once, then either released to the supplier or
refunded to the funder; repayments are recorded against a released escrow.

- `src/` is the contract, verified with Verus. Every entry point of
  `PoolEscrowContract` states its reply and the host state it leaves;
  `src/laws.rs` states what holds over any run of calls. `src/host.rs` holds the
  calls into `soroban-sdk`, whose contracts are trusted.
- `app/` is the deployed contract: the interface types with the attributes of
  `soroban-sdk`, and entry points that call the library.
- `tests/` runs the library in the host that `soroban-sdk` provides for tests.
