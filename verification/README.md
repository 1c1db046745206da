# escrow_toolkit

Verified decision logic for three Soroban escrow contracts, and the
contracts built around it.

- `src/` is the library, verified with Verus. Each contract call is a
  function from what the call reads (the stored records, the caller, the
  ledger time) to either an error or what the call does: the records it
  writes, the token transfers it makes and the events it publishes.
  - `common`: addresses, token transfers and their net effect on the
    contract's balance.
  - `escrow_core`: two-party escrow with an optional arbiter and a refund
    deadline.
  - `milestone`: an agreement funded up front and paid out milestone by
    milestone.
  - `multisig`: an M-of-N vault whose proposals run once enough signers
    approve.

  In each, `types` holds the data, `spec` what each call does, `contract`
  the executable calls proved against `spec`, and `laws` the properties
  proved of the contract as a whole (transition tables, conservation of the
  escrowed principal, authority, finality, M-of-N quorum).
- `tests/` runs the calls through whole scenarios, moving token balances by
  the transfers each call asks for.
- `app/` is the Soroban side: authorization, storage, token transfers and
  events, and the conversions between Soroban values and the library's.
