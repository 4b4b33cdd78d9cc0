# forge-vesting

A single-beneficiary token vesting contract with a cliff and a linear
release schedule, whose decisions are verified with Verus.

- `src/account.rs`: addresses, held as strkey bytes.
- `src/schedule.rs`: the stored schedule and the vested amount over time.
- `src/contract.rs`: the contract's state and its entry points
  (`initialize`, `claim`, `cancel`, `transfer_admin`, `get_status`,
  `get_config`), each deciding the new state, the authorization it needs,
  the token transfer and the event.
- `src/laws.rs`: properties that span entry points and time.
- `app/lib.rs`: the Soroban contract, which reads storage and the ledger
  time, hands them to the library, and carries out its decisions.
