# fee_contracts

Fee accounting for Soroban payment contracts, verified with Verus.

- `src/priority.rs` — priority levels and their fee multipliers.
- `src/fee.rs` — fee rates from time windows and priorities, fee amounts,
  errors and events of the fee contract.
- `src/fee_contract.rs` — the fee contract's state: administration, bounded
  quotes, deductions with fallbacks (default asset and per asset), fee history.
- `src/escrow.rs` — the fee escrow contract: collection per billing cycle,
  batches, rollover, release to the treasury, locking.
- `src/discount.rs` — fee discounts that expire.
- `src/wallet.rs` — links between users and their wallets.
- `src/amounts.rs` — per-account running amounts and their sums.
- `src/host.rs` — the host's contract-error values.

Every operation is a function from the contract's state (and the ledger time,
where it matters) to the next state, the events to publish and the token
transfers to make. `app/` holds the Soroban contracts that load the state from
the host's storage, call these operations, store the result, publish the
events and move the tokens.
