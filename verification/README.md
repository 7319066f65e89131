# PVP Trade battle rules, verified

PVP Trade is a Solana trading-battle protocol: two players stake equal USDC into
per-player vaults, trade from those vaults for a fixed period, and the greater final
equity wins. This crate holds the protocol's rules as a Verus-verified library.

## Layout

- `src/state.rs` — the stored accounts (`ProtocolConfig`, `SwapConfig`, `TokenPolicy`,
  `Battle`), the lifecycle statuses and the allowed transitions, and the battle
  invariant `Battle::well_formed`.
- `src/instructions.rs` — every battle instruction as a decision on plain account data:
  the rejection it gives, or the accounts to write, the token transfers to make and the
  event to emit.
- `src/swap.rs` — routed swaps: validating a request and planning the router call
  (`execute_swap`, `plan_swap`), and judging the vault balances after it
  (`check_swap_result`).
- `src/address.rs` — the seed layouts of the program-derived addresses, and the
  derivation itself, which calls the Solana address library.
- `src/mock_swap.rs` — the mock router used to exercise swaps.
- `src/laws.rs` — properties that span instructions (equal stakes, refunds, fixed terms,
  the trading window, swap limits, vault separation).
- `app/lib.rs` — the Anchor program shell: account validation, the clock, token
  transfers, the router call and events, around the verified decisions.
- `tests/` — scenario tests, with a small stand-in for the token program.
