# first_project (Huellazo)

A tourist passport program for Solana: travellers collect stamps and
experience by visiting landmarks (proved by a backend-signed Ed25519 location
proof), share achievements once for a bonus, and check in at businesses,
where they rate the business, redeem discounts and progress in missions.

Layout:

- `src/` — the verified library. Each instruction is a function over plain
  account data (`src/instructions/`), with a contract that says exactly when
  it is refused, with which error, and what every account holds afterwards;
  a refused instruction changes no account. `src/location_proof.rs` builds the
  signed message and checks the signature through ed25519-dalek;
  `src/laws.rs` proves properties that span instructions.
- `app/` — the Anchor program: account (de)serialization and address
  derivation, the lamport transfer of a check-in, logging, and conversions
  between on-chain accounts and the library's types.
- `tests/` — the end-to-end flow and unit tests of every rule.
