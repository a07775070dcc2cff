# moksha_mint

The verified core of a Cashu mint's HTTP routes with bitcredit (bill of
exchange) extensions, written in Verus.

- `keysets`: which keyset answers a swap on a bill's route (by maturity) and
  where the keys asked for by id come from.
- `quote_id`: quote ids as UUIDs, through the `uuid` crate.
- `expiry`: quote expiry, thirty minutes after the current time (`chrono`).
- `quotes`: mint and melt quotes, requests to mint, and their updates.
- `info`: the mint's self-description and its announced contacts.
- `fee`: the fee kept when minting against a bill, the address of the fee
  token's mint (`url`), and the in-order pairing of outputs.
- `flow`: the steps each route takes, in order, and where a route stands
  after each step succeeds or fails.
- `error`: the errors the routes answer with.
