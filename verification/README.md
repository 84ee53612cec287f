# crypton_donation_charity

A donation-charity platform whose rules are verified with Verus.

Campaigns collect lamport donations. Until a campaign is exempt the platform
takes a commission from every donation; a campaign becomes exempt once its
commissioned donations times the commission reach a limit. Every donation is
recorded in the donator's history and on three leader boards (the campaign's
ten largest, the platform's ten largest of the current reward period, and the
platform's hundred largest). Referrers receive charity tokens as a gift, and
at the end of each reward period the platform's leaders are rewarded. Token
donations close a campaign once they reach a limit; closed campaigns pay out
their share, and the platform withdraws its commission.

Layout:

- `src/` — the verified library. Each instruction is a function from the
  accounts it reads, as plain values, to the accounts it writes and the
  effects the runtime must carry out (`effects.rs`). `top.rs` holds the leader
  boards and their laws, `laws.rs` the laws that span instructions.
- `tests/` — tests of the library on concrete values.
- `app/` — the on-chain program: it reads accounts, the clock and the rent,
  calls the library, and performs the transfers, token mints, events and logs.
