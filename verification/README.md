# ninjucks

A swap aggregator for Injective. It takes one offer coin, routes it through the configured router
of the chosen venue (Choice or HallSwap) with the venue-native route body forwarded verbatim, then
settles in the same transaction: the whole ask-denomination delta goes to the recipient, provided it
is positive and reaches `minimum_receive`; otherwise the transaction reverts.

## Layout

- `src/` — the verified library (Verus). Every request is decided here from what the chain read
  for it (`host::HostReads`: the stored configuration, the chain's verdict on each address the
  request names, the aggregator's balance in the ask denomination).
  - `contract.rs` — the handlers (`instantiate`, `execute` and its swap, settlement and admin
    handlers, `migrate`, `query`) with their contracts, and the spec functions they are stated in.
  - `laws.rs` — properties spanning handlers: the swap pays what the venue delivered, the floor,
    admin gating, the two-step admin transfer, both entrypoints routing alike.
  - `msg.rs`, `state.rs`, `error.rs`, `response.rs`, `host.rs` — messages, configuration, errors,
    the response model and the request envelope.
  - `decimal.rs` — decimal rendering of amounts for response attributes.
  - `mock_router.rs` — a stand-in venue router for exercising the aggregator.
- `app/` — the CosmWasm contract around the library: entry points, JSON wire formats, storage,
  address validation and balance queries.
- `tests/` — scenarios on an in-memory chain, and direct checks of each handler.
