# Price oracle

A price oracle contract for Soroban, with its decisions verified by Verus.

Relayers on a whitelist submit prices for approved assets (NGN, KES, GHS). An asset can be given
a minimum of pool liquidity; a submission from a thinner market is refused, and its provider can
be slashed in proportion to the shortfall.

- `src/` is the verified library. A contract call works on a `Ledger`: the storage entries that
  the call needs, and a list of the actions that the host has to carry out. Each function states
  in its contract what it answers and which ledger it leaves behind.
  - `percentage` measures price movements in basis points.
  - `validation` holds liquidity against thresholds and works out penalties.
  - `oracle` has the entry points of the contract.
  - `ledger`, `table` and `price_map` hold the state; prices are kept in the host's own ordered
    map, through the functions of `price_map`, whose contracts are trusted.
  - `laws` proves what holds across operations.
- `app/` runs the library on a Soroban host: it restores storage entries, calls the library and
  carries out the actions. The slashing engine, which holds the stakes, is a parameter there.
- `tests/` runs the library on concrete values.
