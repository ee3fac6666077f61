# mcp-banking

A banking MCP server over three backends (Plaid, Mono, Open Banking), with
its logic in a library verified by Verus.

- `src/` — the verified library: the JSON model, the request that each
  backend operation sends, how each backend's answers read as one set of
  records (accounts, transactions, balances, identity, institutions,
  payments, statements), search and lookup, backend selection from the
  configuration, error and health texts, and the laws in `src/laws.rs`.
- `app/` — the server around it: environment and manifest reading, HTTP,
  the MCP tool router, and the floating-point work on amounts.
- `tests/` — tests of the library on concrete values.
