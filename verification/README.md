# tradestation

A client library for the TradeStation brokerage API, written in Verus.

`src/` is the verified library:

- `client.rs`: the API environments, the client's settings and token, the
  typestate builder that makes a client (with the OAuth authorize URL and the
  code exchange form), the request retry decisions (a 401 reply refreshes the
  token and retries once) and the decisions of reading a JSON line stream.
- `token.rs`: tokens, scopes, refreshing a token and the scope list format.
- `error.rs`, `responses.rs`: the error type and how API replies become results.
- `accounting/`, `execution/`, `market_data/`: the data model of the API, the
  query and order builders, the query strings and the endpoints.
- `text.rs`: decimal rendering and joining of texts, shared by the above.

The contracts state each result exactly over spec functions; the public
`law_*` proof functions state properties that span several functions.

`app/` is the async HTTP side (reqwest, tokio, serde): it sends the requests
and reads the streams that the library decides about, and holds the JSON
forms of the library's types. `tests/` runs the library on concrete values.
