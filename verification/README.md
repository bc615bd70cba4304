# discord_bot_api

The verified core of a small web service behind a Discord bot: users tip
each other (or "anti-tip"), an API key in the query string guards the write
endpoints, and each endpoint is a decision from what a request carries and
what the database held to the reply it sends and the write it asks for.

- `src/` — the library, verified with Verus:
  - `models` — the stored rows (`User`, `Tip`, `Key`);
  - `number` — decimal parsing of ids, amounts and the port;
  - `pattern` — compiled regular expressions from the `regex` crate;
  - `keys` — finding and judging the API key;
  - `tip` — new users, allowances, tip ids, and the tip / anti-tip transactions;
  - `reply` — the endpoints' replies;
  - `server` — the greetings and the listening port;
  - `laws` — properties that span several operations.
- `app/` — the Iron server, routing, PostgreSQL access through Diesel and
  JSON encoding around the library.
- `tests/` — tests of the library.
