# ironclaw

The decisions of an agent host, stated as contracts and proved with Verus:

- `surface`: which capabilities a turn may see, and the payload that names the
  version of that surface.
- `mcp` and `overlay`: hosted MCP servers; planning a request to one, discovering
  its tools for one hire, caching what was discovered, and the grants it gives.
- `approval`: one-shot leases and persistent approvals.
- `egress`: HTTP requests that the host sends with secrets it holds.
- `skills`: whose skills a store holds, and how they are listed.
- `readiness`, `agent_market`: readiness snapshots and the Agent Market bundle.

`src/` is the library, every function of it verified but for the wrappers of the
trusted calls named below. Where the host has to act
between two decisions (ask an authorizer, read a directory, wait for a server),
the library is a function from what is known so far to what to ask next; `app/`
runs the loops. `tests/` runs the library on concrete values.

The library trusts four things it does not prove: `String::push`, `url::Url::parse`
with its accessors, and `serde_json`'s reading and writing of a JSON text. Each
is declared beside its contract in `text`, `web` and `json`.
