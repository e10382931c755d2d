# mcp_gateway

A gateway for MCP (Model Context Protocol) servers. Clients speak to one address;
the gateway sends each request to the server that its path or its session names.

- `/vs/<name>/...` goes to the MCP server called `<name>`, which sees the path
  without `/vs/<name>`.
- `/<name>/...` goes to the server called `<name>` that is not an MCP server, with
  or without its first segment, as the configuration says.
- `/message`, and the path of any configured server, go by session: by the
  `Mcp-Session-Id` header or else by `sessionId` in the query. Sessions become
  known from the answers of the servers.

Two companions come with it: a benchmark of tool calls, directly and through the
gateway, and a probe that asks a time server for its lists.

## Layout

`src/` is the verified library.

| module      | what it holds                                                   |
|-------------|-----------------------------------------------------------------|
| `text`      | cutting and comparing strings, over their characters            |
| `config`    | the configured servers and the parts of their URLs              |
| `headers`   | what is read from HTTP headers                                  |
| `sessions`  | the session table; session ids in queries and event streams     |
| `gateway`   | routing, and what becomes of requests and answers               |
| `arguments` | tool arguments from JSON text                                   |
| `benchmark` | counting calls, comparing runs, URLs and messages               |
| `probe`     | the order of the probe's questions, and its messages            |
| `laws`      | what holds of all of these together                             |

The functions decide and compute; they do no I/O. Calls into `http`, `regex`,
`rustc_hash` and `serde_json` stand in small functions whose contracts are taken
from those crates; each says so.

`app/` is the program: pingora, tokio, the MCP clients, the command line and the
configuration file `mcp-servers.toml`. `tests/` runs the library.
