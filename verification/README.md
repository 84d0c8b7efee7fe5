# recallgate

Recall Gate locks every monitor until you answer one multiple-choice card. A right answer
unlocks; a wrong one shows the right choice and unlocks too. The only other way out is the
paid abort (hold Ctrl+Shift+Escape, type `ABORT`, press Enter), which buys about a minute
before the freeze comes back. Other programs, agents included, can add cards and start a
freeze, but they cannot unlock.

## Layout

- `src/` is the library, verified with Verus:
  - `ids`, `time`, `item`, `abort`, `cadence`, `gate`: the domain (identifiers, instants,
    the deck, the freeze phase machine and the minimum time between freezes);
  - `store`: the rows the SQLite store writes and reads, and its checks;
  - `rpc`, `backend`, `notify`: the daemon's decisions for each request, which lock backend
    runs, and the show request it sends to a lock helper;
  - `ipc`, `hatch`, `lock_x11`, `lock_wayland`: the lock helpers' rules (the show
    acknowledgement, the abort chord, keys, card layout, the input state of a prompt);
  - `json`, `jsonrpc`, `replies`: reading request and reply lines (through serde_json),
    writing JSON-RPC reply lines and the result object of each daemon method;
  - `mcp`: the MCP adapter's request reading, routing, tool list and replies.
- `tests/` runs the library on concrete values.
- `app/` holds the programs around it: the daemon (Unix socket, SQLite), the MCP adapter
  (stdio), and the X11 and Wayland lock helpers.
