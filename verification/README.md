# protocols

Small services for REST, Server-Sent Events, WebSocket, JSON-RPC 2.0, MCP,
A2A and gRPC, with their logic verified by Verus.

- `src/` is the verified library:
  - `store` — the item store behind the REST endpoints (list, create, get,
    update, delete), modelled as a map from id to name, with the laws that
    tie the operations together (read after create/update/delete, ids handed
    out one after another, a delete undoing the create before it);
  - `sse`, `ws` — what the event and WebSocket relays send for what they
    receive;
  - `tools`, `json_rpc` — the MCP tools and the JSON-RPC `add` method;
  - `grpc` — the demo gRPC service: add, a count-up stream, a running sum and
    an echoing chat;
  - `agent` — the A2A echo agent: the events of a task, its cancellation and
    its agent card;
  - `decimal` — decimal text of integers, as `to_string` writes it.
- `app/` holds the servers and clients (axum, jsonrpsee, rmcp, tonic, A2A)
  that read requests, hand them to the library and send its answers. The
  first argument picks the program: `web` (default), `json_rpc`,
  `mcp_stdio_server`, `mcp_http_server`, `mcp_stdio_client`,
  `mcp_http_client`, `a2a_server`, `a2a_client`, `grpc_server`,
  `grpc_client`.
- `tests/` runs the library on concrete values.
