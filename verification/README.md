# mcp_rust_sdk

A Model Context Protocol (MCP) SDK whose core is verified with Verus.

- `src/` is the verified library: JSON-RPC message values (`protocol`),
  MCP error codes and errors (`error`), the decisions of a client
  (`client::ClientSession`: request numbering, matching responses, turning
  them into results or errors), of a server (`server::ServerSession`: which
  requests reach the handler before and after initialization, what each
  request is answered, when serving stops), and of the transports
  (`transport::stdio`, `transport::websocket`: what each line or frame read
  becomes).  JSON values are `serde_json::Value`, read and built through a
  few trusted wrappers in `json`.
- `app/` runs those decisions over real connections with tokio: the
  `Client`, `Server` and `ServerHandler`, the `Transport` trait with its stdio
  and WebSocket implementations, and serde copies of the message types that
  turn messages into JSON text and back.
- `tests/` exercises the library on concrete values.
