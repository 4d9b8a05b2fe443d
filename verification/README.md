# unraid_mcp

A client for the Unraid GraphQL API with two front ends: the `unraid` MCP tool
(one tool, selected by an `action` argument) and a command line. The library in
`src/` holds every decision the front ends take, each with a contract proved by
Verus; `app/` performs the HTTP exchanges, reads the environment and prints.

## Layout

- `src/actions.rs`: the action catalogue (name and scope of every action), the
  derived action lists, and their laws (unique names, only `help` unscoped, the
  data / write / status / help partition), and scope gating (`unraid:admin`
  satisfies `unraid:read`; only `unraid:admin` reaches a mutating action).
- `src/tool_schema.rs`: the `unraid` tool definition, and the law that a call
  depends only on the arguments the schema declares.
- `src/args.rs`: reading tool arguments (strings, booleans, integers, counts,
  string lists).
- `src/dispatch.rs`: planning a tool call: the service call to make and how to
  page its result, or the `invalid_params` error.
- `src/paging.rs`: the case-insensitive filter and the page selection
  (`{items, total, limit, offset, has_more, next_offset}`).
- `src/cli.rs`: parsing a command line into a command and the `--json` flag.
- `src/service.rs`: the service calls, their action names, and the call each
  command performs.
- `src/requests.rs`: the upstream request of each call (a fixed query document
  with variables, or a typed operation), with decoding of enumerated arguments.
- `src/upstream.rs`: the failure categories of the upstream exchange.
- `src/tools.rs`: routing of service failures to tool errors.
- `src/client.rs`: client construction from the configuration.
- `src/schema.rs`: plain types for the GraphQL scalars, enums, operation
  variables and typed response shapes.
- `src/text.rs`: string helpers (equality, joining, `i64` parsing).
- `app/`: the `unraid` binary: environment, HTTP transport, typed operations
  (cynic derives over the Unraid SDL), the MCP tool runner, printing.
