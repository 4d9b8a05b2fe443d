//! Verified core of the Unraid MCP / CLI front-end: action catalogue, command-line
//! parsing, MCP request planning, error routing and the request/response decisions
//! of the GraphQL client.

pub mod text;
pub mod actions;
pub mod cli;
pub mod service;
pub mod upstream;
pub mod client;
pub mod schema;
pub mod requests;
pub mod args;
pub mod tools;
pub mod dispatch;
pub mod paging;
pub mod tool_schema;
