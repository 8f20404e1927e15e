//! A tool server for commit workflows: it answers JSON-RPC messages that
//! list and call four tools on a git repository, and renders the description
//! of the diff tool from the configuration of the session.
//!
//! [`server::Server::handle_line`] takes one line of input to the line to
//! write, if any. Every step on the way is a function with a contract over
//! the values of the types involved: [`json`] holds the JSON values,
//! [`protocol`] the requests and responses, [`config`] the configuration,
//! [`tools`] the catalog, the calls and their reports, [`git`] the operations
//! on the repository. [`laws`] states what holds across these functions.

pub mod config;
pub mod git;
pub mod json;
pub mod laws;
pub mod protocol;
pub mod server;
pub mod text;
pub mod tools;
