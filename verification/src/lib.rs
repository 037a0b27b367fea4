//! Decision logic of the JavaScript visitor bridge for CSS style sheets:
//! which visitor function a node is handed to, how a visitor's answer
//! rewrites a list of nodes, and which node kinds are visited at all.

pub mod dispatch;
pub mod list;
pub mod outcome;
pub mod plan;
pub mod routes;
pub mod types;
pub mod visitors;
