//! State and update logic of a terminal dashboard for a Transmission server:
//! formatting of raw fields, mapping of server records to display records,
//! the file tree of a torrent, the list and detail views, and the loop that
//! dispatches actions to them.

pub mod action;
pub mod app;
pub mod cli;
pub mod components;
pub mod data;
pub mod error;
pub mod dates;
pub mod order;
pub mod rpc;
pub mod text;
pub mod utils;
pub mod width;
