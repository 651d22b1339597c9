//! Verified core of a command-line client for a Galoy banking backend.
//!
//! The library holds the decisions the client makes around its GraphQL
//! calls: which wallets a balance query reports, how a batch-payment CSV
//! file is validated and paid out, how a server reply is turned into a
//! result or an error, and the error messages the user sees.  Network,
//! file system and terminal work live in the accompanying application.
#![allow(unused_imports)]

pub mod types;
pub mod utils;
pub mod decimal;
pub mod errors;
pub mod balance;
pub mod responses;
pub mod auth;
pub mod queries;
pub mod batch;
pub mod cli;
