//! Product Hunt command-line client: the logic of resolving Apify credentials,
//! building the scraper requests, interpreting the API's answers and mapping
//! failures onto the error envelope and exit codes that agents depend on.

pub mod account;
pub mod cli;
pub mod client;
pub mod commands;
pub mod config;
pub mod error;
pub mod grammar;
pub mod json;
pub mod output;
pub mod readme;
pub mod text;
