//! Request building, credential resolution and response handling for a
//! command-line client of the Apify Reddit scraper, with its contracts proved.

pub mod text;
pub mod error;
pub mod client;
pub mod config;
pub mod json;
pub mod account;
pub mod cli;
pub mod commands;
pub mod readme;
pub mod accounts;
