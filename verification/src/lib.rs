//! Identity and access layer in front of a user directory.
//!
//! The crate registers accounts, checks credentials, issues and validates
//! bearer tokens, and guards protected operations. It performs no I/O of its
//! own: the caller talks to the persistence gateway and the HTTP transport and
//! hands their answers to the functions here as plain values.

pub mod auth;
pub mod config;
pub mod controllers;
pub mod directory;
pub mod errors;
pub mod gateway;
pub mod models;
pub mod password;
pub mod response;
pub mod services;
pub mod text;
pub mod token;
