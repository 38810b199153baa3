//! A minimal HTTP API skeleton: configuration resolution, logical database
//! naming, a fixed route table, and request handlers that build typed JSON
//! response records. Everything here is pure logic with verified contracts;
//! the surrounding process (environment lookup, the TCP listener, the
//! document-database driver) lives outside this crate.

pub mod app_state;
pub mod config;
pub mod database;
pub mod handlers;
pub mod router;
