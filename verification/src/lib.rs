//! A Model Context Protocol server for metacontract projects: the verified core.
//! It turns documentation into searchable text and chunks, holds the configuration, and
//! decides what each tool runs and answers; the caller performs the I/O.
use vstd::prelude::*;

pub mod chunking;
pub mod config;
pub mod docker;
pub mod domain;
pub mod file_system;
pub mod handler;
pub mod initialization;
pub mod markdown;
pub mod reference_service;
pub mod simple_server;
pub mod text;
pub mod vector_db;

verus! {

/// Adds two numbers.
pub fn add(left: u64, right: u64) -> (sum: u64)
    requires
        left + right <= u64::MAX,
    ensures
        sum == left + right,
{
    left + right
}

} // verus!
