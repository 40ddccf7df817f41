//! Supervision of one long-running worker process and its line-oriented
//! control protocol: the lifecycle state machine (spawn, terminate, status),
//! the JSON-lines command codec written to the worker's input stream, the
//! classification of the lines read off its output and error streams, and
//! the platform-specific launch and tree-kill plans. The OS calls themselves
//! — spawning, signalling, reading and writing pipes — are left to a thin
//! unverified shell that follows the plans decided here.
use vstd::prelude::*;

pub mod codec;
pub mod logpump;
pub mod plan;
pub mod supervisor;
pub mod text;

verus! {

/// Either side of the platform split: POSIX hosts signal process groups,
/// Windows hosts kill process trees by id.
#[derive(Clone, Copy, PartialEq, Eq, Structural, Debug)]
pub enum Platform {
    Windows,
    Posix,
}

} // verus!
