//! Decision logic of a supervisor that keeps one game-server process running on the newest
//! release of its software.
//!
//! Nothing in this crate touches a process, a socket, a clock or the disk. The supervisor
//! and the update controller are state machines: a driver performs the action a machine
//! asks for, reports what happened as an event, and is told what to do next.

pub mod signals;

pub mod api;
pub mod archive;
pub mod bridge;
pub mod download;
pub mod environment;
pub mod filesystem;
pub mod launch;
pub mod update;
