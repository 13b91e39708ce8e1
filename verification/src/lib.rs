//! Decision core of a daemon that lets Minecraft servers nap.
//!
//! The daemon listens in place of each server, launches the server when somebody logs in,
//! proxies to it while it runs and stops it once nobody has used it for a while. This crate
//! holds every rule of that: the wire protocols, the configuration rules, and the state
//! machines of the supervisor, the runtime and the coordinator. It performs no input or
//! output; the program around it does, and feeds back what happened.

pub mod backend_use;
pub mod bytes;
pub mod cli;
pub mod config;
pub mod context;
pub mod control;
pub mod coordinator;
pub mod endpoint;
pub mod json;
pub mod minecraft;
pub mod process;
pub mod random;
pub mod rcon;
pub mod runtime;
pub mod supervisor;
pub mod text;
