//! Instruction encoding and deterministic addressing for a remote
//! state-storage program and its delegated ephemeral execution layer.
pub mod account;
mod bytes;
pub mod config;
pub mod error;
pub mod instructions;
pub mod lifecycle;
pub mod mojo_types;
pub mod pda;
pub mod profile;
pub mod world;
