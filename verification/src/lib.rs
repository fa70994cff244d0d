//! Enforcement engine of a license agent: the verification protocol, the
//! kill state machine, the health record shared with a supervisor, and the
//! plan by which a file is overwritten before it is removed.

pub mod config;
pub mod controller;
pub mod destruct;
pub mod digest;
pub mod embedded;
pub mod fingerprint;
pub mod health;
pub mod kill;
pub mod network;
pub mod platform;
pub mod process;
pub mod signature;
pub mod text;
