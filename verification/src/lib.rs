//! A single authentication token kept in the operating system's credential
//! vault, under one fixed service and account.
//!
//! The vault reports an absent secret as a failure of its own kind. This crate
//! decides what each report means to a caller: absence is data when reading and
//! success when deleting, and every other failure is the vault's message.
//!
//! - [`commands`] answers the three commands from what the vault reported.
//! - [`memory`] is a vault in memory that reports as the real one does.
//! - [`store`] is the credential store over that vault.
//! - [`laws`] states what holds of the store and of the commands for every
//!   token.

pub mod commands;
pub mod error;
pub mod laws;
pub mod memory;
pub mod store;
