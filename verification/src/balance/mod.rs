//! The LLM balance tracker: configured providers, their adapters, and the
//! decisions of the balance, usage and key-store commands.
pub mod config;
pub mod providers;
pub mod commands;
pub mod keychain;
pub mod notification;
