//! The configuration of a chat program: its settings, its roles, its models and its sessions.
//!
//! What a role, a session or a client does of its own is handed in as a function. Each contract
//! holds for whatever such a function answers, and says what it is asked.
pub mod client;
pub mod config;
pub mod dialogue;
pub mod error;
pub mod info;
pub mod keybindings;
pub mod laws;
pub mod legacy;
pub mod models;
pub mod paths;
pub mod role;
pub mod session;
pub mod sessions;
pub mod startup;
pub mod text;
