//! Verified core of a data-migration tool that copies scanned documents from
//! a MySQL table into a MongoDB collection.
//!
//! The library holds the decisions: configuration checks, the interactive menu
//! as a state machine, the migration run as a state machine, the shape of the
//! MongoDB documents and updates, and the per-document checks of the size and
//! date back-fill. Connections, queries and terminal I/O live outside it.
pub mod text;

pub mod configuration;
pub mod menu;
pub mod models;
pub mod services;
