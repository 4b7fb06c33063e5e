//! Panic reporting for targets without an operating system.
//!
//! On an unrecoverable fault the embedding firmware renders what is known of
//! the fault as one line of text, sends it to a serial sink it registered
//! beforehand, and halts. This crate holds the logic of that path: the text of
//! the line for each configuration, the slot that owns the sink, and the order
//! of the sink operations up to the halt.

pub mod config;
pub mod decimal;
pub mod record;
pub mod registry;
pub mod render;
pub mod reporter;
