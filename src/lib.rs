//! A verified safety layer over a callback-driven native object system:
//! the tri-state result convention, read-only foreign dictionaries,
//! subscription bookkeeping for native event tables, remote object binding
//! and the lifetime rules of factory-built objects.

pub mod context;
pub mod dict;
pub mod info;
pub mod listener;
pub mod main_loop;
pub mod plugin;
pub mod proxy;
pub mod registry;
pub mod result;
mod shared;
pub mod types;
