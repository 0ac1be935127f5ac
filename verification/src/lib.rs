//! A locking-and-transfer protocol for a simulated warehouse.
//!
//! Entities ("objects") own a storage of item identifiers and a location, and
//! carry an advisory lock flag. A two-phase transfer command acquires the
//! lock of both endpoints (`initialize`) and then exchanges their storage
//! contents and releases the locks (`consume`).

pub mod command;
pub mod error;
pub mod object;
pub mod render;
pub mod storage;

pub use error::ErrorKind;
pub use storage::Storage;
