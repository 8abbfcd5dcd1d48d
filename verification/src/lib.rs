//! Core of a passphrase-protected file-encryption vault.
//!
//! A randomly generated 32-byte master key encrypts user files with
//! AES-256-GCM; the master key itself is stored only in wrapped form, sealed
//! under a key derived from the user's passphrase with Argon2id. The modules
//! cover the key hierarchy and its on-disk key-file format, the per-file
//! encryption format, the batch-processing skeleton with progress reporting
//! and cooperative cancellation, and the single-pass secure-deletion
//! algorithm. The host around this crate contributes only I/O: it reads and
//! writes the bytes, walks directories, and delivers the events this crate
//! produces.

pub mod batch;
pub mod bytes;
pub mod crypto;
pub mod errors;
pub mod files;
pub mod keyfile;
pub mod laws;
pub mod names;
pub mod state;
pub mod vault;
pub mod wipe;
