//! A manifest-driven file updater built around the BSDIFF40 binary delta
//! format.
//!
//! The crate is organised leaves-first:
//!
//! * [`codec`] — the sign-magnitude 8-byte integer codec and the hex digest
//!   parser.
//! * [`sha`] — SHA-1 digests of byte strings, behind a trusted wrapper.
//! * [`bz`] — bzip2 decompression of byte strings, behind a trusted wrapper.
//! * [`patch`] — the BSDIFF40 patch engine: applies a patch blob to the old
//!   file bytes and produces the new file bytes.
//! * [`manifest`] — the manifest document model and the per-entry field
//!   extraction rules.
//! * [`update`] — the update driver as two state machines: one for a single
//!   download-verify-extract cycle, one for the whole life of one manifest
//!   entry. An unverified host loop performs the I/O each machine asks for
//!   and feeds the outcome back in.
//!
//! File names, manifest keys and architecture tags are carried as byte
//! strings (`Vec<u8>`) throughout.

pub mod bz;
pub mod codec;
pub mod error;
pub mod manifest;
pub mod patch;
pub mod sha;
pub mod update;
