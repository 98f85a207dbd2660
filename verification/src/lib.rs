//! A minimal self-updater library.
//!
//! A remote manifest lists the files an installation should hold together
//! with the MD5 fingerprint of each.  This crate holds the verified half of
//! the updater: parsing the manifest's timestamp, diffing the manifest
//! against a snapshot of the local directory, and planning which files to
//! delete and which to download.  Fetching the manifest, hashing local
//! files' bytes and executing the plan are left to the thin binary around
//! the library, which hands plain values in and takes plain values back.

pub mod digest;
pub mod error;
pub mod laws;
pub mod manifest;
pub mod reconcile;
pub mod snapshot;
pub mod update;
