//! Persistent configuration core for a command-line tool that manages named
//! profiles, each pointing at an external installation directory.
//!
//! The library holds the configuration data model, schema migration, profile
//! lookup and mutation, the post-load repair rule, and SDK path resolution.
//! Reading and writing the configuration document on disk, and querying the
//! operating system for the platform root, are left to the surrounding
//! application.

pub mod config;
pub mod jsonval;
pub mod legacy;
pub mod profile;
pub mod sdk;
