//! Delivers versioned game content: patches an installation from a version
//! manifest after verifying the patch's digest, or installs a version from
//! a content-addressed chunk store. Each workflow is a session that decides
//! every step and reports progress on a stream ending in one sentinel; the
//! caller performs the network, file and process work the session asks for.

pub mod config;
pub mod error;
pub mod install;
pub mod integrity;
pub mod manifest;
pub mod progress;
pub mod proton;
pub mod scan;
pub mod update;
