//! Pre-flight probes of a machine that is about to be migrated: which block
//! devices are mounted, which CPU architecture runs, whether Secure Boot is
//! on, where helper executables live, whether an endpoint answers, and the
//! steps of making scratch space and of mounting a staging file system.
//!
//! The probes never touch the machine themselves. Each one says what it needs
//! next as a [`effect::Request`] and decides on the [`effect::Reply`] that the
//! caller brings back.

pub mod arch;
pub mod defs;
pub mod effect;
pub mod error;
pub mod mount;
pub mod mounter;
pub mod net;
pub mod pattern;
pub mod scratch;
pub mod secure_boot;
pub mod text;
pub mod whereis;
