//! Package-management toolchain: versions and requirements, a prioritized
//! catalog of packages, the manifest of filesystem actions that describes a
//! package, and the binary container that ships it.

use vstd::prelude::*;

pub mod text;
pub mod paths;
pub mod platform;
pub mod version;
pub mod action;
pub mod requirement;
pub mod package;
pub mod repo;
pub mod zpkg;
pub mod provider;
pub mod fs;
pub mod config;

verus! {

/// The life-cycle step for which an action is realized.
#[derive(Copy, Clone, Debug, PartialEq, Eq, Structural)]
pub enum Phase {
    Install,
    Remove,
    Package,
    Configure,
    NOOP,
    Validate,
}

} // verus!
