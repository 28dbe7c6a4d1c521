//! The error taxonomy shared by the whole library.

use vstd::prelude::*;

verus! {

/// What went wrong, with a human-readable detail.
#[derive(Debug)]
pub enum SyncholeError {
    Identity(String),
    Discovery(String),
    Transport(String),
    NatTraversal(String),
    Relay(String),
    Storage(String),
    Sync(String),
    Conflict(String),
    PermissionDenied(String),
    InvalidInput(String),
    UnsupportedPlatform(String),
    Timeout(String),
}

} // verus!
