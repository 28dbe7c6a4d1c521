//! Relay fallback: regions, reservations and the policy for using them.

use vstd::prelude::*;

use crate::ids::PeerId;

verus! {

/// A relay region and its endpoints.
#[derive(Clone, Debug, PartialEq, Eq)]
pub struct RelayRegion {
    pub id: String,
    pub display_name: String,
    pub endpoints: Vec<String>,
    pub priority: u16,
}

/// A reserved slot on a relay.
#[derive(Clone, Debug, PartialEq, Eq)]
pub struct RelayReservation {
    pub region_id: String,
    pub relay_peer_id: PeerId,
    pub expires_at_ms: u64,
    pub resume_token: Vec<u8>,
}

/// Limits on relay use.
#[derive(Clone, Debug, PartialEq, Eq)]
pub struct RelayPolicy {
    pub allowed_regions: Vec<String>,
    pub max_buffered_bytes: usize,
    pub require_e2e_encryption: bool,
}

impl Default for RelayPolicy {
    fn default() -> (res: Self)
        ensures
            res.allowed_regions@.len() == 0,
            res.max_buffered_bytes == 16 * 1_048_576,
            res.require_e2e_encryption,
    {
        RelayPolicy {
            allowed_regions: Vec::new(),
            max_buffered_bytes: 16 * 1_048_576,
            require_e2e_encryption: true,
        }
    }
}

} // verus!
