//! NAT traversal descriptions for direct peer paths.

use vstd::prelude::*;

verus! {

/// The kind of NAT a device sits behind.
#[derive(Clone, Copy, Debug, PartialEq, Eq, Structural)]
pub enum NatType {
    OpenInternet,
    FullCone,
    RestrictedCone,
    PortRestrictedCone,
    Symmetric,
    Unknown,
}

/// How a connectivity candidate was obtained.
#[derive(Clone, Copy, Debug, PartialEq, Eq, Structural)]
pub enum CandidateKind {
    Host,
    ServerReflexive,
    PeerReflexive,
    Relay,
}

/// A connectivity candidate.
#[derive(Clone, Debug, PartialEq, Eq)]
pub struct Candidate {
    pub kind: CandidateKind,
    pub address: String,
    pub port: u16,
    pub protocol: CandidateProtocol,
    pub priority: u32,
}

/// The protocol a candidate speaks.
#[derive(Clone, Copy, Debug, PartialEq, Eq, Structural)]
pub enum CandidateProtocol {
    Udp,
    Tcp,
    WebRtcDataChannel,
}

/// A plan for simultaneous open between two peers.
#[derive(Clone, Debug, PartialEq, Eq)]
pub struct HolePunchPlan {
    pub local_candidates: Vec<Candidate>,
    pub remote_candidates: Vec<Candidate>,
    pub simultaneous_open_window_ms: u64,
    pub max_attempts: u8,
}

/// The result of probing the local NAT.
#[derive(Clone, Debug, PartialEq, Eq)]
pub struct NatReport {
    pub nat_type: NatType,
    pub public_candidates: Vec<Candidate>,
    pub hairpinning_supported: bool,
}

} // verus!
