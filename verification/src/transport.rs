//! Secure transport descriptions: paths, frames and connection policy.

use vstd::prelude::*;

use crate::clock::Timestamp;
use crate::error::SyncholeError;
use crate::ids::{PeerId, SessionId};

verus! {

/// Cipher suites a session can negotiate.
#[derive(Clone, Copy, Debug, PartialEq, Eq, Structural)]
pub enum CipherSuite {
    NoiseX25519ChaChaPolyBlake3,
    Tls13AesGcm,
    WebRtcDtlsSrtp,
}

/// The path a connection takes between two peers.
#[derive(Clone, Copy, Debug, PartialEq, Eq, Structural)]
pub enum TransportPath {
    DirectUdp,
    NatTraversalUdp,
    DirectTcp,
    WebRtcDataChannel,
    Relay,
}

/// The class of traffic a frame carries.
#[derive(Clone, Copy, Debug, PartialEq, Eq, Structural)]
pub enum PacketClass {
    Control,
    SyncDelta,
    SnapshotChunk,
    KeepAlive,
}

/// One frame on an encrypted stream.
#[derive(Clone, Debug, PartialEq, Eq)]
pub struct TransportFrame {
    pub session_id: SessionId,
    pub stream_id: u64,
    pub sequence: u64,
    pub class: PacketClass,
    pub created_at: Timestamp,
    pub payload: Vec<u8>,
}

/// How a connection is to be established.
#[derive(Clone, Debug, PartialEq, Eq)]
pub struct ConnectionPolicy {
    pub preferred_paths: Vec<TransportPath>,
    pub max_frame_bytes: usize,
    pub require_forward_secrecy: bool,
}

impl Default for ConnectionPolicy {
    /// Direct paths first, relay last.
    fn default() -> (res: Self)
        ensures
            res.preferred_paths@ == seq![
                TransportPath::DirectUdp,
                TransportPath::NatTraversalUdp,
                TransportPath::DirectTcp,
                TransportPath::WebRtcDataChannel,
                TransportPath::Relay,
            ],
            res.max_frame_bytes == 1_048_576,
            res.require_forward_secrecy,
    {
        let mut preferred_paths = Vec::new();
        preferred_paths.push(TransportPath::DirectUdp);
        preferred_paths.push(TransportPath::NatTraversalUdp);
        preferred_paths.push(TransportPath::DirectTcp);
        preferred_paths.push(TransportPath::WebRtcDataChannel);
        preferred_paths.push(TransportPath::Relay);
        ConnectionPolicy { preferred_paths, max_frame_bytes: 1_048_576, require_forward_secrecy: true }
    }
}

/// The path chosen to reach a peer.
#[derive(Clone, Debug, PartialEq, Eq)]
pub struct PathSelection {
    pub peer_id: PeerId,
    pub selected_path: TransportPath,
    pub expected_rtt_ms: Option<u32>,
    pub relay_region: Option<String>,
}

/// Counters of a live connection.
#[derive(Clone, Copy, Debug, PartialEq, Eq, Structural)]
pub struct TransportMetrics {
    pub path: TransportPath,
    pub sent_bytes: u64,
    pub received_bytes: u64,
    pub rtt_ms: Option<u32>,
    pub retransmits: u64,
}

/// Authenticated encryption of session frames, provided by the application.
pub trait SessionCrypto {
    fn cipher_suite(&self) -> CipherSuite;

    fn seal(&self, sequence: u64, aad: &[u8], plaintext: &[u8]) -> Result<Vec<u8>, SyncholeError>;

    fn open(&self, sequence: u64, aad: &[u8], ciphertext: &[u8]) -> Result<Vec<u8>, SyncholeError>;
}

} // verus!
