//! Peer discovery and coordination metadata.

use vstd::prelude::*;

use crate::clock::Timestamp;
use crate::ids::{DeviceId, PeerId, UserId};

verus! {

/// Where peers are discovered.
#[derive(Clone, Copy, Debug, PartialEq, Eq, Structural)]
pub enum DiscoveryBackend {
    CoordinationServer,
    Mdns,
    DnsSd,
    BluetoothLe,
    BrowserSignaling,
    StaticConfig,
}

/// Last known reachability of a peer.
#[derive(Clone, Copy, Debug, PartialEq, Eq, Structural)]
pub enum PeerPresence {
    Online,
    Idle,
    Offline,
    Unknown,
}

/// An address at which a peer can be reached; lower priority values are
/// preferred by application policy.
#[derive(Clone, Debug, PartialEq, Eq)]
pub struct PeerEndpoint {
    pub address: String,
    pub port: u16,
    pub transport: EndpointTransport,
    pub priority: u16,
}

/// The kind of connection an endpoint accepts.
#[derive(Clone, Copy, Debug, PartialEq, Eq, Structural)]
pub enum EndpointTransport {
    Udp,
    Tcp,
    WebRtc,
    WebSocket,
    Relay,
}

/// Everything known about a peer device.
#[derive(Clone, Debug, PartialEq, Eq)]
pub struct PeerDescriptor {
    pub peer_id: PeerId,
    pub user_id: UserId,
    pub device_id: DeviceId,
    pub display_name: String,
    pub endpoints: Vec<PeerEndpoint>,
    pub relay_regions: Vec<String>,
    pub presence: PeerPresence,
    pub last_seen: Timestamp,
}

/// A signed statement a device publishes about itself.
#[derive(Clone, Debug, PartialEq, Eq)]
pub struct DiscoveryAnnouncement {
    pub descriptor: PeerDescriptor,
    pub capabilities: Vec<String>,
    pub signed_at: Timestamp,
    pub signature: Vec<u8>,
}

} // verus!
