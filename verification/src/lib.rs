//! Device-to-device synchronization: identifiers, hybrid logical clocks,
//! version vectors, trust policy, storage records and the conflict rules of
//! the sync protocol.

pub mod ids;

pub use ids::{CollectionId, DeviceId, ObjectId, PeerId, SessionId, UserId};
pub mod error;
pub mod clock;

pub use clock::{HybridLogicalClock, Timestamp};
pub use error::SyncholeError;
pub mod text_order;
pub mod version;

pub use version::{Causality, VersionVector};
pub mod config;
pub mod discovery;
pub mod traversal;
pub mod relay;
pub mod transport;

pub use config::{
    BatteryPolicy, ConnectionPreference, Platform, RetryPolicy, StorageMode, SyncholeConfig,
    TransportPolicy,
};
pub use discovery::{
    DiscoveryAnnouncement, DiscoveryBackend, EndpointTransport, PeerDescriptor, PeerEndpoint,
    PeerPresence,
};
pub use traversal::{Candidate, CandidateKind, CandidateProtocol, HolePunchPlan, NatReport, NatType};
pub use relay::{RelayPolicy, RelayRegion, RelayReservation};
pub use transport::{
    CipherSuite, ConnectionPolicy, PacketClass, PathSelection, SessionCrypto, TransportFrame,
    TransportMetrics, TransportPath,
};
pub mod identity;
mod util;

pub use identity::{
    AllowListTrustPolicy, DeviceIdentity, EnrollmentToken, IdentityAttestation,
    IdentityFingerprint, KeyAlgorithm, PublicKeyBytes, SecretKeyMaterial, SignatureBytes,
    TrustPolicy,
};
pub mod codec;
pub mod pragmas;
pub mod storage_config;

pub use codec::CodecId;
pub use pragmas::PragmaSettings;
pub use storage_config::{Migration, MigrationPlan, MigrationStep, StorageConfig};
pub mod records;

pub use records::{
    ChangeCursor, ChangeOperation, ChangePage, ChangeRecord, ObjectKey, StoragePayload,
    StoredObject,
};
pub mod sync;

pub use sync::{
    ApplyReport, Conflict, ConflictResolver, KeepBothResolver, LastWriterWinsResolver, Resolution,
    SyncMessage, SyncReport, SyncScope,
};
pub mod sqlite_rows;
pub mod bindings;
pub mod facade;

pub use bindings::{
    synchole_storage_mode, synchole_storage_mode_is_valid, synchole_version_major,
    AppleRuntimeConfig, BindingStorageConfig, WasmSyncholeConfig,
};
