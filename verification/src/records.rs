//! The records a store keeps: keyed objects with their payload, version and
//! timestamp, and the change log that replication scans.

use vstd::prelude::*;

use crate::clock::Timestamp;
use crate::config::StorageMode;
use crate::ids::{CollectionId, ObjectId};
use crate::util::copy_bytes;
use crate::version::VersionVector;

verus! {

/// An object key as character strings.
pub struct ObjectKeyView {
    pub collection: Seq<char>,
    pub object_id: Seq<char>,
}

/// Identifies an object: the collection it belongs to and its id there.
#[derive(Debug, PartialOrd, Ord, Hash)]
pub struct ObjectKey {
    pub collection: CollectionId,
    pub object_id: ObjectId,
}

impl View for ObjectKey {
    type V = ObjectKeyView;

    open spec fn view(&self) -> ObjectKeyView {
        ObjectKeyView { collection: self.collection@, object_id: self.object_id@ }
    }
}

impl ObjectKey {
    pub fn new(collection: CollectionId, object_id: ObjectId) -> (res: Self)
        ensures
            res@ == (ObjectKeyView { collection: collection@, object_id: object_id@ }),
    {
        ObjectKey { collection, object_id }
    }
}

impl Clone for ObjectKey {
    fn clone(&self) -> (res: Self)
        ensures
            res@ == self@,
    {
        ObjectKey { collection: self.collection.clone(), object_id: self.object_id.clone() }
    }
}

impl PartialEq for ObjectKey {
    fn eq(&self, other: &Self) -> (res: bool) {
        self.collection == other.collection && self.object_id == other.object_id
    }
}

impl Eq for ObjectKey {}

impl vstd::std_specs::cmp::PartialEqSpecImpl for ObjectKey {
    open spec fn obeys_eq_spec() -> bool {
        true
    }

    open spec fn eq_spec(&self, other: &ObjectKey) -> bool {
        self@ == other@
    }
}

/// A payload as plain values.
pub enum PayloadView {
    Binary { codec: Seq<char>, bytes: Seq<u8> },
    SqlRow { table: Seq<char>, row: Seq<char> },
    Document(Seq<char>),
}

/// What an object holds, in one of the three storage modes.
#[derive(Debug, PartialEq, Eq)]
pub enum StoragePayload {
    /// An opaque blob encoded by the named codec.
    Binary { codec: String, bytes: Vec<u8> },
    /// A relational row of `table`, as the JSON text of its column map.
    SqlRow { table: String, row: String },
    /// A document, as JSON text.
    Document(String),
}

impl View for StoragePayload {
    type V = PayloadView;

    open spec fn view(&self) -> PayloadView {
        match self {
            StoragePayload::Binary { codec, bytes } => PayloadView::Binary { codec: codec@, bytes: bytes@ },
            StoragePayload::SqlRow { table, row } => PayloadView::SqlRow { table: table@, row: row@ },
            StoragePayload::Document(value) => PayloadView::Document(value@),
        }
    }
}

/// The storage mode a payload belongs to.
pub open spec fn payload_mode(payload: PayloadView) -> StorageMode {
    match payload {
        PayloadView::Binary { .. } => StorageMode::Binary,
        PayloadView::SqlRow { .. } => StorageMode::Sql,
        PayloadView::Document(_) => StorageMode::Document,
    }
}

impl StoragePayload {
    pub fn mode(&self) -> (res: StorageMode)
        ensures
            res == payload_mode(self@),
    {
        match self {
            StoragePayload::Binary { .. } => StorageMode::Binary,
            StoragePayload::SqlRow { .. } => StorageMode::Sql,
            StoragePayload::Document(_) => StorageMode::Document,
        }
    }
}

impl Clone for StoragePayload {
    fn clone(&self) -> (res: Self)
        ensures
            res@ == self@,
    {
        match self {
            StoragePayload::Binary { codec, bytes } => StoragePayload::Binary {
                codec: codec.clone(),
                bytes: copy_bytes(bytes.as_slice()),
            },
            StoragePayload::SqlRow { table, row } => StoragePayload::SqlRow { table: table.clone(), row: row.clone() },
            StoragePayload::Document(value) => StoragePayload::Document(value.clone()),
        }
    }
}

/// A stored object as plain values.
pub struct StoredObjectView {
    pub key: ObjectKeyView,
    pub payload: PayloadView,
    pub version: Map<Seq<char>, u64>,
    pub updated_at: Timestamp,
    pub deleted: bool,
}

/// An object with its payload, version vector, last update time and
/// tombstone bit.
#[derive(Debug, PartialEq)]
pub struct StoredObject {
    pub key: ObjectKey,
    pub payload: StoragePayload,
    pub version: VersionVector,
    pub updated_at: Timestamp,
    pub deleted: bool,
}

impl View for StoredObject {
    type V = StoredObjectView;

    open spec fn view(&self) -> StoredObjectView {
        StoredObjectView {
            key: self.key@,
            payload: self.payload@,
            version: self.version@,
            updated_at: self.updated_at,
            deleted: self.deleted,
        }
    }
}

impl StoredObject {
    /// A live (not deleted) object.
    pub fn new(
        collection: CollectionId,
        object_id: ObjectId,
        payload: StoragePayload,
        version: VersionVector,
        updated_at: Timestamp,
    ) -> (res: Self)
        ensures
            res@ == (StoredObjectView {
                key: ObjectKeyView { collection: collection@, object_id: object_id@ },
                payload: payload@,
                version: version@,
                updated_at,
                deleted: false,
            }),
    {
        StoredObject {
            key: ObjectKey::new(collection, object_id),
            payload,
            version,
            updated_at,
            deleted: false,
        }
    }
}

impl Clone for StoredObject {
    fn clone(&self) -> (res: Self)
        ensures
            res@ == self@,
    {
        StoredObject {
            key: self.key.clone(),
            payload: self.payload.clone(),
            version: self.version.clone(),
            updated_at: self.updated_at,
            deleted: self.deleted,
        }
    }
}

/// A position in the change log.
#[derive(Clone, Copy, Debug, PartialEq, Eq, Structural, PartialOrd, Ord, Hash)]
pub struct ChangeCursor(pub u64);

impl Default for ChangeCursor {
    /// The position before the first change.
    fn default() -> (res: Self)
        ensures
            res == ChangeCursor(0),
    {
        ChangeCursor(0)
    }
}

/// What a change did.
#[derive(Clone, Copy, Debug, PartialEq, Eq, Structural)]
pub enum ChangeOperation {
    Put,
    Delete,
}

/// One entry of the change log.
#[derive(Clone, Debug, PartialEq, Eq)]
pub struct ChangeRecord {
    pub cursor: ChangeCursor,
    pub key: ObjectKey,
    pub version: VersionVector,
    pub operation: ChangeOperation,
    pub updated_at: Timestamp,
}

/// A page of the change log and where the next page starts.
#[derive(Clone, Debug, PartialEq, Eq)]
pub struct ChangePage {
    pub records: Vec<ChangeRecord>,
    pub next_cursor: Option<ChangeCursor>,
}

} // verus!
