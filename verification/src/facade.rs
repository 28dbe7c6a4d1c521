//! What the SDK facade computes before it talks to the store: the objects a
//! put writes and the checks of the builder.

use vstd::prelude::*;

use crate::clock::Timestamp;
use crate::error::SyncholeError;
use crate::ids::{CollectionId, ObjectId};
use crate::records::{ObjectKeyView, PayloadView, StoragePayload, StoredObject, StoredObjectView};
use crate::version::VersionVector;

verus! {

/// The object an application's binary put writes: an octet-stream blob with
/// an empty version vector and the zero timestamp.
pub fn binary_object(collection: CollectionId, object_id: ObjectId, bytes: Vec<u8>) -> (res: StoredObject)
    ensures
        res@ == (StoredObjectView {
            key: ObjectKeyView { collection: collection@, object_id: object_id@ },
            payload: PayloadView::Binary { codec: "application/octet-stream"@, bytes: bytes@ },
            version: Map::empty(),
            updated_at: Timestamp { wall_time_ms: 0, logical: 0 },
            deleted: false,
        }),
{
    StoredObject::new(
        collection,
        object_id,
        StoragePayload::Binary { codec: "application/octet-stream".to_owned(), bytes },
        VersionVector::new(),
        Timestamp::default(),
    )
}

/// The object an application's document put writes: the document (as JSON
/// text) with an empty version vector and the zero timestamp.
pub fn document_object(collection: CollectionId, object_id: ObjectId, document: String) -> (res: StoredObject)
    ensures
        res@ == (StoredObjectView {
            key: ObjectKeyView { collection: collection@, object_id: object_id@ },
            payload: PayloadView::Document(document@),
            version: Map::empty(),
            updated_at: Timestamp { wall_time_ms: 0, logical: 0 },
            deleted: false,
        }),
{
    StoredObject::new(
        collection,
        object_id,
        StoragePayload::Document(document),
        VersionVector::new(),
        Timestamp::default(),
    )
}

/// The builder cannot finish without a storage backend.
pub fn required_storage<S>(storage: Option<S>) -> (res: Result<S, SyncholeError>)
    ensures
        storage matches Some(s) ==> res == Ok::<S, SyncholeError>(s),
        storage is None ==> (res matches Err(SyncholeError::InvalidInput(m)) && m@
            == "SyncholeBuilder requires a storage backend"@),
{
    match storage {
        Some(s) => Ok(s),
        None => Err(SyncholeError::InvalidInput("SyncholeBuilder requires a storage backend".to_owned())),
    }
}

} // verus!
