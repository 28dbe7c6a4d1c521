//! How objects and changes are laid out in the SQLite tables: the columns a
//! payload fills, how a row is read back, the conversions between
//! timestamps and integer columns, and the bounds of a change-log scan.

use vstd::prelude::*;

use crate::clock::Timestamp;
use crate::error::SyncholeError;
use crate::ids::{CollectionId, ObjectId};
use crate::records::{
    ChangeCursor, ChangeOperation, ChangePage, ChangeRecord, ObjectKey, ObjectKeyView, PayloadView,
    StoragePayload, StoredObject, StoredObjectView,
};
use crate::util::copy_bytes;
use crate::version::VersionVector;

verus! {

/// The label a change operation is logged under.
pub open spec fn operation_name(operation: ChangeOperation) -> Seq<char> {
    match operation {
        ChangeOperation::Put => "put"@,
        ChangeOperation::Delete => "delete"@,
    }
}

pub fn operation_label(operation: &ChangeOperation) -> (res: &'static str)
    ensures
        res@ == operation_name(*operation),
{
    match operation {
        ChangeOperation::Put => "put",
        ChangeOperation::Delete => "delete",
    }
}

/// Reads back a logged operation label.
pub fn parse_operation(value: &str) -> (res: Result<ChangeOperation, SyncholeError>)
    ensures
        value@ == "put"@ ==> res == Ok::<ChangeOperation, SyncholeError>(ChangeOperation::Put),
        value@ == "delete"@ ==> res == Ok::<ChangeOperation, SyncholeError>(ChangeOperation::Delete),
        value@ != "put"@ && value@ != "delete"@ ==> (res matches Err(SyncholeError::Storage(m)) && m@
            == "unknown change operation: "@ + value@),
{
    proof {
        reveal_strlit("put");
        reveal_strlit("delete");
        assert("put"@.len() != "delete"@.len());
    }
    let owned = value.to_owned();
    if owned == "put".to_owned() {
        Ok(ChangeOperation::Put)
    } else if owned == "delete".to_owned() {
        Ok(ChangeOperation::Delete)
    } else {
        let mut message = "unknown change operation: ".to_owned();
        message.append(value);
        Err(SyncholeError::Storage(message))
    }
}

/// A storage error carrying `message`.
pub fn to_storage_error(message: String) -> (res: SyncholeError)
    ensures
        res matches SyncholeError::Storage(m) && m@ == message@,
{
    SyncholeError::Storage(message)
}

/// The statement that sets one SQLite pragma.
pub fn pragma_statement(name: &str, value: &str) -> (res: String)
    ensures
        res@ == "PRAGMA "@ + name@ + " = "@ + value@,
{
    let mut sql = "PRAGMA ".to_owned();
    sql.append(name);
    sql.append(" = ");
    sql.append(value);
    sql
}

/// The payload columns of an object row.
pub struct PayloadColumns {
    pub mode: String,
    pub codec: Option<String>,
    pub table_name: Option<String>,
    pub payload: Option<Vec<u8>>,
    pub json_payload: Option<String>,
    pub row_payload: Option<String>,
}

/// The characters of an optional text column.
pub open spec fn text_column(column: Option<String>) -> Option<Seq<char>> {
    match column {
        Some(s) => Some(s@),
        None => None,
    }
}

/// The bytes of an optional blob column.
pub open spec fn blob_column(column: Option<Vec<u8>>) -> Option<Seq<u8>> {
    match column {
        Some(b) => Some(b@),
        None => None,
    }
}

/// The columns a payload fills: a mode label, and the codec and blob, the
/// table and row JSON, or the document JSON.
pub open spec fn columns_match(payload: PayloadView, c: PayloadColumns) -> bool {
    match payload {
        PayloadView::Binary { codec, bytes } => {
            &&& c.mode@ == "binary"@
            &&& text_column(c.codec) == Some(codec)
            &&& c.table_name is None
            &&& blob_column(c.payload) == Some(bytes)
            &&& c.json_payload is None
            &&& c.row_payload is None
        },
        PayloadView::SqlRow { table, row } => {
            &&& c.mode@ == "sql"@
            &&& c.codec is None
            &&& text_column(c.table_name) == Some(table)
            &&& c.payload is None
            &&& c.json_payload is None
            &&& text_column(c.row_payload) == Some(row)
        },
        PayloadView::Document(json) => {
            &&& c.mode@ == "document"@
            &&& c.codec is None
            &&& c.table_name is None
            &&& c.payload is None
            &&& text_column(c.json_payload) == Some(json)
            &&& c.row_payload is None
        },
    }
}

/// Lays a payload out in the object table's columns.
pub fn payload_columns(payload: &StoragePayload) -> (res: PayloadColumns)
    ensures
        columns_match(payload@, res),
{
    match payload {
        StoragePayload::Binary { codec, bytes } => PayloadColumns {
            mode: "binary".to_owned(),
            codec: Some(codec.clone()),
            table_name: None,
            payload: Some(copy_bytes(bytes.as_slice())),
            json_payload: None,
            row_payload: None,
        },
        StoragePayload::SqlRow { table, row } => PayloadColumns {
            mode: "sql".to_owned(),
            codec: None,
            table_name: Some(table.clone()),
            payload: None,
            json_payload: None,
            row_payload: Some(row.clone()),
        },
        StoragePayload::Document(value) => PayloadColumns {
            mode: "document".to_owned(),
            codec: None,
            table_name: None,
            payload: None,
            json_payload: Some(value.clone()),
            row_payload: None,
        },
    }
}

/// The timestamp columns of a row: the wall time and the logical counter as
/// SQLite integers.
pub fn timestamp_columns(updated_at: Timestamp) -> (res: Result<(i64, i64), SyncholeError>)
    ensures
        updated_at.wall_time_ms <= i64::MAX ==> res == Ok::<(i64, i64), SyncholeError>(
            (updated_at.wall_time_ms as i64, updated_at.logical as i64),
        ),
        updated_at.wall_time_ms > i64::MAX ==> (res matches Err(SyncholeError::Storage(m)) && m@
            == "timestamp too large"@),
{
    if updated_at.wall_time_ms > i64::MAX as u64 {
        return Err(SyncholeError::Storage("timestamp too large".to_owned()));
    }
    Ok((updated_at.wall_time_ms as i64, updated_at.logical as i64))
}

/// Reads a timestamp back from its two integer columns.
pub fn timestamp_from_columns(wall: i64, logical: i64) -> (res: Result<Timestamp, SyncholeError>)
    ensures
        wall < 0 ==> (res matches Err(SyncholeError::Storage(m)) && m@ == "negative timestamp"@),
        wall >= 0 && !(0 <= logical <= u32::MAX) ==> (res matches Err(SyncholeError::Storage(m))
            && m@ == "invalid logical timestamp"@),
        wall >= 0 && 0 <= logical <= u32::MAX ==> res == Ok::<Timestamp, SyncholeError>(
            Timestamp { wall_time_ms: wall as u64, logical: logical as u32 },
        ),
{
    if wall < 0 {
        return Err(SyncholeError::Storage("negative timestamp".to_owned()));
    }
    if logical < 0 || logical > u32::MAX as i64 {
        return Err(SyncholeError::Storage("invalid logical timestamp".to_owned()));
    }
    Ok(Timestamp { wall_time_ms: wall as u64, logical: logical as u32 })
}

/// The raw columns of an object row, the version already decoded.
pub struct RawObjectRow {
    pub mode: String,
    pub codec: Option<String>,
    pub table_name: Option<String>,
    pub payload: Option<Vec<u8>>,
    pub json_payload: Option<String>,
    pub row_payload: Option<String>,
    /// Whether `row_payload` reads as a relational row (`Ok` when the column
    /// is empty). Its cells may hold reals, so the caller that holds the
    /// typed row reads it and hands the outcome in.
    pub row_payload_check: Result<(), SyncholeError>,
    pub version: Result<VersionVector, SyncholeError>,
    pub deleted: i64,
    pub wall: i64,
    pub logical: i64,
}

/// What `serde_json` reports for `text` read as one JSON value: `None` when
/// it parses, else the error's message.
pub uninterp spec fn json_parse_error(text: Seq<char>) -> Option<Seq<char>>;

/// Parses `text` with `serde_json::from_str` into a `serde_json::Value`
/// and keeps only the outcome: `None` when it parses, else the error's
/// `Display` text. The contract claims no more than that this outcome is
/// the one `json_parse_error` names for the same text; which texts parse is
/// left to `serde_json`.
#[verifier::external_body]
fn json_parse_outcome(text: &str) -> (res: Option<String>)
    ensures
        text_column(res) == json_parse_error(text@),
{
    match serde_json::from_str::<serde_json::Value>(text) {
        Ok(_) => None,
        Err(e) => Some(e.to_string()),
    }
}

/// The JSON text of a document row: its JSON column, or `null` when that is
/// empty.
pub open spec fn document_text(json_payload: Option<Seq<char>>) -> Seq<char> {
    match json_payload {
        Some(j) => j,
        None => "null"@,
    }
}

/// What parsing a row's document text reports: `None` when it parses, or
/// for a row that holds no document.
pub open spec fn document_error(row: RawObjectRow) -> Option<Seq<char>> {
    if row.mode@ == "document"@ {
        json_parse_error(document_text(text_column(row.json_payload)))
    } else {
        None
    }
}

/// Whether the payload text of a row reads back, given what parsing its
/// document text reported: a document's JSON parses and a relational row
/// was read.
pub open spec fn payload_readable_with(row: RawObjectRow, doc_error: Option<Seq<char>>) -> bool {
    &&& row.mode@ == "document"@ ==> doc_error is None
    &&& row.mode@ == "sql"@ ==> row.row_payload_check is Ok
}

/// Whether the payload text of a row reads back.
pub open spec fn payload_readable(row: RawObjectRow) -> bool {
    payload_readable_with(row, document_error(row))
}

/// The payload a row's columns describe, or `None` for an unknown mode
/// label. Missing columns read as the codec "custom", no bytes, the table
/// "unknown", an empty row and a null document; a tombstone reads as a null
/// document.
pub open spec fn decoded_payload(
    mode: Seq<char>,
    codec: Option<Seq<char>>,
    table_name: Option<Seq<char>>,
    payload: Option<Seq<u8>>,
    json_payload: Option<Seq<char>>,
    row_payload: Option<Seq<char>>,
) -> Option<PayloadView> {
    if mode == "binary"@ {
        Some(
            PayloadView::Binary {
                codec: match codec {
                    Some(c) => c,
                    None => "custom"@,
                },
                bytes: match payload {
                    Some(b) => b,
                    None => seq![],
                },
            },
        )
    } else if mode == "sql"@ {
        Some(
            PayloadView::SqlRow {
                table: match table_name {
                    Some(t) => t,
                    None => "unknown"@,
                },
                row: match row_payload {
                    Some(r) => r,
                    None => "{}"@,
                },
            },
        )
    } else if mode == "document"@ {
        Some(PayloadView::Document(document_text(json_payload)))
    } else if mode == "tombstone"@ {
        Some(PayloadView::Document("null"@))
    } else {
        None
    }
}

/// The object an object row describes, when it can be read given what
/// parsing its document text reported: a known mode, a payload text that
/// reads back, a decoded version, a non-negative wall time and a logical
/// counter in range.
pub open spec fn row_object_with(
    key: ObjectKeyView,
    row: RawObjectRow,
    doc_error: Option<Seq<char>>,
) -> Option<StoredObjectView> {
    let payload = decoded_payload(
        row.mode@,
        text_column(row.codec),
        text_column(row.table_name),
        blob_column(row.payload),
        text_column(row.json_payload),
        text_column(row.row_payload),
    );
    if payload is Some && payload_readable_with(row, doc_error) && row.version is Ok && row.wall >= 0
        && 0 <= row.logical <= u32::MAX {
        Some(
            StoredObjectView {
                key,
                payload: payload.unwrap(),
                version: row.version->Ok_0@,
                updated_at: Timestamp { wall_time_ms: row.wall as u64, logical: row.logical as u32 },
                deleted: row.deleted != 0,
            },
        )
    } else {
        None
    }
}

/// The object an object row describes, when it can be read.
pub open spec fn row_object(key: ObjectKeyView, row: RawObjectRow) -> Option<StoredObjectView> {
    row_object_with(key, row, document_error(row))
}

fn text_or(column: Option<String>, fallback: &str) -> (res: String)
    ensures
        res@ == match column {
            Some(s) => s@,
            None => fallback@,
        },
{
    match column {
        Some(s) => s,
        None => fallback.to_owned(),
    }
}

/// Reads an object row back into the object stored under `key`, given
/// what parsing the row's document text reported (`None` when it parsed;
/// ignored for rows that hold no document). The checks run in the order of
/// the columns: the mode and its payload text, then the version, then the
/// timestamp.
pub fn object_from_row(key: ObjectKey, row: RawObjectRow, doc_error: Option<String>) -> (res: Result<
    StoredObject,
    SyncholeError,
>)
    ensures
        ({
            let payload = decoded_payload(
                row.mode@,
                text_column(row.codec),
                text_column(row.table_name),
                blob_column(row.payload),
                text_column(row.json_payload),
                text_column(row.row_payload),
            );
            let readable = payload is Some && payload_readable_with(row, text_column(doc_error));
            &&& payload is None ==> (res matches Err(SyncholeError::Storage(m)) && m@
                == "unknown sqlite object mode: "@ + row.mode@)
            &&& row.mode@ == "document"@ ==> (doc_error matches Some(message) ==> (res matches Err(
                SyncholeError::Storage(m),
            ) && m@ == message@))
            &&& row.mode@ == "sql"@ ==> (row.row_payload_check matches Err(e) ==> res == Err::<
                StoredObject,
                SyncholeError,
            >(e))
            &&& readable ==> (row.version matches Err(e) ==> res == Err::<StoredObject, SyncholeError>(e))
            &&& readable && row.version is Ok && row.wall < 0 ==> (res matches Err(
                SyncholeError::Storage(m),
            ) && m@ == "negative timestamp"@)
            &&& readable && row.version is Ok && row.wall >= 0 && !(0 <= row.logical <= u32::MAX)
                ==> (res matches Err(SyncholeError::Storage(m)) && m@ == "invalid logical timestamp"@)
            &&& readable && row.version is Ok && row.wall >= 0 && 0 <= row.logical <= u32::MAX ==> (res matches Ok(
                object,
            ) && Some(object@) == row_object_with(key@, row, text_column(doc_error)))
        }),
{
    proof {
        reveal_strlit("binary");
        reveal_strlit("sql");
        reveal_strlit("document");
        reveal_strlit("tombstone");
        assert("sql"@.len() != "document"@.len() && "binary"@.len() != "document"@.len());
        assert("tombstone"@.len() != "document"@.len() && "binary"@.len() != "sql"@.len());
        assert("tombstone"@.len() != "sql"@.len());
    }
    let RawObjectRow {
        mode,
        codec,
        table_name,
        payload,
        json_payload,
        row_payload,
        row_payload_check,
        version,
        deleted,
        wall,
        logical,
    } = row;
    let payload = if mode == "binary".to_owned() {
        StoragePayload::Binary {
            codec: text_or(codec, "custom"),
            bytes: match payload {
                Some(bytes) => bytes,
                None => Vec::new(),
            },
        }
    } else if mode == "sql".to_owned() {
        if let Err(e) = row_payload_check {
            return Err(e);
        }
        StoragePayload::SqlRow { table: text_or(table_name, "unknown"), row: text_or(row_payload, "{}") }
    } else if mode == "document".to_owned() {
        if let Some(message) = doc_error {
            return Err(SyncholeError::Storage(message));
        }
        StoragePayload::Document(text_or(json_payload, "null"))
    } else if mode == "tombstone".to_owned() {
        StoragePayload::Document("null".to_owned())
    } else {
        let mut message = "unknown sqlite object mode: ".to_owned();
        message.append(mode.as_str());
        return Err(SyncholeError::Storage(message));
    };
    let version = match version {
        Ok(version) => version,
        Err(e) => return Err(e),
    };
    let updated_at = match timestamp_from_columns(wall, logical) {
        Ok(ts) => ts,
        Err(e) => return Err(e),
    };
    Ok(StoredObject { key, payload, version, updated_at, deleted: deleted != 0 })
}

/// Reads an object row back into the object stored under `key`, parsing a
/// document's JSON text with `serde_json`.
pub fn row_to_object(key: ObjectKey, row: RawObjectRow) -> (res: Result<StoredObject, SyncholeError>)
    ensures
        ({
            let payload = decoded_payload(
                row.mode@,
                text_column(row.codec),
                text_column(row.table_name),
                blob_column(row.payload),
                text_column(row.json_payload),
                text_column(row.row_payload),
            );
            let readable = payload is Some && payload_readable(row);
            &&& payload is None ==> (res matches Err(SyncholeError::Storage(m)) && m@
                == "unknown sqlite object mode: "@ + row.mode@)
            &&& row.mode@ == "document"@ ==> (json_parse_error(
                document_text(text_column(row.json_payload)),
            ) matches Some(message) ==> (res matches Err(SyncholeError::Storage(m)) && m@
                == message))
            &&& row.mode@ == "sql"@ ==> (row.row_payload_check matches Err(e) ==> res == Err::<
                StoredObject,
                SyncholeError,
            >(e))
            &&& readable ==> (row.version matches Err(e) ==> res == Err::<StoredObject, SyncholeError>(e))
            &&& readable && row.version is Ok && row.wall < 0 ==> (res matches Err(
                SyncholeError::Storage(m),
            ) && m@ == "negative timestamp"@)
            &&& readable && row.version is Ok && row.wall >= 0 && !(0 <= row.logical <= u32::MAX)
                ==> (res matches Err(SyncholeError::Storage(m)) && m@ == "invalid logical timestamp"@)
            &&& readable && row.version is Ok && row.wall >= 0 && 0 <= row.logical <= u32::MAX ==> (res matches Ok(
                object,
            ) && Some(object@) == row_object(key@, row))
        }),
{
    proof {
        reveal_strlit("document");
        reveal_strlit("null");
    }
    let doc_error = if row.mode == "document".to_owned() {
        match &row.json_payload {
            Some(json) => json_parse_outcome(json.as_str()),
            None => json_parse_outcome("null"),
        }
    } else {
        None
    };
    object_from_row(key, row, doc_error)
}

/// The lower cursor bound and the row limit of a change-log scan: changes
/// after `since` (or from the start), at least one row.
pub fn scan_bounds(since: Option<ChangeCursor>, limit: usize) -> (res: Result<(i64, i64), SyncholeError>)
    ensures
        ({
            let after = match since {
                Some(c) => c.0,
                None => 0,
            };
            let rows = if limit >= 1 {
                limit
            } else {
                1
            };
            &&& after > i64::MAX ==> (res matches Err(SyncholeError::Storage(m)) && m@
                == "change cursor too large"@)
            &&& after <= i64::MAX && rows > i64::MAX ==> (res matches Err(SyncholeError::Storage(m))
                && m@ == "limit too large"@)
            &&& after <= i64::MAX && rows <= i64::MAX ==> res == Ok::<(i64, i64), SyncholeError>(
                (after as i64, rows as i64),
            )
        }),
{
    let rows = if limit >= 1 {
        limit
    } else {
        1
    };
    let after = match since {
        Some(c) => c.0,
        None => ChangeCursor::default().0,
    };
    if after > i64::MAX as u64 {
        return Err(SyncholeError::Storage("change cursor too large".to_owned()));
    }
    if rows as u128 > i64::MAX as u128 {
        return Err(SyncholeError::Storage("limit too large".to_owned()));
    }
    Ok((after as i64, rows as i64))
}

/// The raw columns of a change-log row, the version already decoded.
pub struct RawChangeRow {
    pub cursor: i64,
    pub collection: String,
    pub object_id: String,
    pub version: Result<VersionVector, SyncholeError>,
    pub operation: String,
    pub wall: i64,
    pub logical: i64,
}

/// Reads a change-log row back into a change record.
pub fn change_record_from_row(row: RawChangeRow) -> (res: Result<ChangeRecord, SyncholeError>)
    ensures
        row.version matches Err(e) ==> res == Err::<ChangeRecord, SyncholeError>(e),
        row.version is Ok && row.cursor < 0 ==> (res matches Err(SyncholeError::Storage(m)) && m@
            == "negative change cursor"@),
        row.version is Ok && row.cursor >= 0 && row.operation@ != "put"@ && row.operation@
            != "delete"@ ==> (res matches Err(SyncholeError::Storage(m)) && m@
            == "unknown change operation: "@ + row.operation@),
        row.version is Ok && row.cursor >= 0 && (row.operation@ == "put"@ || row.operation@
            == "delete"@) && row.wall < 0 ==> (res matches Err(SyncholeError::Storage(m)) && m@
            == "negative timestamp"@),
        row.version is Ok && row.cursor >= 0 && (row.operation@ == "put"@ || row.operation@
            == "delete"@) && row.wall >= 0 && !(0 <= row.logical <= u32::MAX) ==> (res matches Err(
            SyncholeError::Storage(m),
        ) && m@ == "invalid logical timestamp"@),
        row.version is Ok && row.cursor >= 0 && (row.operation@ == "put"@ || row.operation@
            == "delete"@) && row.wall >= 0 && 0 <= row.logical <= u32::MAX ==> (res matches Ok(r) && {
            &&& r.cursor == ChangeCursor(row.cursor as u64)
            &&& r.key@ == (ObjectKeyView { collection: row.collection@, object_id: row.object_id@ })
            &&& r.version@ == row.version->Ok_0@
            &&& r.operation == (if row.operation@ == "put"@ {
                ChangeOperation::Put
            } else {
                ChangeOperation::Delete
            })
            &&& r.updated_at == (Timestamp { wall_time_ms: row.wall as u64, logical: row.logical as u32 })
        }),
{
    let RawChangeRow { cursor, collection, object_id, version, operation, wall, logical } = row;
    let version = match version {
        Ok(version) => version,
        Err(e) => return Err(e),
    };
    if cursor < 0 {
        return Err(SyncholeError::Storage("negative change cursor".to_owned()));
    }
    let key = ObjectKey::new(CollectionId::from(collection), ObjectId::from(object_id));
    let operation = match parse_operation(operation.as_str()) {
        Ok(op) => op,
        Err(e) => return Err(e),
    };
    let updated_at = match timestamp_from_columns(wall, logical) {
        Ok(ts) => ts,
        Err(e) => return Err(e),
    };
    Ok(ChangeRecord { cursor: ChangeCursor(cursor as u64), key, version, operation, updated_at })
}

/// A page of change records; the next page starts after the last record.
pub fn change_page(records: Vec<ChangeRecord>) -> (res: ChangePage)
    ensures
        res.records@ == records@,
        records@.len() == 0 ==> res.next_cursor is None,
        records@.len() > 0 ==> res.next_cursor == Some(records@.last().cursor),
{
    let next_cursor = if records.len() == 0 {
        None
    } else {
        Some(records[records.len() - 1].cursor)
    };
    ChangePage { records, next_cursor }
}

/// Reading back the columns a payload was written to gives the same payload.
pub proof fn lemma_payload_columns_round_trip(payload: PayloadView, columns: PayloadColumns)
    requires
        columns_match(payload, columns),
    ensures
        decoded_payload(
            columns.mode@,
            text_column(columns.codec),
            text_column(columns.table_name),
            blob_column(columns.payload),
            text_column(columns.json_payload),
            text_column(columns.row_payload),
        ) == Some(payload),
{
    reveal_strlit("binary");
    reveal_strlit("sql");
    reveal_strlit("document");
    assert("binary"@ != "sql"@ && "binary"@ != "document"@ && "sql"@ != "document"@) by {
        assert("binary"@.len() != "sql"@.len());
        assert("binary"@[0] != "document"@[0]);
        assert("sql"@.len() != "document"@.len());
    }
}

/// Reading back the integer columns a timestamp was written to gives the same
/// timestamp, for every timestamp whose wall time fits the column.
pub proof fn lemma_timestamp_columns_round_trip(updated_at: Timestamp)
    requires
        updated_at.wall_time_ms <= i64::MAX,
    ensures
        ({
            let wall = updated_at.wall_time_ms as i64;
            let logical = updated_at.logical as i64;
            &&& wall >= 0
            &&& 0 <= logical <= u32::MAX
            &&& (Timestamp { wall_time_ms: wall as u64, logical: logical as u32 }) == updated_at
        }),
{
    let w = updated_at.wall_time_ms;
    let l = updated_at.logical;
    assert(w <= 0x7fff_ffff_ffff_ffffu64 ==> (w as i64) >= 0 && ((w as i64) as u64) == w) by (bit_vector);
    assert(((l as i64) as u32) == l && (l as i64) >= 0 && (l as i64) <= 0xffff_ffffi64) by (bit_vector);
}

/// Reading back the label an operation was logged under gives the same
/// operation.
pub proof fn lemma_operation_label_round_trip(operation: ChangeOperation)
    ensures
        operation_name(operation) == "put"@ <==> operation == ChangeOperation::Put,
        operation_name(operation) == "delete"@ <==> operation == ChangeOperation::Delete,
{
    reveal_strlit("put");
    reveal_strlit("delete");
    assert("put"@.len() != "delete"@.len());
}

/// Reading back the row an object was written to gives the same object:
/// its payload columns, whose text reads back, its encoded version, its
/// tombstone bit as 0 or 1 and its timestamp columns.
pub proof fn lemma_object_row_round_trip(object: StoredObjectView, row: RawObjectRow)
    requires
        columns_match(
            object.payload,
            PayloadColumns {
                mode: row.mode,
                codec: row.codec,
                table_name: row.table_name,
                payload: row.payload,
                json_payload: row.json_payload,
                row_payload: row.row_payload,
            },
        ),
        payload_readable(row),
        row.version matches Ok(v) && v@ == object.version,
        row.deleted == (if object.deleted {
            1i64
        } else {
            0i64
        }),
        object.updated_at.wall_time_ms <= i64::MAX,
        row.wall == object.updated_at.wall_time_ms as i64,
        row.logical == object.updated_at.logical as i64,
    ensures
        row_object(object.key, row) == Some(object),
{
    lemma_payload_columns_round_trip(
        object.payload,
        PayloadColumns {
            mode: row.mode,
            codec: row.codec,
            table_name: row.table_name,
            payload: row.payload,
            json_payload: row.json_payload,
            row_payload: row.row_payload,
        },
    );
    lemma_timestamp_columns_round_trip(object.updated_at);
}

} // verus!
