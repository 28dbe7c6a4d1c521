use synchole::facade::{binary_object, document_object, required_storage};
use synchole::sqlite_rows::{
    change_page, change_record_from_row, operation_label, parse_operation, payload_columns,
    object_from_row, pragma_statement, row_to_object, scan_bounds, timestamp_columns, timestamp_from_columns,
    to_storage_error, RawChangeRow, RawObjectRow,
};
use synchole::storage_config::{Migration, MigrationStep, StorageConfig};
use synchole::PragmaSettings;
use synchole::{
    synchole_storage_mode_is_valid, synchole_version_major, AppleRuntimeConfig,
    BindingStorageConfig, ChangeCursor, ChangeOperation, CodecId, DeviceId, ObjectKey,
    StorageMode, StoragePayload, SyncholeError, Timestamp, VersionVector, WasmSyncholeConfig,
};

fn raw_object(mode: &str) -> RawObjectRow {
    RawObjectRow {
        mode: mode.to_owned(),
        codec: None,
        table_name: None,
        payload: None,
        json_payload: None,
        row_payload: None,
        row_payload_check: Ok(()),
        version: Ok(VersionVector::new()),
        deleted: 0,
        wall: 100,
        logical: 2,
    }
}

#[test]
fn operation_labels_round_trip() {
    assert_eq!(operation_label(&ChangeOperation::Put), "put");
    assert_eq!(operation_label(&ChangeOperation::Delete), "delete");
    assert_eq!(parse_operation("put").unwrap(), ChangeOperation::Put);
    assert_eq!(parse_operation("delete").unwrap(), ChangeOperation::Delete);
    match parse_operation("move") {
        Err(SyncholeError::Storage(m)) => assert_eq!(m, "unknown change operation: move"),
        other => panic!("unexpected {other:?}"),
    }
}

#[test]
fn pragma_settings_keep_one_value_per_name_in_order() {
    let mut pragmas = PragmaSettings::new();
    pragmas.set("synchronous".to_owned(), "FULL".to_owned());
    pragmas.set("cache_size".to_owned(), "-2000".to_owned());
    pragmas.set("journal_mode".to_owned(), "DELETE".to_owned());
    pragmas.set("synchronous".to_owned(), "NORMAL".to_owned());
    assert_eq!(
        pragmas.entries(),
        &vec![
            ("cache_size".to_owned(), "-2000".to_owned()),
            ("journal_mode".to_owned(), "DELETE".to_owned()),
            ("synchronous".to_owned(), "NORMAL".to_owned()),
        ]
    );
    let copy = pragmas.clone();
    assert!(copy == pragmas);
    pragmas.set("cache_size".to_owned(), "0".to_owned());
    assert!(copy != pragmas);
}

#[test]
fn recorded_migrations_are_skipped() {
    let migration = Migration { version: 3, name: "add_index".to_owned(), sql: "CREATE INDEX i ON t(x)".to_owned() };
    assert_eq!(migration.step(true), MigrationStep::Skip);
    assert_eq!(migration.step(false), MigrationStep::Apply);
}

#[test]
fn storage_config_defaults() {
    let config = StorageConfig::new(StorageMode::Sql);
    assert_eq!(config.mode, StorageMode::Sql);
    assert_eq!(config.namespace, "default");
    assert_eq!(
        config.sqlite_pragmas.entries(),
        &vec![
            ("foreign_keys".to_owned(), "ON".to_owned()),
            ("journal_mode".to_owned(), "WAL".to_owned()),
            ("synchronous".to_owned(), "NORMAL".to_owned()),
        ]
    );
    assert_eq!(config.migrations.schema_version, 0);
    assert!(config.migrations.migrations.is_empty());
    assert_eq!(pragma_statement("journal_mode", "WAL"), "PRAGMA journal_mode = WAL");
}

#[test]
fn payload_columns_per_mode() {
    let c = payload_columns(&StoragePayload::Binary { codec: "postcard".to_owned(), bytes: vec![1, 2, 3, 4] });
    assert_eq!(c.mode, "binary");
    assert_eq!(c.codec.as_deref(), Some("postcard"));
    assert_eq!(c.payload, Some(vec![1, 2, 3, 4]));
    assert!(c.table_name.is_none() && c.json_payload.is_none() && c.row_payload.is_none());

    let c = payload_columns(&StoragePayload::SqlRow { table: "notes".to_owned(), row: "{\"title\":\"hello\"}".to_owned() });
    assert_eq!(c.mode, "sql");
    assert_eq!(c.table_name.as_deref(), Some("notes"));
    assert_eq!(c.row_payload.as_deref(), Some("{\"title\":\"hello\"}"));

    let c = payload_columns(&StoragePayload::Document("{\"title\":\"hello\"}".to_owned()));
    assert_eq!(c.mode, "document");
    assert_eq!(c.json_payload.as_deref(), Some("{\"title\":\"hello\"}"));
    assert!(c.payload.is_none());
}

#[test]
fn object_rows_read_back() {
    let key = ObjectKey::new("notes".into(), "1".into());
    let mut row = raw_object("binary");
    row.payload = Some(vec![9]);
    let object = row_to_object(key.clone(), row).unwrap();
    assert_eq!(object.payload, StoragePayload::Binary { codec: "custom".to_owned(), bytes: vec![9] });
    assert_eq!(object.updated_at, Timestamp { wall_time_ms: 100, logical: 2 });
    assert!(!object.deleted);

    let object = row_to_object(key.clone(), raw_object("sql")).unwrap();
    assert_eq!(object.payload, StoragePayload::SqlRow { table: "unknown".to_owned(), row: "{}".to_owned() });

    let mut row = raw_object("tombstone");
    row.deleted = 1;
    let object = row_to_object(key.clone(), row).unwrap();
    assert_eq!(object.payload, StoragePayload::Document("null".to_owned()));
    assert!(object.deleted);

    match row_to_object(key.clone(), raw_object("weird")) {
        Err(SyncholeError::Storage(m)) => assert_eq!(m, "unknown sqlite object mode: weird"),
        other => panic!("unexpected {other:?}"),
    }
    let mut row = raw_object("document");
    row.wall = -1;
    assert!(matches!(row_to_object(key.clone(), row), Err(SyncholeError::Storage(m)) if m == "negative timestamp"));
    let mut row = raw_object("document");
    row.version = Err(SyncholeError::Storage("bad version".to_owned()));
    assert!(matches!(row_to_object(key, row), Err(SyncholeError::Storage(m)) if m == "bad version"));
}

#[test]
fn document_rows_must_hold_json() {
    let key = ObjectKey::new("notes".into(), "1".into());
    let mut row = raw_object("document");
    row.json_payload = Some(r#"{"title":"hi"}"#.to_owned());
    let object = row_to_object(key.clone(), row).unwrap();
    assert_eq!(object.payload, StoragePayload::Document(r#"{"title":"hi"}"#.to_owned()));

    let object = row_to_object(key.clone(), raw_object("document")).unwrap();
    assert_eq!(object.payload, StoragePayload::Document("null".to_owned()));

    let mut row = raw_object("document");
    row.json_payload = Some("not json".to_owned());
    row.version = Err(SyncholeError::Storage("bad version".to_owned()));
    match row_to_object(key.clone(), row) {
        Err(SyncholeError::Storage(m)) => assert!(m.starts_with("expected"), "{m}"),
        other => panic!("unexpected {other:?}"),
    }

    let mut row = raw_object("document");
    row.json_payload = Some("{\"open\": ".to_owned());
    assert!(matches!(row_to_object(key, row), Err(SyncholeError::Storage(m)) if m.starts_with("EOF")));
}

#[test]
fn object_rows_read_back_given_the_document_parse() {
    let key = ObjectKey::new("notes".into(), "1".into());
    let mut row = raw_object("document");
    row.json_payload = Some("[1, 2]".to_owned());
    row.version = Err(SyncholeError::Storage("bad version".to_owned()));
    assert!(matches!(
        object_from_row(key.clone(), row, Some("expected value at line 1 column 1".to_owned())),
        Err(SyncholeError::Storage(m)) if m == "expected value at line 1 column 1"
    ));

    let mut row = raw_object("document");
    row.json_payload = Some("[1, 2]".to_owned());
    let object = object_from_row(key.clone(), row, None).unwrap();
    assert_eq!(object.payload, StoragePayload::Document("[1, 2]".to_owned()));
    assert_eq!(object.updated_at, Timestamp { wall_time_ms: 100, logical: 2 });

    let mut row = raw_object("binary");
    row.payload = Some(vec![1, 2]);
    row.codec = Some("cbor".to_owned());
    let object = object_from_row(key.clone(), row, Some("ignored".to_owned())).unwrap();
    assert_eq!(object.payload, StoragePayload::Binary { codec: "cbor".to_owned(), bytes: vec![1, 2] });

    let mut row = raw_object("document");
    row.logical = -3;
    assert!(matches!(
        object_from_row(key, row, None),
        Err(SyncholeError::Storage(m)) if m == "invalid logical timestamp"
    ));
}

#[test]
fn sql_rows_must_hold_a_relational_row() {
    let key = ObjectKey::new("notes".into(), "1".into());
    let mut row = raw_object("sql");
    row.table_name = Some("people".to_owned());
    row.row_payload = Some("[1]".to_owned());
    row.row_payload_check = Err(SyncholeError::Storage("invalid type: sequence".to_owned()));
    row.wall = -1;
    assert!(matches!(row_to_object(key.clone(), row), Err(SyncholeError::Storage(m)) if m == "invalid type: sequence"));

    let mut row = raw_object("binary");
    row.row_payload_check = Err(SyncholeError::Storage("ignored".to_owned()));
    assert!(row_to_object(key, row).is_ok());
}

#[test]
fn timestamp_columns_convert_both_ways() {
    let ts = Timestamp { wall_time_ms: 100, logical: 7 };
    assert_eq!(timestamp_columns(ts).unwrap(), (100, 7));
    assert!(matches!(
        timestamp_columns(Timestamp { wall_time_ms: u64::MAX, logical: 0 }),
        Err(SyncholeError::Storage(m)) if m == "timestamp too large"
    ));
    assert_eq!(timestamp_from_columns(100, 7).unwrap(), ts);
    assert!(matches!(timestamp_from_columns(-5, 0), Err(SyncholeError::Storage(m)) if m == "negative timestamp"));
    assert!(matches!(timestamp_from_columns(5, -1), Err(SyncholeError::Storage(m)) if m == "invalid logical timestamp"));
    assert!(matches!(timestamp_from_columns(5, 1 << 40), Err(SyncholeError::Storage(m)) if m == "invalid logical timestamp"));
}

#[test]
fn scan_bounds_clamp_limit_and_reject_large_cursor() {
    assert_eq!(scan_bounds(None, 10).unwrap(), (0, 10));
    assert_eq!(scan_bounds(Some(ChangeCursor(4)), 0).unwrap(), (4, 1));
    assert!(matches!(
        scan_bounds(Some(ChangeCursor(u64::MAX)), 5),
        Err(SyncholeError::Storage(m)) if m == "change cursor too large"
    ));
    assert!(matches!(scan_bounds(None, usize::MAX), Err(SyncholeError::Storage(m)) if m == "limit too large"));
}

#[test]
fn change_rows_read_back_and_page() {
    let mut version = VersionVector::new();
    version.increment(DeviceId::from("device-a"));
    let record = change_record_from_row(RawChangeRow {
        cursor: 3,
        collection: "notes".to_owned(),
        object_id: "1".to_owned(),
        version: Ok(version),
        operation: "put".to_owned(),
        wall: 100,
        logical: 0,
    })
    .unwrap();
    assert_eq!(record.cursor, ChangeCursor(3));
    assert_eq!(record.operation, ChangeOperation::Put);
    assert_eq!(record.key, ObjectKey::new("notes".into(), "1".into()));
    assert!(matches!(
        change_record_from_row(RawChangeRow {
            cursor: -1,
            collection: "notes".to_owned(),
            object_id: "1".to_owned(),
            version: Ok(VersionVector::new()),
            operation: "put".to_owned(),
            wall: 0,
            logical: 0,
        }),
        Err(SyncholeError::Storage(m)) if m == "negative change cursor"
    ));
    let page = change_page(vec![record]);
    assert_eq!(page.records.len(), 1);
    assert_eq!(page.next_cursor, Some(ChangeCursor(3)));
    assert_eq!(change_page(vec![]).next_cursor, None);
    assert!(matches!(to_storage_error("x".to_owned()), SyncholeError::Storage(m) if m == "x"));
}

#[test]
fn payload_mode_and_codec_names() {
    assert_eq!(StoragePayload::Document("1".to_owned()).mode(), StorageMode::Document);
    assert_eq!(StoragePayload::SqlRow { table: String::new(), row: String::new() }.mode(), StorageMode::Sql);
    assert_eq!(StoragePayload::Binary { codec: String::new(), bytes: vec![] }.mode(), StorageMode::Binary);
    assert_eq!(CodecId::Bincode.as_str(), "bincode");
    assert_eq!(CodecId::Postcard.as_str(), "postcard");
    assert_eq!(CodecId::Rkyv.as_str(), "rkyv");
    assert_eq!(CodecId::Custom("zstd".to_owned()).as_str(), "zstd");
}

#[test]
fn facade_objects_and_builder_check() {
    let o = binary_object("notes".into(), "note-1".into(), b"payload".to_vec());
    assert_eq!(o.payload, StoragePayload::Binary { codec: "application/octet-stream".to_owned(), bytes: b"payload".to_vec() });
    assert_eq!(o.updated_at, Timestamp::default());
    assert!(o.version == VersionVector::new());
    assert!(!o.deleted);
    let d = document_object("notes".into(), "n1".into(), "{}".to_owned());
    assert_eq!(d.payload, StoragePayload::Document("{}".to_owned()));
    assert_eq!(required_storage(Some(5)).unwrap(), 5);
    assert!(matches!(
        required_storage::<u8>(None),
        Err(SyncholeError::InvalidInput(m)) if m == "SyncholeBuilder requires a storage backend"
    ));
}

#[test]
fn binding_values() {
    assert_eq!(synchole_version_major(), 0);
    assert!(synchole_storage_mode_is_valid(0));
    assert!(synchole_storage_mode_is_valid(2));
    assert!(!synchole_storage_mode_is_valid(3));
    assert!(!synchole_storage_mode_is_valid(999));
    let b = BindingStorageConfig::binary("app.db".to_owned());
    assert_eq!(b.mode, StorageMode::Binary);
    assert_eq!(b.path_or_name, "app.db");
    let apple = AppleRuntimeConfig::default();
    assert!(apple.app_group_identifier.is_none() && apple.background_sync_enabled);
    let wasm = WasmSyncholeConfig::new("store".to_owned(), "document".to_owned());
    assert_eq!(wasm.storage_name(), "store");
    assert_eq!(wasm.storage_mode(), "document");
}
