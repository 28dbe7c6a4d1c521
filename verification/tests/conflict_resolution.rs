use synchole::sync::{
    hello_frame, hello_message, plan_remote_object, resolution_writes, round_start, PeerSyncOutcome,
    RemoteApply, RoundStart,
};
use synchole::{
    ApplyReport, CollectionId, Conflict, ConflictResolver, DeviceId, KeepBothResolver,
    LastWriterWinsResolver, ObjectId, ObjectKey, PacketClass, PeerId, Resolution, StoragePayload,
    StoredObject, SyncMessage, SyncReport, SyncScope, Timestamp, TransportPath, VersionVector,
};

fn object(device: &str, wall_time_ms: u64) -> StoredObject {
    let mut version = VersionVector::new();
    version.increment(device.into());
    StoredObject::new(
        "notes".into(),
        "1".into(),
        StoragePayload::Document(format!("{{\"title\":\"{device}\"}}")),
        version,
        Timestamp {
            wall_time_ms,
            logical: 0,
        },
    )
}

fn doc_object(device: &str) -> StoredObject {
    let mut version = VersionVector::new();
    version.increment(device.into());
    StoredObject::new(
        "docs".into(),
        "doc-1".into(),
        StoragePayload::Document(format!("{{\"body\":\"{device}\"}}")),
        version,
        Timestamp {
            wall_time_ms: 10,
            logical: 0,
        },
    )
}

#[test]
fn last_writer_wins_selects_newer_remote() {
    let resolver = LastWriterWinsResolver;
    let conflict = Conflict {
        key: ObjectKey::new("notes".into(), "1".into()),
        local: object("a", 1),
        remote: object("b", 2),
    };

    assert_eq!(
        resolver.resolve(conflict).expect("resolve"),
        Resolution::KeepRemote
    );
}

#[test]
fn keep_both_resolver_preserves_both_versions() {
    let resolver = KeepBothResolver;
    let resolution = resolver
        .resolve(Conflict {
            key: ObjectKey::new("docs".into(), "doc-1".into()),
            local: doc_object("phone"),
            remote: doc_object("laptop"),
        })
        .expect("resolve");

    match resolution {
        Resolution::KeepBoth(objects) => assert_eq!(objects.len(), 2),
        other => panic!("expected keep-both resolution, got {other:?}"),
    }
}

#[test]
fn keep_both_renames_local_and_remote() {
    let resolution = KeepBothResolver
        .resolve(Conflict {
            key: ObjectKey::new("docs".into(), "doc-1".into()),
            local: doc_object("phone"),
            remote: doc_object("laptop"),
        })
        .expect("resolve");
    match resolution {
        Resolution::KeepBoth(objects) => {
            assert_eq!(objects[0].key.object_id.as_str(), "doc-1@local");
            assert_eq!(objects[1].key.object_id.as_str(), "doc-1@remote");
            assert_eq!(objects[0].key.collection.as_str(), "docs");
            assert_eq!(objects[0].payload, StoragePayload::Document("{\"body\":\"phone\"}".to_owned()));
            assert_eq!(objects[1].payload, StoragePayload::Document("{\"body\":\"laptop\"}".to_owned()));
        }
        other => panic!("expected keep-both resolution, got {other:?}"),
    }
}

#[test]
fn last_writer_wins_keeps_local_when_local_is_newer_and_settles_ties_by_version() {
    let local_newer = Conflict {
        key: ObjectKey::new("notes".into(), "1".into()),
        local: object("a", 5),
        remote: object("b", 2),
    };
    assert_eq!(LastWriterWinsResolver.resolve(local_newer).unwrap(), Resolution::KeepLocal);
    let tie = Conflict {
        key: ObjectKey::new("notes".into(), "1".into()),
        local: object("a", 5),
        remote: object("b", 5),
    };
    // At device "a", the first where the vectors differ, the local copy holds 1 and the remote 0.
    assert_eq!(LastWriterWinsResolver.resolve(tie).unwrap(), Resolution::KeepLocal);
    let tie_swapped = Conflict {
        key: ObjectKey::new("notes".into(), "1".into()),
        local: object("b", 5),
        remote: object("a", 5),
    };
    assert_eq!(LastWriterWinsResolver.resolve(tie_swapped).unwrap(), Resolution::KeepRemote);
}

#[test]
fn lww_replicas_converge_on_equal_update_times() {
    let settle = |local: StoredObject, remote: StoredObject| -> StoredObject {
        match plan_remote_object(Some(local.clone()), remote) {
            RemoteApply::Done { mut writes, .. } => writes.pop().unwrap_or(local),
            RemoteApply::Resolve { conflict, remote_candidate } => {
                let resolution = LastWriterWinsResolver.resolve(conflict).unwrap();
                let (mut writes, _) = resolution_writes(resolution, remote_candidate);
                writes.pop().unwrap_or(local)
            }
        }
    };
    let a = object("phone", 7);
    let b = object("laptop", 7);
    let on_a = settle(a.clone(), b.clone());
    let on_b = settle(b.clone(), a.clone());
    assert_eq!(on_a, on_b);
    // "laptop" comes first; there `a` holds 0 and `b` holds 1, so `b` wins.
    assert_eq!(on_a, b);

    let mut va = VersionVector::new();
    va.increment(DeviceId::from("x"));
    va.increment(DeviceId::from("y"));
    let mut vb = VersionVector::new();
    vb.increment(DeviceId::from("x"));
    vb.increment(DeviceId::from("x"));
    // First difference at "x": va holds 1, vb holds 2.
    assert!(va.first_difference_lower(&vb));
    assert!(!vb.first_difference_lower(&va));
    assert!(!va.first_difference_lower(&va));
    va.increment(DeviceId::from("w"));
    // "w" now comes first: va holds 1 there, vb holds 0.
    assert!(!va.first_difference_lower(&vb));
    assert!(vb.first_difference_lower(&va));
}

#[test]
fn remote_object_without_local_copy_is_applied() {
    match plan_remote_object(None, object("a", 1)) {
        RemoteApply::Done { writes, report } => {
            assert_eq!(report, ApplyReport::Applied);
            assert_eq!(writes.len(), 1);
        }
        RemoteApply::Resolve { .. } => panic!("no conflict expected"),
    }
}

#[test]
fn causal_order_decides_apply_or_skip() {
    let older = object("a", 1);
    let mut newer = older.clone();
    newer.version.increment(DeviceId::from("a"));
    match plan_remote_object(Some(older.clone()), newer.clone()) {
        RemoteApply::Done { writes, report } => {
            assert_eq!(report, ApplyReport::Applied);
            assert_eq!(writes, vec![newer.clone()]);
        }
        RemoteApply::Resolve { .. } => panic!("no conflict expected"),
    }
    match plan_remote_object(Some(newer.clone()), older) {
        RemoteApply::Done { writes, report } => {
            assert_eq!(report, ApplyReport::Skipped);
            assert!(writes.is_empty());
        }
        RemoteApply::Resolve { .. } => panic!("no conflict expected"),
    }
    match plan_remote_object(Some(newer.clone()), newer) {
        RemoteApply::Done { writes, report } => {
            assert_eq!(report, ApplyReport::Skipped);
            assert!(writes.is_empty());
        }
        RemoteApply::Resolve { .. } => panic!("no conflict expected"),
    }
}

#[test]
fn concurrent_versions_go_to_the_resolver() {
    let local = object("a", 1);
    let remote = object("b", 2);
    match plan_remote_object(Some(local.clone()), remote.clone()) {
        RemoteApply::Resolve { conflict, remote_candidate } => {
            assert_eq!(conflict.local, local);
            assert_eq!(conflict.remote, remote);
            assert_eq!(conflict.key, remote.key);
            assert_eq!(remote_candidate, remote);
            let resolution = LastWriterWinsResolver.resolve(conflict).unwrap();
            let (writes, report) = resolution_writes(resolution, remote_candidate);
            assert_eq!(report, ApplyReport::ConflictKeptRemote);
            assert_eq!(writes, vec![remote]);
        }
        RemoteApply::Done { .. } => panic!("conflict expected"),
    }
}

#[test]
fn resolution_writes_match_each_resolution() {
    let remote = object("b", 2);
    let (w, r) = resolution_writes(Resolution::KeepLocal, remote.clone());
    assert!(w.is_empty());
    assert_eq!(r, ApplyReport::ConflictKeptLocal);
    let merged = object("c", 3);
    let (w, r) = resolution_writes(Resolution::Merge(merged.clone()), remote.clone());
    assert_eq!(w, vec![merged.clone()]);
    assert_eq!(r, ApplyReport::ConflictMerged);
    let (w, r) = resolution_writes(Resolution::KeepBoth(vec![merged.clone(), remote.clone()]), remote.clone());
    assert_eq!(w, vec![merged, remote]);
    assert_eq!(r, ApplyReport::ConflictKeptBoth);
}

#[test]
fn lww_replicas_converge_after_exchange() {
    let a = object("a", 1);
    let b = object("b", 2);
    let settle = |local: StoredObject, remote: StoredObject| -> StoredObject {
        match plan_remote_object(Some(local.clone()), remote) {
            RemoteApply::Done { mut writes, .. } => writes.pop().unwrap_or(local),
            RemoteApply::Resolve { conflict, remote_candidate } => {
                let resolution = LastWriterWinsResolver.resolve(conflict).unwrap();
                let (mut writes, _) = resolution_writes(resolution, remote_candidate);
                writes.pop().unwrap_or(local)
            }
        }
    };
    let on_a = settle(a.clone(), b.clone());
    let on_b = settle(b.clone(), a.clone());
    assert_eq!(on_a, on_b);
    assert_eq!(on_a, b);
    // applying the same object again changes nothing
    assert_eq!(settle(on_a.clone(), b.clone()), on_a);
}

#[test]
fn sync_report_records_peer_outcomes() {
    let mut report = SyncReport::default();
    report.record_discovered(3);
    report.record_peer(PeerSyncOutcome::ConnectFailed);
    report.record_peer(PeerSyncOutcome::Contacted { path: Some(TransportPath::Relay), objects_sent: 4 });
    report.record_peer(PeerSyncOutcome::Contacted { path: None, objects_sent: 2 });
    assert_eq!(report.peers_discovered, 3);
    assert_eq!(report.peers_failed, 1);
    assert_eq!(report.peers_contacted, 2);
    assert_eq!(report.objects_sent, 6);
    assert_eq!(report.selected_paths, vec![TransportPath::Relay]);
    report.objects_sent = usize::MAX;
    report.record_peer(PeerSyncOutcome::Contacted { path: None, objects_sent: 1 });
    assert_eq!(report.objects_sent, usize::MAX);
}

#[test]
fn hello_is_a_version_one_control_frame() {
    match hello_message(PeerId::from("peer")) {
        SyncMessage::Hello { peer_id, supported_versions } => {
            assert_eq!(peer_id.as_str(), "peer");
            assert_eq!(supported_versions, vec![1]);
        }
        other => panic!("unexpected {other:?}"),
    }
    let frame = hello_frame(vec![1, 2]);
    assert_eq!(frame.session_id.as_str(), "sync-once");
    assert_eq!(frame.class, PacketClass::Control);
    assert_eq!(frame.payload, vec![1, 2]);
    assert_eq!((frame.stream_id, frame.sequence), (0, 0));
}

#[test]
fn sync_scope_defaults() {
    let scope = SyncScope::default();
    assert!(scope.collections.is_empty());
    assert!(scope.include_tombstones);
    assert_eq!(scope.max_changes, 512);
    assert_eq!(SyncScope::with_max_changes(7).max_changes, 7);
    let _ = CollectionId::from("x");
    let _ = ObjectId::from("y");
}

#[test]
fn a_round_without_every_adapter_ends_empty() {
    assert!(matches!(round_start(true, true, true), RoundStart::Proceed));
    for (d, t, i) in [(false, true, true), (true, false, true), (true, true, false), (false, false, false)] {
        match round_start(d, t, i) {
            RoundStart::Finished(report) => assert_eq!(report, SyncReport::default()),
            RoundStart::Proceed => panic!("a round needs every adapter"),
        }
    }
}
