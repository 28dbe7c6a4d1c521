//! The sync protocol's decisions: when a remote object is applied, skipped
//! or handed to a conflict resolver, what the resolvers decide, and what a
//! resolution writes.

use vstd::prelude::*;

use crate::clock::{ts_lt, Timestamp};
use crate::error::SyncholeError;
use crate::ids::{CollectionId, ObjectId, PeerId, SessionId};
use crate::records::{ObjectKey, ObjectKeyView, StoredObject, StoredObjectView};
use crate::transport::{PacketClass, TransportFrame, TransportPath};
use crate::version::{
    causality_of, counter_of, lemma_compare_converse, lemma_compare_reflexive, lemma_version_lt_asymmetric,
    lemma_version_lt_total, version_lt, Causality, VersionVector,
};

verus! {

/// Which collections a sync covers and how many changes it sends.
#[derive(Clone, Debug, PartialEq, Eq)]
pub struct SyncScope {
    pub collections: Vec<CollectionId>,
    pub include_tombstones: bool,
    pub max_changes: usize,
}

impl Default for SyncScope {
    /// All collections, tombstones included, at most 512 changes.
    fn default() -> (res: Self)
        ensures
            res.collections@.len() == 0,
            res.include_tombstones,
            res.max_changes == 512,
    {
        SyncScope { collections: Vec::new(), include_tombstones: true, max_changes: 512 }
    }
}

impl SyncScope {
    /// The default scope with a different change limit.
    pub fn with_max_changes(max_changes: usize) -> (res: Self)
        ensures
            res.collections@.len() == 0,
            res.include_tombstones,
            res.max_changes == max_changes,
    {
        SyncScope { collections: Vec::new(), include_tombstones: true, max_changes }
    }
}

/// What one sync round did.
#[derive(Clone, Debug, PartialEq, Eq)]
pub struct SyncReport {
    pub peers_discovered: usize,
    pub peers_contacted: usize,
    pub peers_failed: usize,
    pub objects_sent: usize,
    pub objects_received: usize,
    pub conflicts_detected: usize,
    pub selected_paths: Vec<TransportPath>,
}

impl Default for SyncReport {
    fn default() -> (res: Self)
        ensures
            res.peers_discovered == 0,
            res.peers_contacted == 0,
            res.peers_failed == 0,
            res.objects_sent == 0,
            res.objects_received == 0,
            res.conflicts_detected == 0,
            res.selected_paths@.len() == 0,
    {
        SyncReport {
            peers_discovered: 0,
            peers_contacted: 0,
            peers_failed: 0,
            objects_sent: 0,
            objects_received: 0,
            conflicts_detected: 0,
            selected_paths: Vec::new(),
        }
    }
}

/// Adds two counters, staying at the maximum once it is reached.
pub open spec fn saturating_sum(a: usize, b: usize) -> usize {
    if a + b > usize::MAX {
        usize::MAX
    } else {
        (a + b) as usize
    }
}

/// What happened when a sync round reached out to one peer.
pub enum PeerSyncOutcome {
    /// No connection could be opened.
    ConnectFailed,
    /// The peer was greeted and `objects_sent` changes were offered to it,
    /// over `path` when a path was selected.
    Contacted { path: Option<TransportPath>, objects_sent: usize },
}

impl SyncReport {
    /// Records how many peers discovery returned.
    pub fn record_discovered(&mut self, peers: usize)
        ensures
            *final(self) == (SyncReport { peers_discovered: peers, ..*old(self) }),
    {
        self.peers_discovered = peers;
    }

    /// Records the outcome of contacting one peer.
    pub fn record_peer(&mut self, outcome: PeerSyncOutcome)
        ensures
            match outcome {
                PeerSyncOutcome::ConnectFailed => *final(self) == (SyncReport {
                    peers_failed: saturating_sum(old(self).peers_failed, 1),
                    ..*old(self)
                }),
                PeerSyncOutcome::Contacted { path, objects_sent } => {
                    &&& final(self).selected_paths@ == match path {
                        Some(p) => old(self).selected_paths@.push(p),
                        None => old(self).selected_paths@,
                    }
                    &&& final(self).objects_sent == saturating_sum(old(self).objects_sent, objects_sent)
                    &&& final(self).peers_contacted == saturating_sum(old(self).peers_contacted, 1)
                    &&& final(self).peers_discovered == old(self).peers_discovered
                    &&& final(self).peers_failed == old(self).peers_failed
                    &&& final(self).objects_received == old(self).objects_received
                    &&& final(self).conflicts_detected == old(self).conflicts_detected
                },
            },
    {
        match outcome {
            PeerSyncOutcome::ConnectFailed => {
                self.peers_failed = self.peers_failed.saturating_add(1);
            },
            PeerSyncOutcome::Contacted { path, objects_sent } => {
                if let Some(p) = path {
                    self.selected_paths.push(p);
                }
                self.objects_sent = self.objects_sent.saturating_add(objects_sent);
                self.peers_contacted = self.peers_contacted.saturating_add(1);
            },
        }
    }
}

/// A protocol message.
#[derive(Clone, Debug, PartialEq)]
pub enum SyncMessage {
    Hello { peer_id: PeerId, supported_versions: Vec<u16> },
    Have { scope: SyncScope, heads: Vec<(ObjectKey, VersionVector)> },
    Need { keys: Vec<ObjectKey> },
    Object { object: StoredObject },
    Ack { applied: Vec<ObjectKey> },
}

/// The greeting a sync round sends to `peer_id`: protocol version 1 only.
pub fn hello_message(peer_id: PeerId) -> (res: SyncMessage)
    ensures
        res matches SyncMessage::Hello { peer_id: p, supported_versions: v } && p@ == peer_id@ && v@
            == seq![1u16],
{
    let mut supported_versions = Vec::new();
    supported_versions.push(1u16);
    SyncMessage::Hello { peer_id, supported_versions }
}

/// The control frame that carries an encoded greeting.
pub fn hello_frame(payload: Vec<u8>) -> (res: TransportFrame)
    ensures
        res.session_id@ == "sync-once"@,
        res.stream_id == 0,
        res.sequence == 0,
        res.class == PacketClass::Control,
        res.created_at == (Timestamp { wall_time_ms: 0, logical: 0 }),
        res.payload@ == payload@,
{
    TransportFrame {
        session_id: SessionId::from("sync-once"),
        stream_id: 0,
        sequence: 0,
        class: PacketClass::Control,
        created_at: Timestamp::default(),
        payload,
    }
}

/// How a sync round starts.
pub enum RoundStart {
    /// An adapter is missing: the round ends at once with this report.
    Finished(SyncReport),
    /// Every adapter is there: list the peers and contact them.
    Proceed,
}

/// A sync round needs a discovery, a transport and an identity adapter;
/// without any one of them it ends at once with an empty report.
pub fn round_start(has_discovery: bool, has_transport: bool, has_identity: bool) -> (res: RoundStart)
    ensures
        res is Proceed <==> (has_discovery && has_transport && has_identity),
        res matches RoundStart::Finished(report) ==> {
            &&& report.peers_discovered == 0
            &&& report.peers_contacted == 0
            &&& report.peers_failed == 0
            &&& report.objects_sent == 0
            &&& report.objects_received == 0
            &&& report.conflicts_detected == 0
            &&& report.selected_paths@.len() == 0
        },
{
    if has_discovery && has_transport && has_identity {
        RoundStart::Proceed
    } else {
        RoundStart::Finished(SyncReport::default())
    }
}

/// Two versions of one object whose version vectors are concurrent.
#[derive(Clone, Debug, PartialEq)]
pub struct Conflict {
    pub key: ObjectKey,
    pub local: StoredObject,
    pub remote: StoredObject,
}

/// A conflict as plain values.
pub struct ConflictView {
    pub key: ObjectKeyView,
    pub local: StoredObjectView,
    pub remote: StoredObjectView,
}

impl View for Conflict {
    type V = ConflictView;

    open spec fn view(&self) -> ConflictView {
        ConflictView { key: self.key@, local: self.local@, remote: self.remote@ }
    }
}

/// How a conflict is settled.
#[derive(Clone, Debug, PartialEq)]
pub enum Resolution {
    KeepLocal,
    KeepRemote,
    Merge(StoredObject),
    KeepBoth(Vec<StoredObject>),
}

/// A resolution as plain values.
pub enum ResolutionView {
    KeepLocal,
    KeepRemote,
    Merge(StoredObjectView),
    KeepBoth(Seq<StoredObjectView>),
}

/// The plain values of a list of objects.
pub open spec fn objects_view(objects: Seq<StoredObject>) -> Seq<StoredObjectView> {
    objects.map_values(|o: StoredObject| o@)
}

impl View for Resolution {
    type V = ResolutionView;

    open spec fn view(&self) -> ResolutionView {
        match self {
            Resolution::KeepLocal => ResolutionView::KeepLocal,
            Resolution::KeepRemote => ResolutionView::KeepRemote,
            Resolution::Merge(object) => ResolutionView::Merge(object@),
            Resolution::KeepBoth(objects) => ResolutionView::KeepBoth(objects_view(objects@)),
        }
    }
}

/// Settles conflicts; applications may supply their own.
pub trait ConflictResolver {
    fn resolve(&self, conflict: Conflict) -> Result<Resolution, SyncholeError>;
}

/// The version with the later update time wins. Versions written at the
/// same time are ordered by their version vectors, so that both replicas of
/// a conflict pick the same one: the remote version wins when, at the first
/// device (in the order of device ids) where the two vectors differ, the
/// local vector holds the smaller counter.
pub open spec fn last_writer_wins(conflict: ConflictView) -> ResolutionView {
    let local = conflict.local;
    let remote = conflict.remote;
    if ts_lt(local.updated_at, remote.updated_at) || (local.updated_at == remote.updated_at
        && version_lt(local.version, remote.version)) {
        ResolutionView::KeepRemote
    } else {
        ResolutionView::KeepLocal
    }
}

/// Keeps whichever version was written last.
#[derive(Clone, Copy, Debug, Default)]
pub struct LastWriterWinsResolver;

impl ConflictResolver for LastWriterWinsResolver {
    fn resolve(&self, conflict: Conflict) -> (res: Result<Resolution, SyncholeError>)
        ensures
            res matches Ok(r) && r@ == last_writer_wins(conflict@),
    {
        let remote_at = conflict.remote.updated_at;
        let local_at = conflict.local.updated_at;
        let remote_later = remote_at.wall_time_ms > local_at.wall_time_ms || (remote_at.wall_time_ms
            == local_at.wall_time_ms && remote_at.logical > local_at.logical);
        let same_time = remote_at.wall_time_ms == local_at.wall_time_ms && remote_at.logical
            == local_at.logical;
        if remote_later || (same_time && conflict.local.version.first_difference_lower(
            &conflict.remote.version,
        )) {
            Ok(Resolution::KeepRemote)
        } else {
            Ok(Resolution::KeepLocal)
        }
    }
}

/// `object` stored under its id with `suffix` appended.
pub open spec fn renamed(object: StoredObjectView, suffix: Seq<char>) -> StoredObjectView {
    StoredObjectView {
        key: ObjectKeyView {
            collection: object.key.collection,
            object_id: object.key.object_id + suffix,
        },
        ..object
    }
}

/// Both versions survive, the local one as `<id>@local` and the remote one
/// as `<id>@remote`.
pub open spec fn keep_both(conflict: ConflictView) -> ResolutionView {
    ResolutionView::KeepBoth(
        seq![renamed(conflict.local, "@local"@), renamed(conflict.remote, "@remote"@)],
    )
}

/// Keeps both versions under distinct ids.
#[derive(Clone, Copy, Debug, Default)]
pub struct KeepBothResolver;

/// `object` with `suffix` appended to its id.
fn with_id_suffix(object: StoredObject, suffix: &str) -> (res: StoredObject)
    ensures
        res@ == renamed(object@, suffix@),
{
    let mut object = object;
    let mut id = object.key.object_id.as_str().to_owned();
    id.append(suffix);
    object.key.object_id = ObjectId::from(id);
    object
}

impl ConflictResolver for KeepBothResolver {
    fn resolve(&self, conflict: Conflict) -> (res: Result<Resolution, SyncholeError>)
        ensures
            res matches Ok(r) && r@ == keep_both(conflict@),
    {
        let Conflict { key: _, local, remote } = conflict;
        let local = with_id_suffix(local, "@local");
        let remote = with_id_suffix(remote, "@remote");
        let mut objects = Vec::new();
        objects.push(local);
        objects.push(remote);
        assert(objects_view(objects@) =~= keep_both(conflict@)->KeepBoth_0);
        Ok(Resolution::KeepBoth(objects))
    }
}

/// What applying a remote object did.
#[derive(Clone, Copy, Debug, PartialEq, Eq, Structural)]
pub enum ApplyReport {
    Applied,
    Skipped,
    ConflictKeptLocal,
    ConflictKeptRemote,
    ConflictMerged,
    ConflictKeptBoth,
}

/// The next step in applying a remote object.
pub enum RemoteApply {
    /// Write these objects, in order, and report `report`.
    Done { writes: Vec<StoredObject>, report: ApplyReport },
    /// Hand `conflict` to the resolver, then settle it with `remote_candidate`.
    Resolve { conflict: Conflict, remote_candidate: StoredObject },
}

/// The next step as plain values.
pub enum RemoteApplyView {
    Done { writes: Seq<StoredObjectView>, report: ApplyReport },
    Resolve { conflict: ConflictView, remote_candidate: StoredObjectView },
}

impl View for RemoteApply {
    type V = RemoteApplyView;

    open spec fn view(&self) -> RemoteApplyView {
        match self {
            RemoteApply::Done { writes, report } => RemoteApplyView::Done {
                writes: objects_view(writes@),
                report: *report,
            },
            RemoteApply::Resolve { conflict, remote_candidate } => RemoteApplyView::Resolve {
                conflict: conflict@,
                remote_candidate: remote_candidate@,
            },
        }
    }
}

/// How a remote object meets the local copy: stored when there is no local
/// copy or the local copy is causally older, skipped when the local copy is
/// equal or newer, and sent to the resolver when the two are concurrent.
pub open spec fn apply_plan(local: Option<StoredObjectView>, remote: StoredObjectView) -> RemoteApplyView {
    match local {
        None => RemoteApplyView::Done { writes: seq![remote], report: ApplyReport::Applied },
        Some(l) => match causality_of(l.version, remote.version) {
            Causality::Equal | Causality::After => RemoteApplyView::Done {
                writes: seq![],
                report: ApplyReport::Skipped,
            },
            Causality::Before => RemoteApplyView::Done {
                writes: seq![remote],
                report: ApplyReport::Applied,
            },
            Causality::Concurrent => RemoteApplyView::Resolve {
                conflict: ConflictView { key: remote.key, local: l, remote },
                remote_candidate: remote,
            },
        },
    }
}

/// Decides what to do with `remote` given the locally stored copy.
pub fn plan_remote_object(local: Option<StoredObject>, remote: StoredObject) -> (res: RemoteApply)
    ensures
        res@ == apply_plan(
            match local {
                Some(l) => Some(l@),
                None => None,
            },
            remote@,
        ),
{
    match local {
        None => {
            let mut writes = Vec::new();
            writes.push(remote);
            assert(objects_view(writes@) =~= seq![remote@]);
            RemoteApply::Done { writes, report: ApplyReport::Applied }
        },
        Some(local) => match local.version.compare(&remote.version) {
            Causality::Equal | Causality::After => {
                let writes: Vec<StoredObject> = Vec::new();
                assert(objects_view(writes@) =~= Seq::<StoredObjectView>::empty());
                RemoteApply::Done { writes, report: ApplyReport::Skipped }
            },
            Causality::Before => {
                let mut writes = Vec::new();
                writes.push(remote);
                assert(objects_view(writes@) =~= seq![remote@]);
                RemoteApply::Done { writes, report: ApplyReport::Applied }
            },
            Causality::Concurrent => {
                let key = remote.key.clone();
                let remote_candidate = remote.clone();
                RemoteApply::Resolve { conflict: Conflict { key, local, remote }, remote_candidate }
            },
        },
    }
}

/// The objects a resolution writes, in order, and the report it yields.
pub open spec fn resolution_effect(resolution: ResolutionView, remote_candidate: StoredObjectView) -> (
    Seq<StoredObjectView>,
    ApplyReport,
) {
    match resolution {
        ResolutionView::KeepLocal => (seq![], ApplyReport::ConflictKeptLocal),
        ResolutionView::KeepRemote => (seq![remote_candidate], ApplyReport::ConflictKeptRemote),
        ResolutionView::Merge(object) => (seq![object], ApplyReport::ConflictMerged),
        ResolutionView::KeepBoth(objects) => (objects, ApplyReport::ConflictKeptBoth),
    }
}

/// Turns a resolution into the objects to write and the report.
pub fn resolution_writes(resolution: Resolution, remote_candidate: StoredObject) -> (res: (
    Vec<StoredObject>,
    ApplyReport,
))
    ensures
        (objects_view(res.0@), res.1) == resolution_effect(resolution@, remote_candidate@),
{
    match resolution {
        Resolution::KeepLocal => {
            let writes: Vec<StoredObject> = Vec::new();
            assert(objects_view(writes@) =~= Seq::<StoredObjectView>::empty());
            (writes, ApplyReport::ConflictKeptLocal)
        },
        Resolution::KeepRemote => {
            let mut writes = Vec::new();
            writes.push(remote_candidate);
            assert(objects_view(writes@) =~= seq![remote_candidate@]);
            (writes, ApplyReport::ConflictKeptRemote)
        },
        Resolution::Merge(object) => {
            let ghost o = object@;
            let mut writes = Vec::new();
            writes.push(object);
            assert(objects_view(writes@) =~= seq![o]);
            (writes, ApplyReport::ConflictMerged)
        },
        Resolution::KeepBoth(objects) => (objects, ApplyReport::ConflictKeptBoth),
    }
}

/// The copy a replica holds after applying `remote` to its copy `local` of
/// the same object, conflicts being settled by last-writer-wins.
pub open spec fn lww_apply(local: StoredObjectView, remote: StoredObjectView) -> StoredObjectView {
    let writes = match apply_plan(Some(local), remote) {
        RemoteApplyView::Done { writes, .. } => writes,
        RemoteApplyView::Resolve { conflict, remote_candidate } => resolution_effect(
            last_writer_wins(conflict),
            remote_candidate,
        ).0,
    };
    if writes.len() == 0 {
        local
    } else {
        writes.last()
    }
}

/// Two replicas that exchange their copies of an object end with the same
/// copy, whenever the copies carry different version vectors: one that is
/// causally newer wins on both sides, and of two concurrent copies the later
/// one wins on both sides, ties settled by the version vectors.
pub proof fn lemma_lww_converges(a: StoredObjectView, b: StoredObjectView)
    requires
        a.version.dom().finite(),
        b.version.dom().finite(),
        causality_of(a.version, b.version) != Causality::Equal,
    ensures
        lww_apply(a, b) == lww_apply(b, a),
{
    lemma_compare_converse(a.version, b.version);
    lemma_version_lt_asymmetric(a.version, b.version);
    if causality_of(a.version, b.version) == Causality::Concurrent {
        let d = choose|d: Seq<char>| #[trigger] counter_of(a.version, d) < counter_of(b.version, d);
        assert(counter_of(a.version, d) != counter_of(b.version, d));
        lemma_version_lt_total(a.version, b.version);
    }
}

/// Applying the same remote copy a second time changes nothing.
pub proof fn lemma_lww_idempotent(local: StoredObjectView, remote: StoredObjectView)
    ensures
        lww_apply(lww_apply(local, remote), remote) == lww_apply(local, remote),
{
    lemma_compare_reflexive(remote.version);
}

/// A copy that is causally newer than the local one always replaces it, and
/// one that is causally older or equal never does.
pub proof fn lemma_apply_respects_causality(local: StoredObjectView, remote: StoredObjectView)
    ensures
        causality_of(local.version, remote.version) == Causality::Before ==> lww_apply(local, remote) == remote,
        causality_of(local.version, remote.version) == Causality::After ==> lww_apply(local, remote) == local,
        causality_of(local.version, remote.version) == Causality::Equal ==> lww_apply(local, remote) == local,
{
}

/// Of two copies written at different times, last-writer-wins keeps the one
/// written later in hybrid-logical time: the wall clock decides first, and
/// the logical counter only between equal wall times. It never merges or
/// keeps both.
pub proof fn lemma_lww_later_write_wins(conflict: ConflictView)
    ensures
        ({
            let l = conflict.local.updated_at;
            let r = conflict.remote.updated_at;
            &&& (l.wall_time_ms < r.wall_time_ms || (l.wall_time_ms == r.wall_time_ms && l.logical
                < r.logical)) ==> last_writer_wins(conflict) is KeepRemote
            &&& (r.wall_time_ms < l.wall_time_ms || (r.wall_time_ms == l.wall_time_ms && r.logical
                < l.logical)) ==> last_writer_wins(conflict) is KeepLocal
            &&& (last_writer_wins(conflict) is KeepLocal || last_writer_wins(conflict) is KeepRemote)
        }),
{
}

/// Where a remote object lands: with no local copy it is stored as it is,
/// tombstone or not; a causally newer copy is stored; an equal or older one
/// is skipped; and a concurrent one goes to the resolver as a conflict of
/// the local copy against the remote one, under the remote key.
pub proof fn lemma_apply_plan_outcomes(local: Option<StoredObjectView>, remote: StoredObjectView)
    ensures
        local is None ==> (apply_plan(local, remote) matches RemoteApplyView::Done { writes, report }
            && writes == seq![remote] && report == ApplyReport::Applied),
        local matches Some(l) && causality_of(l.version, remote.version) == Causality::Before ==> (apply_plan(
            local,
            remote,
        ) matches RemoteApplyView::Done { writes, report } && writes == seq![remote] && report
            == ApplyReport::Applied),
        local matches Some(l) && (causality_of(l.version, remote.version) == Causality::Equal
            || causality_of(l.version, remote.version) == Causality::After) ==> (apply_plan(
            local,
            remote,
        ) matches RemoteApplyView::Done { writes, report } && writes.len() == 0 && report
            == ApplyReport::Skipped),
        local matches Some(l) && causality_of(l.version, remote.version) == Causality::Concurrent ==> (
        apply_plan(local, remote) matches RemoteApplyView::Resolve { conflict, remote_candidate }
            && conflict.key == remote.key && Some(conflict.local) == local && conflict.remote == remote
            && remote_candidate == remote),
{
}

/// Keeping both changes nothing but the object ids: the local copy is kept
/// as `<id>@local` and the remote copy as `<id>@remote`, each with its own
/// collection, payload, version vector, update time and tombstone bit.
pub proof fn lemma_keep_both_only_renames(conflict: ConflictView)
    ensures
        keep_both(conflict) matches ResolutionView::KeepBoth(kept) && kept.len() == 2 && {
            let l = conflict.local;
            let r = conflict.remote;
            &&& kept[0].key.collection == l.key.collection
            &&& kept[0].key.object_id == l.key.object_id + "@local"@
            &&& kept[0].payload == l.payload
            &&& kept[0].version == l.version
            &&& kept[0].updated_at == l.updated_at
            &&& kept[0].deleted == l.deleted
            &&& kept[1].key.collection == r.key.collection
            &&& kept[1].key.object_id == r.key.object_id + "@remote"@
            &&& kept[1].payload == r.payload
            &&& kept[1].version == r.version
            &&& kept[1].updated_at == r.updated_at
            &&& kept[1].deleted == r.deleted
        },
{
}

/// What each resolution writes: keeping the local copy writes nothing,
/// keeping the remote copy writes the remote candidate, a merge writes the
/// merged object, and keeping both writes both copies in order.
pub proof fn lemma_resolution_outcomes(resolution: ResolutionView, remote_candidate: StoredObjectView)
    ensures
        resolution is KeepLocal ==> resolution_effect(resolution, remote_candidate).0.len() == 0
            && resolution_effect(resolution, remote_candidate).1 == ApplyReport::ConflictKeptLocal,
        resolution is KeepRemote ==> resolution_effect(resolution, remote_candidate).0 == seq![remote_candidate]
            && resolution_effect(resolution, remote_candidate).1 == ApplyReport::ConflictKeptRemote,
        resolution matches ResolutionView::Merge(o) ==> resolution_effect(resolution, remote_candidate).0
            == seq![o] && resolution_effect(resolution, remote_candidate).1 == ApplyReport::ConflictMerged,
        resolution matches ResolutionView::KeepBoth(objects) ==> resolution_effect(resolution, remote_candidate).0
            == objects && resolution_effect(resolution, remote_candidate).1 == ApplyReport::ConflictKeptBoth,
{
}

} // verus!
