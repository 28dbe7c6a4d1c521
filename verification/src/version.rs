//! Version vectors: one counter per device, used to tell whether one update
//! causally precedes another or whether two updates are concurrent.

use vstd::prelude::*;

use crate::ids::DeviceId;
use crate::text_order::{
    compare_text, lemma_text_lt_irreflexive, lemma_text_lt_total, lemma_text_lt_transitive, text_lt,
    KeyOrder,
};

verus! {

/// How two version vectors relate causally.
#[derive(Clone, Copy, Debug, PartialEq, Eq, Structural)]
pub enum Causality {
    Equal,
    Before,
    After,
    Concurrent,
}

/// The counter a version vector holds for `device`; a device it does not
/// mention counts zero.
pub open spec fn counter_of(m: Map<Seq<char>, u64>, device: Seq<char>) -> u64 {
    if m.dom().contains(device) {
        m[device]
    } else {
        0
    }
}

/// Some device has a smaller counter in `a` than in `b`.
pub open spec fn some_counter_below(a: Map<Seq<char>, u64>, b: Map<Seq<char>, u64>) -> bool {
    exists|d: Seq<char>| #[trigger] counter_of(a, d) < counter_of(b, d)
}

/// The causal relation of `a` to `b`, decided counter by counter.
pub open spec fn causality_of(a: Map<Seq<char>, u64>, b: Map<Seq<char>, u64>) -> Causality {
    let less = some_counter_below(a, b);
    let greater = some_counter_below(b, a);
    if !less && !greater {
        Causality::Equal
    } else if less && !greater {
        Causality::Before
    } else if !less && greater {
        Causality::After
    } else {
        Causality::Concurrent
    }
}

/// The vector that records, for every device in either input, the larger of
/// the two counters.
pub open spec fn merged(a: Map<Seq<char>, u64>, b: Map<Seq<char>, u64>) -> Map<Seq<char>, u64> {
    Map::new(
        |d: Seq<char>| a.dom().contains(d) || b.dom().contains(d),
        |d: Seq<char>|
            if counter_of(a, d) >= counter_of(b, d) {
                counter_of(a, d)
            } else {
                counter_of(b, d)
            },
    )
}

/// The vector after one more event on `device`; the counter stays at the
/// maximum once it is reached.
pub open spec fn incremented(m: Map<Seq<char>, u64>, device: Seq<char>) -> Map<Seq<char>, u64> {
    m.insert(
        device,
        if counter_of(m, device) == u64::MAX {
            u64::MAX
        } else {
            (counter_of(m, device) + 1) as u64
        },
    )
}

/// The map described by a list of (device, counter) pairs; a later pair for
/// the same device overrides an earlier one.
pub open spec fn entries_map(s: Seq<(DeviceId, u64)>) -> Map<Seq<char>, u64>
    decreases s.len(),
{
    if s.len() == 0 {
        Map::empty()
    } else {
        entries_map(s.drop_last()).insert(s.last().0@, s.last().1)
    }
}

/// No device appears twice in the list.
pub open spec fn distinct_devices(s: Seq<(DeviceId, u64)>) -> bool {
    forall|i: int, j: int|
        0 <= i < s.len() && 0 <= j < s.len() && i != j ==> #[trigger] s[i].0@ != #[trigger] s[j].0@
}

proof fn lemma_entries_dom(s: Seq<(DeviceId, u64)>, k: Seq<char>)
    ensures
        entries_map(s).dom().contains(k) <==> exists|i: int| 0 <= i < s.len() && #[trigger] s[i].0@ == k,
    decreases s.len(),
{
    if s.len() > 0 {
        lemma_entries_dom(s.drop_last(), k);
        if entries_map(s).dom().contains(k) && k != s.last().0@ {
            let i = choose|i: int| 0 <= i < s.drop_last().len() && #[trigger] s.drop_last()[i].0@ == k;
            assert(s[i].0@ == k);
        }
        if exists|i: int| 0 <= i < s.len() && #[trigger] s[i].0@ == k {
            let i = choose|i: int| 0 <= i < s.len() && #[trigger] s[i].0@ == k;
            if i < s.len() - 1 {
                assert(s.drop_last()[i].0@ == k);
            }
        }
    }
}

proof fn lemma_entries_value(s: Seq<(DeviceId, u64)>, i: int)
    requires
        distinct_devices(s),
        0 <= i < s.len(),
    ensures
        entries_map(s).dom().contains(s[i].0@),
        entries_map(s)[s[i].0@] == s[i].1,
    decreases s.len(),
{
    if i < s.len() - 1 {
        let t = s.drop_last();
        assert(t[i] == s[i]);
        assert(distinct_devices(t)) by {
            assert forall|a: int, b: int|
                0 <= a < t.len() && 0 <= b < t.len() && a != b implies #[trigger] t[a].0@
                != #[trigger] t[b].0@ by {
                assert(t[a] == s[a] && t[b] == s[b]);
            }
        }
        lemma_entries_value(t, i);
        assert(s[i].0@ != s[s.len() - 1].0@);
    }
}

/// The counters of a well-formed list, read through its map.
proof fn lemma_entries_counter(s: Seq<(DeviceId, u64)>, k: Seq<char>)
    requires
        distinct_devices(s),
    ensures
        forall|i: int| 0 <= i < s.len() && #[trigger] s[i].0@ == k ==> counter_of(entries_map(s), k) == s[i].1,
        (forall|i: int| 0 <= i < s.len() ==> #[trigger] s[i].0@ != k) ==> counter_of(entries_map(s), k) == 0,
{
    lemma_entries_dom(s, k);
    assert forall|i: int| 0 <= i < s.len() && #[trigger] s[i].0@ == k implies counter_of(entries_map(s), k) == s[i].1 by {
        lemma_entries_value(s, i);
    }
}

/// Replacing the counter at a position changes the map at that device only.
proof fn lemma_entries_update(s: Seq<(DeviceId, u64)>, i: int, d: DeviceId, c: u64)
    requires
        distinct_devices(s),
        0 <= i < s.len(),
        d@ == s[i].0@,
    ensures
        distinct_devices(s.update(i, (d, c))),
        entries_map(s.update(i, (d, c))) == entries_map(s).insert(d@, c),
{
    let t = s.update(i, (d, c));
    assert forall|a: int, b: int|
        0 <= a < t.len() && 0 <= b < t.len() && a != b implies #[trigger] t[a].0@ != #[trigger] t[b].0@ by {
        assert(t[a].0@ == s[a].0@ && t[b].0@ == s[b].0@);
    }
    assert forall|k: Seq<char>| #[trigger] entries_map(t).dom().contains(k) <==> entries_map(s).insert(d@, c).dom().contains(k) by {
        lemma_entries_dom(s, k);
        lemma_entries_dom(t, k);
        if exists|j: int| 0 <= j < s.len() && #[trigger] s[j].0@ == k {
            let j = choose|j: int| 0 <= j < s.len() && #[trigger] s[j].0@ == k;
            assert(t[j].0@ == k);
        }
        if exists|j: int| 0 <= j < t.len() && #[trigger] t[j].0@ == k {
            let j = choose|j: int| 0 <= j < t.len() && #[trigger] t[j].0@ == k;
            assert(s[j].0@ == k);
        }
    }
    assert forall|k: Seq<char>| #[trigger] entries_map(t).dom().contains(k) implies entries_map(t)[k] == entries_map(s).insert(d@, c)[k] by {
        lemma_entries_dom(t, k);
        let j = choose|j: int| 0 <= j < t.len() && #[trigger] t[j].0@ == k;
        lemma_entries_value(t, j);
        if j != i {
            assert(s[j] == t[j]);
            lemma_entries_value(s, j);
        }
    }
    assert(entries_map(t) =~= entries_map(s).insert(d@, c));
}

/// Appending a pair for a new device adds exactly that device.
proof fn lemma_entries_push(s: Seq<(DeviceId, u64)>, d: DeviceId, c: u64)
    requires
        distinct_devices(s),
        forall|i: int| 0 <= i < s.len() ==> #[trigger] s[i].0@ != d@,
    ensures
        distinct_devices(s.push((d, c))),
        entries_map(s.push((d, c))) == entries_map(s).insert(d@, c),
{
    let t = s.push((d, c));
    assert forall|a: int, b: int|
        0 <= a < t.len() && 0 <= b < t.len() && a != b implies #[trigger] t[a].0@ != #[trigger] t[b].0@ by {
        if a < s.len() {
            assert(t[a] == s[a]);
        }
        if b < s.len() {
            assert(t[b] == s[b]);
        }
    }
    assert(t.drop_last() =~= s);
}

/// The devices are listed in strictly increasing order of their UTF-8
/// bytes, the order of `str`.
pub open spec fn sorted_devices(s: Seq<(DeviceId, u64)>) -> bool {
    forall|i: int, j: int| 0 <= i < j < s.len() ==> text_lt(#[trigger] s[i].0@, #[trigger] s[j].0@)
}

/// A strictly increasing list names no device twice.
proof fn lemma_sorted_distinct(s: Seq<(DeviceId, u64)>)
    requires
        sorted_devices(s),
    ensures
        distinct_devices(s),
{
    assert forall|i: int, j: int| 0 <= i < s.len() && 0 <= j < s.len() && i != j implies #[trigger] s[i].0@
        != #[trigger] s[j].0@ by {
        lemma_text_lt_irreflexive(s[i].0@);
    }
}

/// Replacing the counter at a position keeps the devices in order.
proof fn lemma_sorted_update(s: Seq<(DeviceId, u64)>, i: int, d: DeviceId, c: u64)
    requires
        sorted_devices(s),
        0 <= i < s.len(),
        d@ == s[i].0@,
    ensures
        sorted_devices(s.update(i, (d, c))),
{
    let t = s.update(i, (d, c));
    assert forall|a: int, b: int| 0 <= a < b < t.len() implies text_lt(#[trigger] t[a].0@, #[trigger] t[b].0@) by {
        assert(t[a].0@ == s[a].0@ && t[b].0@ == s[b].0@);
    }
}

/// Inserting a new device at its place in the order keeps the list in
/// order and adds exactly that device.
proof fn lemma_sorted_insert(s: Seq<(DeviceId, u64)>, i: int, d: DeviceId, c: u64)
    requires
        sorted_devices(s),
        0 <= i <= s.len(),
        forall|j: int| 0 <= j < i ==> text_lt(#[trigger] s[j].0@, d@),
        forall|j: int| i <= j < s.len() ==> text_lt(d@, #[trigger] s[j].0@),
    ensures
        sorted_devices(s.insert(i, (d, c))),
        distinct_devices(s.insert(i, (d, c))),
        entries_map(s.insert(i, (d, c))) == entries_map(s).insert(d@, c),
{
    let t = s.insert(i, (d, c));
    assert forall|a: int, b: int| 0 <= a < b < t.len() implies text_lt(#[trigger] t[a].0@, #[trigger] t[b].0@) by {
        if b < i {
            assert(t[a] == s[a] && t[b] == s[b]);
        } else if b == i {
            assert(t[a] == s[a]);
        } else if a < i {
            assert(t[a] == s[a] && t[b] == s[b - 1]);
        } else if a == i {
            assert(t[b] == s[b - 1]);
        } else {
            assert(t[a] == s[a - 1] && t[b] == s[b - 1]);
        }
    }
    lemma_sorted_distinct(s);
    lemma_sorted_distinct(t);
    lemma_text_lt_irreflexive(d@);
    assert forall|j: int| 0 <= j < s.len() implies #[trigger] s[j].0@ != d@ by {
        if j >= i {
            assert(text_lt(d@, s[j].0@));
        }
    }
    assert forall|k: Seq<char>| #[trigger] entries_map(t).dom().contains(k) <==> entries_map(s).insert(d@, c).dom().contains(k) by {
        lemma_entries_dom(s, k);
        lemma_entries_dom(t, k);
        if exists|j: int| 0 <= j < s.len() && #[trigger] s[j].0@ == k {
            let j = choose|j: int| 0 <= j < s.len() && #[trigger] s[j].0@ == k;
            if j < i {
                assert(t[j].0@ == k);
            } else {
                assert(t[j + 1].0@ == k);
            }
        }
        if k == d@ {
            assert(t[i].0@ == k);
        }
        if exists|j: int| 0 <= j < t.len() && #[trigger] t[j].0@ == k {
            let j = choose|j: int| 0 <= j < t.len() && #[trigger] t[j].0@ == k;
            if j < i {
                assert(s[j].0@ == k);
            } else if j > i {
                assert(s[j - 1].0@ == k);
            }
        }
    }
    assert forall|k: Seq<char>| #[trigger] entries_map(t).dom().contains(k) implies entries_map(t)[k] == entries_map(s).insert(d@, c)[k] by {
        lemma_entries_dom(t, k);
        let j = choose|j: int| 0 <= j < t.len() && #[trigger] t[j].0@ == k;
        lemma_entries_value(t, j);
        if j < i {
            assert(s[j] == t[j]);
            lemma_entries_value(s, j);
        } else if j > i {
            assert(s[j - 1] == t[j]);
            lemma_entries_value(s, j - 1);
        }
    }
    assert(entries_map(t) =~= entries_map(s).insert(d@, c));
}

/// The (device, counter) pairs of a list, each device by its characters.
pub open spec fn entry_view(s: Seq<(DeviceId, u64)>) -> Seq<(Seq<char>, u64)> {
    s.map_values(|e: (DeviceId, u64)| (e.0@, e.1))
}

/// An ordered list is determined by the counters it describes: two ordered
/// lists for the same counters hold the same pairs in the same order.
pub proof fn lemma_sorted_entries_determined(s: Seq<(DeviceId, u64)>, t: Seq<(DeviceId, u64)>)
    requires
        sorted_devices(s),
        sorted_devices(t),
        entries_map(s) == entries_map(t),
    ensures
        entry_view(s) == entry_view(t),
    decreases s.len(),
{
    lemma_sorted_distinct(s);
    lemma_sorted_distinct(t);
    if s.len() == 0 {
        if t.len() > 0 {
            lemma_entries_value(t, t.len() - 1);
            assert(entries_map(s) =~= Map::<Seq<char>, u64>::empty());
        }
        assert(entry_view(s) =~= entry_view(t));
    } else {
        let m = s.len() - 1;
        let k = s[m].0@;
        lemma_entries_value(s, m);
        if t.len() == 0 {
            assert(entries_map(t) =~= Map::<Seq<char>, u64>::empty());
        }
        let n = t.len() - 1;
        let kt = t[n].0@;
        lemma_entries_value(t, n);
        if k != kt {
            lemma_entries_dom(s, kt);
            lemma_entries_dom(t, k);
            let j = choose|j: int| 0 <= j < s.len() && #[trigger] s[j].0@ == kt;
            let i = choose|i: int| 0 <= i < t.len() && #[trigger] t[i].0@ == k;
            assert(text_lt(s[j].0@, s[m].0@));
            assert(text_lt(t[i].0@, t[n].0@));
            lemma_text_lt_total(k, kt);
        }
        let s2 = s.drop_last();
        let t2 = t.drop_last();
        assert(sorted_devices(s2)) by {
            assert forall|a: int, b: int| 0 <= a < b < s2.len() implies text_lt(#[trigger] s2[a].0@, #[trigger] s2[b].0@) by {
                assert(s2[a] == s[a] && s2[b] == s[b]);
            }
        }
        assert(sorted_devices(t2)) by {
            assert forall|a: int, b: int| 0 <= a < b < t2.len() implies text_lt(#[trigger] t2[a].0@, #[trigger] t2[b].0@) by {
                assert(t2[a] == t[a] && t2[b] == t[b]);
            }
        }
        lemma_entries_dom(s2, k);
        lemma_entries_dom(t2, k);
        assert forall|j: int| 0 <= j < s2.len() implies #[trigger] s2[j].0@ != k by {
            assert(s2[j] == s[j]);
        }
        assert forall|j: int| 0 <= j < t2.len() implies #[trigger] t2[j].0@ != k by {
            assert(t2[j] == t[j]);
        }
        assert(entries_map(s2) =~= entries_map(s).remove(k));
        assert(entries_map(t2) =~= entries_map(t).remove(k));
        lemma_sorted_entries_determined(s2, t2);
        assert(entry_view(s) =~= entry_view(s2).push((k, s[m].1)));
        assert(entry_view(t) =~= entry_view(t2).push((k, t[n].1)));
    }
}

/// Where `device` sits in an ordered list of entries: `(true, i)` when it is
/// listed at `i`, else `(false, i)` with `i` the place where it belongs.
fn locate(entries: &Vec<(DeviceId, u64)>, device: &DeviceId) -> (res: (bool, usize))
    requires
        sorted_devices(entries@),
    ensures
        res.1 <= entries@.len(),
        res.0 ==> res.1 < entries@.len() && entries@[res.1 as int].0@ == device@,
        !res.0 ==> forall|j: int| 0 <= j < res.1 ==> text_lt(#[trigger] entries@[j].0@, device@),
        !res.0 ==> forall|j: int| res.1 <= j < entries@.len() ==> text_lt(device@, #[trigger] entries@[j].0@),
{
    let mut i: usize = 0;
    while i < entries.len()
        invariant
            i <= entries@.len(),
            sorted_devices(entries@),
            forall|j: int| 0 <= j < i ==> text_lt(#[trigger] entries@[j].0@, device@),
        decreases entries@.len() - i,
    {
        match compare_text(entries[i].0.as_str(), device.as_str()) {
            KeyOrder::Less => {
                i = i + 1;
            },
            KeyOrder::Equal => {
                return (true, i);
            },
            KeyOrder::Greater => {
                proof {
                    assert forall|j: int| i <= j < entries@.len() implies text_lt(device@, #[trigger] entries@[j].0@) by {
                        if j > i {
                            assert(text_lt(entries@[i as int].0@, entries@[j].0@));
                            lemma_text_lt_transitive(device@, entries@[i as int].0@, entries@[j].0@);
                        }
                    }
                }
                return (false, i);
            },
        }
    }
    (false, i)
}

/// Where `device` sits in an ordered list of entries, if it is there.
fn position(entries: &Vec<(DeviceId, u64)>, device: &DeviceId) -> (res: Option<usize>)
    requires
        sorted_devices(entries@),
    ensures
        match res {
            Some(i) => i < entries@.len() && entries@[i as int].0@ == device@,
            None => forall|i: int| 0 <= i < entries@.len() ==> #[trigger] entries@[i].0@ != device@,
        },
{
    let (found, i) = locate(entries, device);
    proof {
        lemma_text_lt_irreflexive(device@);
        if !found {
            assert forall|j: int| 0 <= j < entries@.len() implies #[trigger] entries@[j].0@ != device@ by {
                if j < i {
                    assert(text_lt(entries@[j].0@, device@));
                } else {
                    assert(text_lt(device@, entries@[j].0@));
                }
            }
        }
    }
    if found {
        Some(i)
    } else {
        None
    }
}

/// One of the first `n` listed devices has a smaller counter in `a` than in `b`.
pub open spec fn some_listed_below(
    a: Map<Seq<char>, u64>,
    b: Map<Seq<char>, u64>,
    s: Seq<(DeviceId, u64)>,
    n: int,
) -> bool {
    exists|j: int| 0 <= j < n && #[trigger] counter_of(a, s[j].0@) < counter_of(b, s[j].0@)
}

/// Some device has a smaller counter in `a` than in `b` exactly when one of
/// the listed devices has, provided the lists cover both domains.
proof fn lemma_below_witness(
    a: Map<Seq<char>, u64>,
    b: Map<Seq<char>, u64>,
    s: Seq<(DeviceId, u64)>,
    t: Seq<(DeviceId, u64)>,
    flag: bool,
)
    requires
        forall|d: Seq<char>|
            a.dom().contains(d) || b.dom().contains(d) ==> (exists|j: int|
                0 <= j < s.len() && #[trigger] s[j].0@ == d) || (exists|j: int|
                0 <= j < t.len() && #[trigger] t[j].0@ == d),
        flag == (some_listed_below(a, b, s, s.len() as int) || some_listed_below(a, b, t, t.len() as int)),
    ensures
        flag == some_counter_below(a, b),
{
    if exists|d: Seq<char>| #[trigger] counter_of(a, d) < counter_of(b, d) {
        let d = choose|d: Seq<char>| #[trigger] counter_of(a, d) < counter_of(b, d);
        assert(a.dom().contains(d) || b.dom().contains(d));
        if exists|j: int| 0 <= j < s.len() && #[trigger] s[j].0@ == d {
            let j = choose|j: int| 0 <= j < s.len() && #[trigger] s[j].0@ == d;
            assert(counter_of(a, s[j].0@) < counter_of(b, s[j].0@));
        } else {
            let j = choose|j: int| 0 <= j < t.len() && #[trigger] t[j].0@ == d;
            assert(counter_of(a, t[j].0@) < counter_of(b, t[j].0@));
        }
    }
}

/// `a` and `b` hold the same counter for every device that comes before
/// `d` in the order of device ids.
pub open spec fn agree_below(a: Map<Seq<char>, u64>, b: Map<Seq<char>, u64>, d: Seq<char>) -> bool {
    forall|e: Seq<char>| #![trigger text_lt(e, d)] text_lt(e, d) ==> counter_of(a, e) == counter_of(b, e)
}

/// At the first device, in the order of device ids, where the two vectors
/// hold different counters, `a` holds the smaller one.
pub open spec fn version_lt(a: Map<Seq<char>, u64>, b: Map<Seq<char>, u64>) -> bool {
    exists|d: Seq<char>| #[trigger] agree_below(a, b, d) && counter_of(a, d) < counter_of(b, d)
}

/// Where the first difference lies decides the order: if `a` and `b` differ
/// at `d` and agree on every earlier device, `a` comes first exactly when
/// its counter at `d` is the smaller.
proof fn lemma_version_lt_at(a: Map<Seq<char>, u64>, b: Map<Seq<char>, u64>, d: Seq<char>)
    requires
        counter_of(a, d) != counter_of(b, d),
        agree_below(a, b, d),
    ensures
        version_lt(a, b) == (counter_of(a, d) < counter_of(b, d)),
{
    if version_lt(a, b) {
        let w = choose|w: Seq<char>| #[trigger] agree_below(a, b, w) && counter_of(a, w) < counter_of(b, w);
        lemma_text_lt_total(w, d);
        if text_lt(w, d) {
            assert(counter_of(a, w) == counter_of(b, w));
        } else if text_lt(d, w) {
            assert(counter_of(a, d) == counter_of(b, d));
        }
    }
    if counter_of(a, d) < counter_of(b, d) {
        assert(agree_below(a, b, d));
    }
}

/// Of two vectors, at most one comes before the other.
pub proof fn lemma_version_lt_asymmetric(a: Map<Seq<char>, u64>, b: Map<Seq<char>, u64>)
    ensures
        version_lt(a, b) ==> !version_lt(b, a),
{
    if version_lt(a, b) {
        let d = choose|d: Seq<char>| #[trigger] agree_below(a, b, d) && counter_of(a, d) < counter_of(b, d);
        assert forall|e: Seq<char>| text_lt(e, d) implies #[trigger] counter_of(b, e) == counter_of(a, e) by {
            assert(text_lt(e, d));
        }
        assert(agree_below(b, a, d));
        lemma_version_lt_at(b, a, d);
    }
}

/// A finite, non-empty set of device ids has a first one.
proof fn lemma_first_device(s: Set<Seq<char>>) -> (m: Seq<char>)
    requires
        s.finite(),
        s.len() > 0,
    ensures
        s.contains(m),
        forall|e: Seq<char>| s.contains(e) ==> !text_lt(e, m),
    decreases s.len(),
{
    let x = s.choose();
    let rest = s.remove(x);
    lemma_text_lt_irreflexive(x);
    if rest.len() == 0 {
        assert forall|e: Seq<char>| s.contains(e) implies !text_lt(e, x) by {
            if e != x {
                assert(rest.contains(e));
            }
        }
        x
    } else {
        let m2 = lemma_first_device(rest);
        if text_lt(x, m2) {
            assert forall|e: Seq<char>| s.contains(e) implies !text_lt(e, x) by {
                if e != x && text_lt(e, x) {
                    assert(rest.contains(e));
                    lemma_text_lt_transitive(e, x, m2);
                }
            }
            x
        } else {
            assert forall|e: Seq<char>| s.contains(e) implies !text_lt(e, m2) by {
                if e != x {
                    assert(rest.contains(e));
                }
            }
            m2
        }
    }
}

/// Of two vectors with finitely many devices that differ somewhere, one
/// comes before the other.
pub proof fn lemma_version_lt_total(a: Map<Seq<char>, u64>, b: Map<Seq<char>, u64>)
    requires
        a.dom().finite(),
        b.dom().finite(),
        exists|d: Seq<char>| #[trigger] counter_of(a, d) != counter_of(b, d),
    ensures
        version_lt(a, b) || version_lt(b, a),
{
    let differ = Set::new(|d: Seq<char>| counter_of(a, d) != counter_of(b, d));
    let diff = a.dom().union(b.dom()).intersect(differ);
    let d0 = choose|d: Seq<char>| #[trigger] counter_of(a, d) != counter_of(b, d);
    assert(diff.contains(d0));
    assert(diff.finite());
    assert(diff.len() > 0);
    let m = lemma_first_device(diff);
    assert forall|e: Seq<char>| text_lt(e, m) implies #[trigger] counter_of(a, e) == counter_of(b, e) by {
        if counter_of(a, e) != counter_of(b, e) {
            assert(diff.contains(e));
        }
    }
    assert(agree_below(a, b, m));
    lemma_version_lt_at(a, b, m);
    lemma_version_lt_asymmetric(a, b);
    assert forall|e: Seq<char>| text_lt(e, m) implies #[trigger] counter_of(b, e) == counter_of(a, e) by {
        assert(text_lt(e, m));
    }
    assert(agree_below(b, a, m));
    lemma_version_lt_at(b, a, m);
}

/// A vector built from a list of entries names finitely many devices.
pub proof fn lemma_entries_finite(s: Seq<(DeviceId, u64)>)
    ensures
        entries_map(s).dom().finite(),
    decreases s.len(),
{
    if s.len() > 0 {
        lemma_entries_finite(s.drop_last());
    }
}

/// The devices before `d` listed in an ordered list agree in `x` and `y`,
/// given how far a scan of the list found them to agree: on the whole list,
/// or before position `i`, where the listed device is `d` or after it.
proof fn lemma_scan_agrees(
    s: Seq<(DeviceId, u64)>,
    x: Map<Seq<char>, u64>,
    y: Map<Seq<char>, u64>,
    scanned: Option<usize>,
    d: Seq<char>,
)
    requires
        sorted_devices(s),
        match scanned {
            None => forall|j: int| 0 <= j < s.len() ==> #[trigger] counter_of(x, s[j].0@) == counter_of(y, s[j].0@),
            Some(i) => {
                &&& i < s.len()
                &&& forall|j: int| 0 <= j < i ==> #[trigger] counter_of(x, s[j].0@) == counter_of(y, s[j].0@)
                &&& (s[i as int].0@ == d || text_lt(d, s[i as int].0@))
            },
        },
    ensures
        forall|e: Seq<char>|
            text_lt(e, d) && entries_map(s).dom().contains(e) ==> #[trigger] counter_of(x, e) == counter_of(y, e),
{
    assert forall|e: Seq<char>| text_lt(e, d) && entries_map(s).dom().contains(e) implies #[trigger] counter_of(x, e)
        == counter_of(y, e) by {
        lemma_entries_dom(s, e);
        let k = choose|k: int| 0 <= k < s.len() && #[trigger] s[k].0@ == e;
        assert(counter_of(x, s[k].0@) == counter_of(y, s[k].0@)) by {
            if let Some(i) = scanned {
                if k >= i {
                    let key = s[i as int].0@;
                    lemma_text_lt_irreflexive(e);
                    if k > i {
                        assert(text_lt(key, e));
                        if key == d {
                        } else {
                            lemma_text_lt_transitive(d, key, e);
                        }
                        lemma_text_lt_transitive(e, d, e);
                    } else if key != d {
                        lemma_text_lt_transitive(e, d, e);
                    }
                }
            }
        }
    }
}

/// A counter per device.
#[derive(Debug)]
pub struct VersionVector {
    entries: Vec<(DeviceId, u64)>,
}

impl View for VersionVector {
    type V = Map<Seq<char>, u64>;

    closed spec fn view(&self) -> Map<Seq<char>, u64> {
        entries_map(self.entries@)
    }
}

impl VersionVector {
    #[verifier::type_invariant]
    closed spec fn well_formed(self) -> bool {
        &&& sorted_devices(self.entries@)
        &&& distinct_devices(self.entries@)
    }

    /// The vector with no counters.
    pub fn new() -> (res: Self)
        ensures
            res@ == Map::<Seq<char>, u64>::empty(),
    {
        VersionVector { entries: Vec::new() }
    }

    /// Records one more event on `device_id` and returns its new counter.
    pub fn increment(&mut self, device_id: DeviceId) -> (res: u64)
        ensures
            final(self)@ == incremented(old(self)@, device_id@),
            res == counter_of(final(self)@, device_id@),
    {
        proof {
            use_type_invariant(&*self);
            lemma_entries_counter(self.entries@, device_id@);
        }
        let mut entries = Vec::new();
        std::mem::swap(&mut entries, &mut self.entries);
        let (found, i) = locate(&entries, &device_id);
        let res = if found {
            let counter = entries[i].1.saturating_add(1);
            proof {
                lemma_entries_update(entries@, i as int, device_id, counter);
                lemma_sorted_update(entries@, i as int, device_id, counter);
            }
            entries.set(i, (device_id, counter));
            counter
        } else {
            proof {
                lemma_sorted_insert(entries@, i as int, device_id, 1);
                lemma_sorted_distinct(entries@);
                lemma_entries_counter(entries@, device_id@);
                lemma_text_lt_irreflexive(device_id@);
                assert forall|j: int| 0 <= j < entries@.len() implies #[trigger] entries@[j].0@ != device_id@ by {
                    if j >= i {
                        assert(text_lt(device_id@, entries@[j].0@));
                    }
                }
            }
            entries.insert(i, (device_id, 1));
            1
        };
        self.entries = entries;
        res
    }

    /// The counter recorded for `device_id` (zero when absent).
    pub fn get(&self, device_id: &DeviceId) -> (res: u64)
        ensures
            res == counter_of(self@, device_id@),
    {
        proof {
            use_type_invariant(self);
            lemma_entries_counter(self.entries@, device_id@);
        }
        match position(&self.entries, device_id) {
            Some(i) => self.entries[i].1,
            None => 0,
        }
    }

    /// Raises every counter to at least the one `other` holds, adding the
    /// devices that only `other` mentions.
    pub fn merge(&mut self, other: &Self)
        ensures
            final(self)@ == merged(old(self)@, other@),
    {
        proof {
            use_type_invariant(&*self);
            use_type_invariant(other);
        }
        let ghost start = self@;
        let mut entries = Vec::new();
        std::mem::swap(&mut entries, &mut self.entries);
        let mut j: usize = 0;
        while j < other.entries.len()
            invariant
                j <= other.entries@.len(),
                distinct_devices(other.entries@),
                sorted_devices(entries@),
                distinct_devices(entries@),
                entries_map(entries@) == merged(start, entries_map(other.entries@.take(j as int))),
            decreases other.entries@.len() - j,
        {
            let device = &other.entries[j].0;
            let counter = other.entries[j].1;
            let ghost prefix = other.entries@.take(j as int);
            proof {
                assert(other.entries@.take(j + 1) =~= prefix.push(other.entries@[j as int]));
                assert forall|i: int| 0 <= i < prefix.len() implies #[trigger] prefix[i].0@ != device@ by {
                    assert(prefix[i] == other.entries@[i]);
                }
                assert(distinct_devices(prefix)) by {
                    assert forall|a: int, b: int|
                        0 <= a < prefix.len() && 0 <= b < prefix.len() && a != b implies #[trigger] prefix[a].0@
                        != #[trigger] prefix[b].0@ by {
                        assert(prefix[a] == other.entries@[a] && prefix[b] == other.entries@[b]);
                    }
                }
                lemma_entries_push(prefix, other.entries@[j as int].0, counter);
                lemma_entries_counter(prefix, device@);
                lemma_entries_counter(entries@, device@);
            }
            let (found, i) = locate(&entries, device);
            if found {
                let local = entries[i].1;
                let larger = if local >= counter {
                    local
                } else {
                    counter
                };
                let owned = device.clone();
                proof {
                    lemma_entries_update(entries@, i as int, owned, larger);
                    lemma_sorted_update(entries@, i as int, owned, larger);
                }
                entries.set(i, (owned, larger));
            } else {
                let owned = device.clone();
                proof {
                    lemma_sorted_insert(entries@, i as int, owned, counter);
                    lemma_text_lt_irreflexive(device@);
                    assert forall|k: int| 0 <= k < entries@.len() implies #[trigger] entries@[k].0@ != device@ by {
                        if k >= i {
                            assert(text_lt(device@, entries@[k].0@));
                        }
                    }
                }
                entries.insert(i, (owned, counter));
            }
            proof {
                let next = entries_map(other.entries@.take(j + 1));
                assert(entries_map(entries@) =~= merged(start, next));
            }
            j = j + 1;
        }
        proof {
            assert(other.entries@.take(other.entries@.len() as int) =~= other.entries@);
        }
        self.entries = entries;
    }

    /// How this vector relates causally to `other`.
    pub fn compare(&self, other: &Self) -> (res: Causality)
        ensures
            res == causality_of(self@, other@),
    {
        proof {
            use_type_invariant(self);
            use_type_invariant(other);
        }
        let mut less = false;
        let mut greater = false;
        let mut i: usize = 0;
        while i < self.entries.len()
            invariant
                i <= self.entries@.len(),
                less == some_listed_below(self@, other@, self.entries@, i as int),
                greater == some_listed_below(other@, self@, self.entries@, i as int),
            decreases self.entries@.len() - i,
        {
            let device = &self.entries[i].0;
            let local = self.get(device);
            let remote = other.get(device);
            less = less || local < remote;
            greater = greater || local > remote;
            i = i + 1;
        }
        let mut k: usize = 0;
        while k < other.entries.len()
            invariant
                k <= other.entries@.len(),
                less == (some_listed_below(self@, other@, self.entries@, self.entries@.len() as int)
                    || some_listed_below(self@, other@, other.entries@, k as int)),
                greater == (some_listed_below(other@, self@, self.entries@, self.entries@.len() as int)
                    || some_listed_below(other@, self@, other.entries@, k as int)),
            decreases other.entries@.len() - k,
        {
            let device = &other.entries[k].0;
            let local = self.get(device);
            let remote = other.get(device);
            less = less || local < remote;
            greater = greater || local > remote;
            k = k + 1;
        }
        proof {
            assert forall|d: Seq<char>|
                self@.dom().contains(d) || other@.dom().contains(d) implies (exists|j: int|
                0 <= j < self.entries@.len() && #[trigger] self.entries@[j].0@ == d) || (exists|j: int|
                0 <= j < other.entries@.len() && #[trigger] other.entries@[j].0@ == d) by {
                lemma_entries_dom(self.entries@, d);
                lemma_entries_dom(other.entries@, d);
            }
            lemma_below_witness(self@, other@, self.entries@, other.entries@, less);
            lemma_below_witness(other@, self@, self.entries@, other.entries@, greater);
        }
        if !less && !greater {
            Causality::Equal
        } else if less && !greater {
            Causality::Before
        } else if !less && greater {
            Causality::After
        } else {
            Causality::Concurrent
        }
    }

    /// The first listed position at which this vector and `other` hold
    /// different counters, if there is one.
    fn earliest_difference(&self, other: &Self) -> (res: Option<usize>)
        ensures
            match res {
                None => forall|j: int|
                    0 <= j < self.entries@.len() ==> #[trigger] counter_of(self@, self.entries@[j].0@)
                        == counter_of(other@, self.entries@[j].0@),
                Some(i) => {
                    &&& i < self.entries@.len()
                    &&& counter_of(self@, self.entries@[i as int].0@) != counter_of(other@, self.entries@[i as int].0@)
                    &&& forall|j: int|
                        0 <= j < i ==> #[trigger] counter_of(self@, self.entries@[j].0@) == counter_of(
                            other@,
                            self.entries@[j].0@,
                        )
                },
            },
    {
        let mut i: usize = 0;
        while i < self.entries.len()
            invariant
                i <= self.entries@.len(),
                forall|j: int|
                    0 <= j < i ==> #[trigger] counter_of(self@, self.entries@[j].0@) == counter_of(
                        other@,
                        self.entries@[j].0@,
                    ),
            decreases self.entries@.len() - i,
        {
            let device = &self.entries[i].0;
            if self.get(device) != other.get(device) {
                return Some(i);
            }
            i = i + 1;
        }
        None
    }

    /// Whether this vector comes before `other` in the order that settles
    /// ties: at the first device, in the order of device ids, where the two
    /// hold different counters, this vector holds the smaller one.
    pub fn first_difference_lower(&self, other: &Self) -> (res: bool)
        ensures
            res == version_lt(self@, other@),
    {
        proof {
            use_type_invariant(self);
            use_type_invariant(other);
        }
        let da = self.earliest_difference(other);
        let db = other.earliest_difference(self);
        let device: Option<&DeviceId> = match da {
            None => match db {
                None => None,
                Some(j) => Some(&other.entries[j].0),
            },
            Some(i) => match db {
                None => Some(&self.entries[i].0),
                Some(j) => {
                    let x = &self.entries[i].0;
                    let y = &other.entries[j].0;
                    match compare_text(x.as_str(), y.as_str()) {
                        KeyOrder::Greater => Some(y),
                        _ => Some(x),
                    }
                },
            },
        };
        match device {
            None => {
                proof {
                    assert forall|e: Seq<char>| #[trigger] counter_of(self@, e) == counter_of(other@, e) by {
                        lemma_entries_dom(self.entries@, e);
                        lemma_entries_dom(other.entries@, e);
                        if self@.dom().contains(e) {
                            let k = choose|k: int| 0 <= k < self.entries@.len() && #[trigger] self.entries@[k].0@ == e;
                            assert(counter_of(self@, self.entries@[k].0@) == counter_of(other@, self.entries@[k].0@));
                        } else if other@.dom().contains(e) {
                            let k = choose|k: int| 0 <= k < other.entries@.len() && #[trigger] other.entries@[k].0@ == e;
                            assert(counter_of(other@, other.entries@[k].0@) == counter_of(self@, other.entries@[k].0@));
                        }
                    }
                }
                false
            },
            Some(d) => {
                proof {
                    lemma_scan_agrees(self.entries@, self@, other@, da, d@);
                    lemma_scan_agrees(other.entries@, other@, self@, db, d@);
                    assert forall|e: Seq<char>| text_lt(e, d@) implies #[trigger] counter_of(self@, e) == counter_of(
                        other@,
                        e,
                    ) by {
                        if !self@.dom().contains(e) && !other@.dom().contains(e) {
                        } else if self@.dom().contains(e) {
                            assert(counter_of(self@, e) == counter_of(other@, e));
                        } else {
                            assert(counter_of(other@, e) == counter_of(self@, e));
                        }
                    }
                    assert(agree_below(self@, other@, d@));
                    lemma_version_lt_at(self@, other@, d@);
                }
                self.get(d) < other.get(d)
            },
        }
    }

    /// The (device, counter) pairs, one per device the vector mentions, in
    /// increasing order of the device ids.
    pub fn entries(&self) -> (res: &Vec<(DeviceId, u64)>)
        ensures
            entries_map(res@) == self@,
            sorted_devices(res@),
            distinct_devices(res@),
    {
        proof {
            use_type_invariant(self);
        }
        &self.entries
    }
}

impl VersionVector {
    /// The vector holding the given (device, counter) pairs; when a device is
    /// listed twice, the later pair wins.
    pub fn from_entries(pairs: &Vec<(DeviceId, u64)>) -> (res: Self)
        ensures
            res@ == entries_map(pairs@),
    {
        let mut entries: Vec<(DeviceId, u64)> = Vec::new();
        let mut i: usize = 0;
        while i < pairs.len()
            invariant
                i <= pairs@.len(),
                sorted_devices(entries@),
                distinct_devices(entries@),
                entries_map(entries@) == entries_map(pairs@.take(i as int)),
            decreases pairs@.len() - i,
        {
            let device = pairs[i].0.clone();
            let counter = pairs[i].1;
            proof {
                assert(pairs@.take(i + 1) =~= pairs@.take(i as int).push(pairs@[i as int]));
                assert(pairs@.take(i as int).push(pairs@[i as int]).drop_last() =~= pairs@.take(i as int));
            }
            let (found, k) = locate(&entries, &device);
            if found {
                proof {
                    lemma_entries_update(entries@, k as int, device, counter);
                    lemma_sorted_update(entries@, k as int, device, counter);
                }
                entries.set(k, (device, counter));
            } else {
                proof {
                    lemma_sorted_insert(entries@, k as int, device, counter);
                }
                entries.insert(k, (device, counter));
            }
            i = i + 1;
        }
        proof {
            assert(pairs@.take(pairs@.len() as int) =~= pairs@);
        }
        VersionVector { entries }
    }
}

/// The view of a version vector names finitely many devices.
pub proof fn lemma_view_finite(v: &VersionVector)
    ensures
        v@.dom().finite(),
{
    lemma_entries_finite(v.entries@);
}

impl PartialEq for VersionVector {
    fn eq(&self, other: &Self) -> (res: bool) {
        proof {
            use_type_invariant(self);
            use_type_invariant(other);
        }
        let mut i: usize = 0;
        while i < self.entries.len()
            invariant
                i <= self.entries@.len(),
                sorted_devices(other.entries@),
                distinct_devices(self.entries@),
                distinct_devices(other.entries@),
                forall|j: int| 0 <= j < i ==> #[trigger] other@.dom().contains(self.entries@[j].0@)
                    && other@[self.entries@[j].0@] == self.entries@[j].1,
            decreases self.entries@.len() - i,
        {
            let device = &self.entries[i].0;
            proof {
                lemma_entries_value(self.entries@, i as int);
            }
            match position(&other.entries, device) {
                Some(k) => {
                    proof {
                        lemma_entries_value(other.entries@, k as int);
                    }
                    if other.entries[k].1 != self.entries[i].1 {
                        return false;
                    }
                    assert(other.entries@[k as int].0@ == self.entries@[i as int].0@);
                    assert(other@.dom().contains(self.entries@[i as int].0@));
                    assert(other@[self.entries@[i as int].0@] == self.entries@[i as int].1);
                    assert forall|j: int| 0 <= j < i + 1 implies #[trigger] other@.dom().contains(self.entries@[j].0@)
                        && other@[self.entries@[j].0@] == self.entries@[j].1 by {
                        if j < i {
                            assert(other@.dom().contains(self.entries@[j].0@));
                        }
                    }
                },
                None => {
                    proof {
                        lemma_entries_dom(other.entries@, device@);
                        lemma_entries_value(self.entries@, i as int);
                    }
                    return false;
                },
            }
            i = i + 1;
        }
        let mut k: usize = 0;
        while k < other.entries.len()
            invariant
                k <= other.entries@.len(),
                sorted_devices(self.entries@),
                distinct_devices(self.entries@),
                distinct_devices(other.entries@),
                forall|j: int| 0 <= j < k ==> #[trigger] self@.dom().contains(other.entries@[j].0@),
            decreases other.entries@.len() - k,
        {
            match position(&self.entries, &other.entries[k].0) {
                Some(i) => {
                    proof {
                        lemma_entries_value(self.entries@, i as int);
                    }
                },
                None => {
                    proof {
                        lemma_entries_dom(self.entries@, other.entries@[k as int].0@);
                        lemma_entries_value(other.entries@, k as int);
                    }
                    return false;
                },
            }
            k = k + 1;
        }
        proof {
            assert forall|d: Seq<char>| #[trigger] self@.dom().contains(d) <==> other@.dom().contains(d) by {
                lemma_entries_dom(self.entries@, d);
                lemma_entries_dom(other.entries@, d);
                if self@.dom().contains(d) {
                    let j = choose|j: int| 0 <= j < self.entries@.len() && #[trigger] self.entries@[j].0@ == d;
                    assert(other@.dom().contains(self.entries@[j].0@));
                }
                if other@.dom().contains(d) {
                    let j = choose|j: int| 0 <= j < other.entries@.len() && #[trigger] other.entries@[j].0@ == d;
                    assert(self@.dom().contains(other.entries@[j].0@));
                }
            }
            assert forall|d: Seq<char>| #[trigger] self@.dom().contains(d) implies self@[d] == other@[d] by {
                lemma_entries_dom(self.entries@, d);
                let j = choose|j: int| 0 <= j < self.entries@.len() && #[trigger] self.entries@[j].0@ == d;
                lemma_entries_value(self.entries@, j);
                assert(other@[self.entries@[j].0@] == self.entries@[j].1);
            }
            assert(self@ =~= other@);
        }
        true
    }
}

impl Eq for VersionVector {}

impl vstd::std_specs::cmp::PartialEqSpecImpl for VersionVector {
    open spec fn obeys_eq_spec() -> bool {
        true
    }

    open spec fn eq_spec(&self, other: &VersionVector) -> bool {
        self@ == other@
    }
}

impl Clone for VersionVector {
    fn clone(&self) -> (res: Self)
        ensures
            res@ == self@,
    {
        proof {
            use_type_invariant(self);
        }
        let mut entries: Vec<(DeviceId, u64)> = Vec::new();
        let mut i: usize = 0;
        while i < self.entries.len()
            invariant
                i <= self.entries@.len(),
                sorted_devices(self.entries@),
                distinct_devices(self.entries@),
                entries@.len() == i,
                forall|j: int| 0 <= j < i ==> #[trigger] entries@[j].0@ == self.entries@[j].0@
                    && entries@[j].1 == self.entries@[j].1,
            decreases self.entries@.len() - i,
        {
            entries.push((self.entries[i].0.clone(), self.entries[i].1));
            i = i + 1;
        }
        proof {
            assert(sorted_devices(entries@)) by {
                assert forall|a: int, b: int| 0 <= a < b < entries@.len() implies text_lt(
                    #[trigger] entries@[a].0@,
                    #[trigger] entries@[b].0@,
                ) by {
                    assert(text_lt(self.entries@[a].0@, self.entries@[b].0@));
                }
            }
            assert(distinct_devices(entries@)) by {
                assert forall|a: int, b: int|
                    0 <= a < entries@.len() && 0 <= b < entries@.len() && a != b implies #[trigger] entries@[a].0@
                    != #[trigger] entries@[b].0@ by {
                    assert(self.entries@[a].0@ != self.entries@[b].0@);
                }
            }
            assert forall|d: Seq<char>| #[trigger] entries_map(entries@).dom().contains(d) <==> self@.dom().contains(d) by {
                lemma_entries_dom(self.entries@, d);
                lemma_entries_dom(entries@, d);
                if self@.dom().contains(d) {
                    let j = choose|j: int| 0 <= j < self.entries@.len() && #[trigger] self.entries@[j].0@ == d;
                    assert(entries@[j].0@ == d);
                }
                if entries_map(entries@).dom().contains(d) {
                    let j = choose|j: int| 0 <= j < entries@.len() && #[trigger] entries@[j].0@ == d;
                    assert(self.entries@[j].0@ == d);
                }
            }
            assert forall|d: Seq<char>| #[trigger] self@.dom().contains(d) implies entries_map(entries@)[d] == self@[d] by {
                lemma_entries_dom(self.entries@, d);
                let j = choose|j: int| 0 <= j < self.entries@.len() && #[trigger] self.entries@[j].0@ == d;
                lemma_entries_value(self.entries@, j);
                lemma_entries_value(entries@, j);
            }
            assert(entries_map(entries@) =~= self@);
        }
        VersionVector { entries }
    }
}

impl Default for VersionVector {
    fn default() -> (res: Self)
        ensures
            res@ == Map::<Seq<char>, u64>::empty(),
    {
        VersionVector::new()
    }
}


/// The causal relation read from the other side.
pub open spec fn converse(c: Causality) -> Causality {
    match c {
        Causality::Equal => Causality::Equal,
        Causality::Before => Causality::After,
        Causality::After => Causality::Before,
        Causality::Concurrent => Causality::Concurrent,
    }
}

/// Every vector is causally equal to itself.
pub proof fn lemma_compare_reflexive(a: Map<Seq<char>, u64>)
    ensures
        causality_of(a, a) == Causality::Equal,
{
}

/// Comparing the other way round gives the converse answer: `a` is before
/// `b` exactly when `b` is after `a`, and equality and concurrency are
/// symmetric.
pub proof fn lemma_compare_converse(a: Map<Seq<char>, u64>, b: Map<Seq<char>, u64>)
    ensures
        causality_of(b, a) == converse(causality_of(a, b)),
{
}

/// Two vectors compare equal exactly when every device has the same counter
/// in both (a missing device counting zero).
pub proof fn lemma_compare_equal_iff_same_counters(a: Map<Seq<char>, u64>, b: Map<Seq<char>, u64>)
    ensures
        causality_of(a, b) == Causality::Equal <==> forall|d: Seq<char>|
            #[trigger] counter_of(a, d) == counter_of(b, d),
{
    if causality_of(a, b) == Causality::Equal {
        assert forall|d: Seq<char>| #[trigger] counter_of(a, d) == counter_of(b, d) by {
            if counter_of(a, d) < counter_of(b, d) {
                assert(some_counter_below(a, b));
            }
            if counter_of(b, d) < counter_of(a, d) {
                assert(some_counter_below(b, a));
            }
        }
    }
}

/// Merging keeps, for every device, the larger of the two counters, and
/// the result is causally equal to or after each input.
pub proof fn lemma_merge_upper_bound(a: Map<Seq<char>, u64>, b: Map<Seq<char>, u64>)
    ensures
        forall|d: Seq<char>|
            #[trigger] counter_of(merged(a, b), d) == if counter_of(a, d) >= counter_of(b, d) {
                counter_of(a, d)
            } else {
                counter_of(b, d)
            },
        causality_of(a, merged(a, b)) == Causality::Before || causality_of(a, merged(a, b))
            == Causality::Equal,
        causality_of(b, merged(a, b)) == Causality::Before || causality_of(b, merged(a, b))
            == Causality::Equal,
{
    let m = merged(a, b);
    assert forall|d: Seq<char>| #[trigger] counter_of(m, d) == if counter_of(a, d) >= counter_of(b, d) {
        counter_of(a, d)
    } else {
        counter_of(b, d)
    } by {}
    assert(!some_counter_below(m, a)) by {
        if some_counter_below(m, a) {
            let d = choose|d: Seq<char>| #[trigger] counter_of(m, d) < counter_of(a, d);
            assert(counter_of(m, d) >= counter_of(a, d));
        }
    }
    assert(!some_counter_below(m, b)) by {
        if some_counter_below(m, b) {
            let d = choose|d: Seq<char>| #[trigger] counter_of(m, d) < counter_of(b, d);
            assert(counter_of(m, d) >= counter_of(b, d));
        }
    }
}

/// Merging gives the least such upper bound: any vector that is equal to or
/// after both inputs is equal to or after their merge.
pub proof fn lemma_merge_least_upper_bound(
    a: Map<Seq<char>, u64>,
    b: Map<Seq<char>, u64>,
    c: Map<Seq<char>, u64>,
)
    requires
        causality_of(a, c) == Causality::Before || causality_of(a, c) == Causality::Equal,
        causality_of(b, c) == Causality::Before || causality_of(b, c) == Causality::Equal,
    ensures
        causality_of(merged(a, b), c) == Causality::Before || causality_of(merged(a, b), c)
            == Causality::Equal,
{
    let m = merged(a, b);
    assert(!some_counter_below(c, m)) by {
        if some_counter_below(c, m) {
            let d = choose|d: Seq<char>| #[trigger] counter_of(c, d) < counter_of(m, d);
            if counter_of(a, d) >= counter_of(b, d) {
                assert(some_counter_below(c, a));
            } else {
                assert(some_counter_below(c, b));
            }
        }
    }
}

/// Merge is commutative, associative and idempotent: replicas that exchange
/// their vectors in any order and any number of times agree.
pub proof fn lemma_merge_semilattice(
    a: Map<Seq<char>, u64>,
    b: Map<Seq<char>, u64>,
    c: Map<Seq<char>, u64>,
)
    ensures
        merged(a, b) == merged(b, a),
        merged(merged(a, b), c) == merged(a, merged(b, c)),
        merged(a, a) == a,
{
    assert(merged(a, b) =~= merged(b, a));
    assert(merged(merged(a, b), c) =~= merged(a, merged(b, c)));
    assert(merged(a, a) =~= a);
}

/// Merging in a vector that is causally before (or equal to) the local one
/// changes no counter.
pub proof fn lemma_merge_older_is_noop(a: Map<Seq<char>, u64>, b: Map<Seq<char>, u64>)
    requires
        causality_of(b, a) == Causality::Before || causality_of(b, a) == Causality::Equal,
    ensures
        causality_of(merged(a, b), a) == Causality::Equal,
{
    let m = merged(a, b);
    assert forall|d: Seq<char>| #[trigger] counter_of(m, d) == counter_of(a, d) by {
        if counter_of(a, d) < counter_of(b, d) {
            assert(some_counter_below(a, b));
        }
    }
    lemma_compare_equal_iff_same_counters(m, a);
}

/// Recording an event moves the vector strictly forward: the old vector is
/// causally before the new one, only the device's own counter changes, and
/// it grows by exactly one (unless it was already at the maximum).
pub proof fn lemma_increment_advances(m: Map<Seq<char>, u64>, device: Seq<char>)
    ensures
        counter_of(m, device) < u64::MAX ==> counter_of(incremented(m, device), device) == counter_of(
            m,
            device,
        ) + 1,
        counter_of(m, device) < u64::MAX ==> causality_of(m, incremented(m, device))
            == Causality::Before,
        forall|d: Seq<char>| d != device ==> #[trigger] counter_of(incremented(m, device), d) == counter_of(m, d),
{
    let n = incremented(m, device);
    if counter_of(m, device) < u64::MAX {
        assert(counter_of(m, device) < counter_of(n, device));
        assert(!some_counter_below(n, m)) by {
            if some_counter_below(n, m) {
                let d = choose|d: Seq<char>| #[trigger] counter_of(n, d) < counter_of(m, d);
                assert(d != device);
            }
        }
    }
}

/// Two replicas that start from the same vector and each record an event on
/// a different device end up with concurrent vectors.
pub proof fn lemma_independent_updates_concurrent(
    base: Map<Seq<char>, u64>,
    d1: Seq<char>,
    d2: Seq<char>,
)
    requires
        d1 != d2,
        counter_of(base, d1) < u64::MAX,
        counter_of(base, d2) < u64::MAX,
    ensures
        causality_of(incremented(base, d1), incremented(base, d2)) == Causality::Concurrent,
{
    let a = incremented(base, d1);
    let b = incremented(base, d2);
    assert(counter_of(b, d1) < counter_of(a, d1));
    assert(counter_of(a, d2) < counter_of(b, d2));
}

} // verus!
