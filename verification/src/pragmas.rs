//! SQLite pragma settings: at most one value per pragma name, kept in the
//! order of the names, so that a store applies them the same way each time.

use vstd::prelude::*;

use crate::text_order::{
    compare_text, lemma_text_lt_irreflexive, lemma_text_lt_total, lemma_text_lt_transitive, text_lt,
    KeyOrder,
};

verus! {

/// The settings as (name, value) character strings.
pub open spec fn pragma_view(pragmas: Seq<(String, String)>) -> Seq<(Seq<char>, Seq<char>)> {
    pragmas.map_values(|p: (String, String)| (p.0@, p.1@))
}

/// The names come in strictly increasing order of their UTF-8 bytes, so
/// each pragma is set once, always in the same order.
pub open spec fn pragmas_in_order(pragmas: Seq<(Seq<char>, Seq<char>)>) -> bool {
    forall|i: int, j: int| 0 <= i < j < pragmas.len() ==> text_lt(#[trigger] pragmas[i].0, #[trigger] pragmas[j].0)
}

/// The settings after setting `name` to `value`: that pair is in, every
/// other name keeps its setting, and nothing else is added.
pub open spec fn pragma_set(
    old: Seq<(Seq<char>, Seq<char>)>,
    new: Seq<(Seq<char>, Seq<char>)>,
    name: Seq<char>,
    value: Seq<char>,
) -> bool {
    forall|p: (Seq<char>, Seq<char>)|
        #[trigger] new.contains(p) <==> (p == (name, value) || (old.contains(p) && p.0 != name))
}

/// Two ordered lists of settings that hold the same pairs are the same list.
pub proof fn lemma_pragmas_determined(p: Seq<(Seq<char>, Seq<char>)>, q: Seq<(Seq<char>, Seq<char>)>)
    requires
        pragmas_in_order(p),
        pragmas_in_order(q),
        forall|x: (Seq<char>, Seq<char>)| #[trigger] p.contains(x) <==> q.contains(x),
    ensures
        p == q,
    decreases p.len(),
{
    if p.len() == 0 {
        if q.len() > 0 {
            assert(q.contains(q[0]));
            assert(p.contains(q[0]));
        }
        assert(p =~= q);
    } else {
        let m = p.len() - 1;
        assert(p.contains(p[m]));
        assert(q.contains(p[m]));
        let j = choose|j: int| 0 <= j < q.len() && q[j] == p[m];
        let n = q.len() - 1;
        assert(q.contains(q[n]));
        assert(p.contains(q[n]));
        let i = choose|i: int| 0 <= i < p.len() && p[i] == q[n];
        lemma_text_lt_total(p[m].0, q[n].0);
        if j < n {
            assert(text_lt(q[j].0, q[n].0));
            if i < m {
                assert(text_lt(p[i].0, p[m].0));
            }
        }
        if i < m {
            assert(text_lt(p[i].0, p[m].0));
        }
        assert(p[m] == q[n]);
        let p2 = p.drop_last();
        let q2 = q.drop_last();
        lemma_text_lt_irreflexive(p[m].0);
        assert forall|x: (Seq<char>, Seq<char>)| #[trigger] p2.contains(x) <==> q2.contains(x) by {
            if p2.contains(x) {
                let a = choose|a: int| 0 <= a < p2.len() && p2[a] == x;
                assert(p.contains(x) && p[a] == x);
                assert(text_lt(p[a].0, p[m].0));
                let b = choose|b: int| 0 <= b < q.len() && q[b] == x;
                assert(b != n);
                assert(q2[b] == x);
            }
            if q2.contains(x) {
                let b = choose|b: int| 0 <= b < q2.len() && q2[b] == x;
                assert(q.contains(x) && q[b] == x);
                assert(text_lt(q[b].0, q[n].0));
                assert(p.contains(x));
                let a = choose|a: int| 0 <= a < p.len() && p[a] == x;
                assert(a != m);
                assert(p2[a] == x);
            }
        }
        assert(pragmas_in_order(p2)) by {
            assert forall|a: int, b: int| 0 <= a < b < p2.len() implies text_lt(#[trigger] p2[a].0, #[trigger] p2[b].0) by {
                assert(p2[a] == p[a] && p2[b] == p[b]);
            }
        }
        assert(pragmas_in_order(q2)) by {
            assert forall|a: int, b: int| 0 <= a < b < q2.len() implies text_lt(#[trigger] q2[a].0, #[trigger] q2[b].0) by {
                assert(q2[a] == q[a] && q2[b] == q[b]);
            }
        }
        lemma_pragmas_determined(p2, q2);
        assert(p =~= p2.push(p[m]));
        assert(q =~= q2.push(q[n]));
    }
}

/// Where `name` sits in an ordered list of settings: `(true, i)` when it is
/// set at `i`, else `(false, i)` with `i` the place where it belongs.
fn locate_name(entries: &Vec<(String, String)>, name: &str) -> (res: (bool, usize))
    requires
        pragmas_in_order(pragma_view(entries@)),
    ensures
        res.1 <= entries@.len(),
        res.0 ==> res.1 < entries@.len() && pragma_view(entries@)[res.1 as int].0 == name@,
        forall|j: int| 0 <= j < res.1 ==> text_lt(#[trigger] pragma_view(entries@)[j].0, name@),
        !res.0 ==> forall|j: int|
            res.1 <= j < entries@.len() ==> text_lt(name@, #[trigger] pragma_view(entries@)[j].0),
{
    let ghost view = pragma_view(entries@);
    let mut i: usize = 0;
    while i < entries.len()
        invariant
            i <= entries@.len(),
            view == pragma_view(entries@),
            pragmas_in_order(view),
            forall|j: int| 0 <= j < i ==> text_lt(#[trigger] view[j].0, name@),
        decreases entries@.len() - i,
    {
        match compare_text(entries[i].0.as_str(), name) {
            KeyOrder::Less => {
                i = i + 1;
            },
            KeyOrder::Equal => {
                return (true, i);
            },
            KeyOrder::Greater => {
                proof {
                    assert forall|j: int| i <= j < entries@.len() implies text_lt(name@, #[trigger] view[j].0) by {
                        if j > i {
                            assert(text_lt(view[i as int].0, view[j].0));
                            lemma_text_lt_transitive(name@, view[i as int].0, view[j].0);
                        }
                    }
                }
                return (false, i);
            },
        }
    }
    (false, i)
}

/// SQLite pragma settings, one value per name, in the order of the names.
#[derive(Debug)]
pub struct PragmaSettings {
    entries: Vec<(String, String)>,
}

impl View for PragmaSettings {
    type V = Seq<(Seq<char>, Seq<char>)>;

    closed spec fn view(&self) -> Seq<(Seq<char>, Seq<char>)> {
        pragma_view(self.entries@)
    }
}

impl PragmaSettings {
    #[verifier::type_invariant]
    closed spec fn well_formed(self) -> bool {
        pragmas_in_order(pragma_view(self.entries@))
    }

    /// No settings.
    pub fn new() -> (res: Self)
        ensures
            res@ == Seq::<(Seq<char>, Seq<char>)>::empty(),
    {
        let res = PragmaSettings { entries: Vec::new() };
        assert(res@ =~= Seq::<(Seq<char>, Seq<char>)>::empty());
        res
    }

    /// Sets `name` to `value`, replacing an earlier value for that name.
    pub fn set(&mut self, name: String, value: String)
        ensures
            pragmas_in_order(final(self)@),
            pragma_set(old(self)@, final(self)@, name@, value@),
    {
        proof {
            use_type_invariant(&*self);
        }
        let ghost before = self@;
        let mut entries = Vec::new();
        std::mem::swap(&mut entries, &mut self.entries);
        assert(pragma_view(entries@) == before);
        let (found, i) = locate_name(&entries, name.as_str());
        proof {
            lemma_text_lt_irreflexive(name@);
            assert forall|j: int| i < j < before.len() implies text_lt(name@, #[trigger] before[j].0) by {
                assert(text_lt(before[i as int].0, before[j].0));
            }
        }
        let ghost pair = (name@, value@);
        if found {
            entries.set(i, (name, value));
            proof {
                let after = pragma_view(entries@);
                assert(after =~= before.update(i as int, pair));
                assert forall|a: int, b: int| 0 <= a < b < after.len() implies text_lt(#[trigger] after[a].0, #[trigger] after[b].0) by {
                    assert(after[a].0 == before[a].0 && after[b].0 == before[b].0);
                }
                assert forall|p: (Seq<char>, Seq<char>)| #[trigger] after.contains(p) <==> (p == pair || (before.contains(p) && p.0 != name@)) by {
                    if after.contains(p) {
                        let a = choose|a: int| 0 <= a < after.len() && after[a] == p;
                        if a != i {
                            assert(before[a] == p);
                            if a < i {
                                assert(text_lt(before[a].0, name@));
                            } else {
                                assert(text_lt(name@, before[a].0));
                            }
                        }
                    }
                    if p == pair {
                        assert(after[i as int] == p);
                    }
                    if before.contains(p) && p.0 != name@ {
                        let a = choose|a: int| 0 <= a < before.len() && before[a] == p;
                        assert(a != i);
                        assert(after[a] == p);
                    }
                }
            }
        } else {
            entries.insert(i, (name, value));
            proof {
                let after = pragma_view(entries@);
                assert(after =~= before.insert(i as int, pair));
                assert forall|a: int, b: int| 0 <= a < b < after.len() implies text_lt(#[trigger] after[a].0, #[trigger] after[b].0) by {
                    if b < i {
                        assert(after[a] == before[a] && after[b] == before[b]);
                    } else if b == i {
                        assert(after[a] == before[a]);
                    } else if a < i {
                        assert(after[a] == before[a] && after[b] == before[b - 1]);
                    } else if a == i {
                        assert(after[b] == before[b - 1]);
                    } else {
                        assert(after[a] == before[a - 1] && after[b] == before[b - 1]);
                    }
                }
                assert forall|p: (Seq<char>, Seq<char>)| #[trigger] after.contains(p) <==> (p == pair || (before.contains(p) && p.0 != name@)) by {
                    if after.contains(p) {
                        let a = choose|a: int| 0 <= a < after.len() && after[a] == p;
                        if a < i {
                            assert(before[a] == p);
                        } else if a > i {
                            assert(before[a - 1] == p);
                            assert(text_lt(name@, before[a - 1].0));
                        }
                    }
                    if p == pair {
                        assert(after[i as int] == p);
                    }
                    if before.contains(p) && p.0 != name@ {
                        let a = choose|a: int| 0 <= a < before.len() && before[a] == p;
                        if a < i {
                            assert(after[a] == p);
                        } else {
                            assert(after[a + 1] == p);
                        }
                    }
                }
            }
        }
        self.entries = entries;
    }

    /// The (name, value) pairs, in the order of the names.
    pub fn entries(&self) -> (res: &Vec<(String, String)>)
        ensures
            pragma_view(res@) == self@,
            pragmas_in_order(self@),
    {
        proof {
            use_type_invariant(self);
        }
        &self.entries
    }
}

impl Clone for PragmaSettings {
    fn clone(&self) -> (res: Self)
        ensures
            res@ == self@,
    {
        proof {
            use_type_invariant(self);
        }
        let mut entries: Vec<(String, String)> = Vec::new();
        let mut i: usize = 0;
        while i < self.entries.len()
            invariant
                i <= self.entries@.len(),
                pragma_view(entries@) == pragma_view(self.entries@).take(i as int),
            decreases self.entries@.len() - i,
        {
            let name = self.entries[i].0.clone();
            let value = self.entries[i].1.clone();
            let ghost prev = entries@;
            entries.push((name, value));
            proof {
                assert(entries@ == prev.push((name, value)));
                assert(name@ == self.entries@[i as int].0@ && value@ == self.entries@[i as int].1@);
                assert(pragma_view(entries@) =~= pragma_view(prev).push((name@, value@)));
                assert(pragma_view(entries@) =~= pragma_view(self.entries@).take(i + 1));
            }
            i = i + 1;
        }
        proof {
            assert(pragma_view(self.entries@).take(self.entries@.len() as int) =~= pragma_view(self.entries@));
        }
        PragmaSettings { entries }
    }
}

impl PartialEq for PragmaSettings {
    fn eq(&self, other: &Self) -> (res: bool) {
        if self.entries.len() != other.entries.len() {
            assert(self@.len() != other@.len());
            return false;
        }
        let mut i: usize = 0;
        while i < self.entries.len()
            invariant
                i <= self.entries@.len(),
                self.entries@.len() == other.entries@.len(),
                forall|j: int| 0 <= j < i ==> #[trigger] self@[j] == other@[j],
            decreases self.entries@.len() - i,
        {
            if self.entries[i].0 != other.entries[i].0 || self.entries[i].1 != other.entries[i].1 {
                assert(self@[i as int] != other@[i as int]);
                return false;
            }
            i = i + 1;
        }
        assert(self@ =~= other@);
        true
    }
}

impl Eq for PragmaSettings {}

impl vstd::std_specs::cmp::PartialEqSpecImpl for PragmaSettings {
    open spec fn obeys_eq_spec() -> bool {
        true
    }

    open spec fn eq_spec(&self, other: &PragmaSettings) -> bool {
        self@ == other@
    }
}

} // verus!
