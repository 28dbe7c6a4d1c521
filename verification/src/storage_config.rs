//! Storage configuration: mode, namespace, SQLite pragmas and migrations.

use vstd::prelude::*;

use crate::config::StorageMode;
use crate::pragmas::{lemma_pragmas_determined, pragma_set, pragmas_in_order, PragmaSettings};
use crate::text_order::{lemma_ascii_first_char_order, lemma_text_lt_transitive};

verus! {

/// How a store is set up.
#[derive(Clone, Debug, PartialEq, Eq)]
pub struct StorageConfig {
    pub mode: StorageMode,
    pub namespace: String,
    pub sqlite_pragmas: PragmaSettings,
    pub migrations: MigrationPlan,
}

/// The pragmas every new store is configured with: write-ahead logging,
/// normal synchronous mode and enforced foreign keys.
pub open spec fn default_pragmas() -> Seq<(Seq<char>, Seq<char>)> {
    seq![
        ("foreign_keys"@, "ON"@),
        ("journal_mode"@, "WAL"@),
        ("synchronous"@, "NORMAL"@),
    ]
}

/// The default pragmas are listed in order of their names.
pub proof fn lemma_default_pragmas_in_order()
    ensures
        pragmas_in_order(default_pragmas()),
{
    reveal_strlit("foreign_keys");
    reveal_strlit("journal_mode");
    reveal_strlit("synchronous");
    let p = default_pragmas();
    lemma_ascii_first_char_order("foreign_keys"@, "journal_mode"@);
    lemma_ascii_first_char_order("journal_mode"@, "synchronous"@);
    lemma_text_lt_transitive("foreign_keys"@, "journal_mode"@, "synchronous"@);
    assert(p[0].0 == "foreign_keys"@ && p[1].0 == "journal_mode"@ && p[2].0 == "synchronous"@);
}

impl StorageConfig {
    /// The configuration for `mode` in the default namespace with the default
    /// pragmas and no migrations.
    pub fn new(mode: StorageMode) -> (res: Self)
        ensures
            res.mode == mode,
            res.namespace@ == "default"@,
            res.sqlite_pragmas@ == default_pragmas(),
            res.migrations.schema_version == 0,
            res.migrations.migrations@.len() == 0,
    {
        let mut sqlite_pragmas = PragmaSettings::new();
        let ghost empty = sqlite_pragmas@;
        sqlite_pragmas.set("journal_mode".to_owned(), "WAL".to_owned());
        let ghost first = sqlite_pragmas@;
        sqlite_pragmas.set("synchronous".to_owned(), "NORMAL".to_owned());
        let ghost second = sqlite_pragmas@;
        sqlite_pragmas.set("foreign_keys".to_owned(), "ON".to_owned());
        proof {
            reveal_strlit("foreign_keys");
            reveal_strlit("journal_mode");
            reveal_strlit("synchronous");
            let last = sqlite_pragmas@;
            let d = default_pragmas();
            lemma_default_pragmas_in_order();
            assert("foreign_keys"@ != "journal_mode"@ && "foreign_keys"@ != "synchronous"@) by {
                assert("foreign_keys"@[0] != "journal_mode"@[0] && "foreign_keys"@[0] != "synchronous"@[0]);
            }
            assert("journal_mode"@ != "synchronous"@) by {
                assert("journal_mode"@[0] != "synchronous"@[0]);
            }
            assert forall|x: (Seq<char>, Seq<char>)| #[trigger] last.contains(x) <==> d.contains(x) by {
                assert(pragma_set(empty, first, "journal_mode"@, "WAL"@));
                assert(first.contains(x) <==> x == ("journal_mode"@, "WAL"@));
                assert(second.contains(x) <==> (x == ("synchronous"@, "NORMAL"@) || (first.contains(x)
                    && x.0 != "synchronous"@)));
                assert(last.contains(x) <==> (x == ("foreign_keys"@, "ON"@) || (second.contains(x) && x.0
                    != "foreign_keys"@)));
                if d.contains(x) {
                    let k = choose|k: int| 0 <= k < d.len() && d[k] == x;
                    assert(k == 0 || k == 1 || k == 2);
                }
                if x == ("foreign_keys"@, "ON"@) {
                    assert(d[0] == x);
                }
                if x == ("journal_mode"@, "WAL"@) {
                    assert(d[1] == x);
                }
                if x == ("synchronous"@, "NORMAL"@) {
                    assert(d[2] == x);
                }
            }
            lemma_pragmas_determined(last, d);
        }
        StorageConfig {
            mode,
            namespace: "default".to_owned(),
            sqlite_pragmas,
            migrations: MigrationPlan::default(),
        }
    }
}

/// The schema version and the migrations that reach it.
#[derive(Clone, Debug, PartialEq, Eq)]
pub struct MigrationPlan {
    pub schema_version: u32,
    pub migrations: Vec<Migration>,
}

impl Default for MigrationPlan {
    fn default() -> (res: Self)
        ensures
            res.schema_version == 0,
            res.migrations@.len() == 0,
    {
        MigrationPlan { schema_version: 0, migrations: Vec::new() }
    }
}

/// One schema migration.
#[derive(Clone, Debug, PartialEq, Eq)]
pub struct Migration {
    pub version: u32,
    pub name: String,
    pub sql: String,
}

/// What a store does with one migration of its plan.
#[derive(Clone, Copy, Debug, PartialEq, Eq, Structural)]
pub enum MigrationStep {
    /// The migration's version is already recorded: nothing runs.
    Skip,
    /// Run the migration's SQL, then record its version.
    Apply,
}

impl Migration {
    /// The step for this migration, given whether the store has already
    /// recorded its version: a recorded migration is never run twice.
    pub fn step(&self, already_applied: bool) -> (res: MigrationStep)
        ensures
            res == (if already_applied {
                MigrationStep::Skip
            } else {
                MigrationStep::Apply
            }),
    {
        if already_applied {
            MigrationStep::Skip
        } else {
            MigrationStep::Apply
        }
    }
}

} // verus!
