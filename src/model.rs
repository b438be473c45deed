//! A model of what the database does with the statements of this layer, and
//! the laws the layer's statements obey under it: initialization can be
//! repeated, a written row is read back, a key holds one row, and writes to
//! distinct keys are all kept.

use crate::entity::{all_decode, decode_row, RawRow, ROW_WIDTH};
use crate::statement::{initialization_plan_spec, StatementModel, SEED_A, SEED_B, SEED_C};
use vstd::prelude::*;

verus! {

/// The database as far as this layer sees it: whether the keyspace and the
/// table exist, and the table's rows by primary key `(a, b)`.
pub struct DbModel {
    pub keyspace: bool,
    pub table: bool,
    pub rows: Map<(i32, i32), Seq<char>>,
}

/// A cluster on which nothing has been created.
pub open spec fn fresh_db() -> DbModel {
    DbModel { keyspace: false, table: false, rows: Map::empty() }
}

/// The effect of one statement; `None` when the database rejects it. The
/// schema statements are "if not exists"; a write replaces the row of its key.
pub open spec fn step(db: DbModel, s: StatementModel) -> Option<DbModel> {
    match s {
        StatementModel::CreateKeyspace => Some(DbModel { keyspace: true, ..db }),
        StatementModel::CreateTable => if db.keyspace {
            Some(DbModel { table: true, ..db })
        } else {
            None
        },
        StatementModel::Insert { a, b, c } => if db.table {
            Some(DbModel { rows: db.rows.insert((a, b), c), ..db })
        } else {
            None
        },
        StatementModel::SelectAll => if db.table {
            Some(db)
        } else {
            None
        },
    }
}

/// The effect of statements issued one after another, stopping at the first
/// that fails.
pub open spec fn run(db: DbModel, stmts: Seq<StatementModel>) -> Option<DbModel>
    decreases stmts.len(),
{
    if stmts.len() == 0 {
        Some(db)
    } else {
        match step(db, stmts[0]) {
            Some(next) => run(next, stmts.drop_first()),
            None => None,
        }
    }
}

/// The records a read of all rows returns.
pub open spec fn select_rows(db: DbModel) -> Set<(i32, i32, Seq<char>)> {
    Set::new(|r: (i32, i32, Seq<char>)| db.rows.contains_key((r.0, r.1)) && db.rows[(r.0, r.1)] == r.2)
}

pub open spec fn insert_model(r: (i32, i32, Seq<char>)) -> StatementModel {
    StatementModel::Insert { a: r.0, b: r.1, c: r.2 }
}

/// No two records share a primary key.
pub open spec fn distinct_keys(recs: Seq<(i32, i32, Seq<char>)>) -> bool {
    forall|i: int, j: int|
        0 <= i < j < recs.len() ==> (#[trigger] recs[i].0, recs[i].1) != (#[trigger] recs[j].0, recs[j].1)
}

proof fn lemma_run_two(db: DbModel, s: StatementModel, t: StatementModel)
    ensures
        run(db, seq![s, t]) == (match step(db, s) {
            Some(d) => step(d, t),
            None => None,
        }),
{
    reveal_with_fuel(run, 3);
    if let Some(d) = step(db, s) {
        assert(seq![s, t].drop_first() =~= seq![t]);
        assert(seq![t].drop_first() =~= Seq::<StatementModel>::empty());
    }
}

proof fn lemma_run_plan(db: DbModel, seed: bool)
    ensures
        run(db, initialization_plan_spec(seed)) == Some(
            {
                let d = DbModel { keyspace: true, table: true, ..db };
                if seed {
                    DbModel { rows: db.rows.insert((SEED_A, SEED_B), SEED_C@), ..d }
                } else {
                    d
                }
            },
        ),
{
    let p = initialization_plan_spec(seed);
    reveal_with_fuel(run, 4);
    assert(p.drop_first() =~= p.subrange(1, p.len() as int));
    assert(p.drop_first().drop_first() =~= p.subrange(2, p.len() as int));
    if seed {
        assert(p.drop_first().drop_first().drop_first() =~= Seq::<StatementModel>::empty());
    } else {
        assert(p.drop_first().drop_first() =~= Seq::<StatementModel>::empty());
    }
}

/// Initialization succeeds on any cluster, leaves the keyspace and the table
/// in place, and running it a second time right after changes nothing.
pub proof fn lemma_initialization_idempotent(db: DbModel, seed: bool)
    ensures
        run(db, initialization_plan_spec(seed)) matches Some(once) && once.keyspace && once.table
            && run(once, initialization_plan_spec(seed)) == Some(once),
{
    lemma_run_plan(db, seed);
    let once = run(db, initialization_plan_spec(seed))->0;
    lemma_run_plan(once, seed);
    if seed {
        let k = (SEED_A, SEED_B);
        assert(once.rows.insert(k, SEED_C@) =~= once.rows);
    }
}

/// On a freshly initialized, unseeded table a read of all rows returns nothing.
pub proof fn lemma_unseeded_table_empty()
    ensures
        run(fresh_db(), initialization_plan_spec(false).push(StatementModel::SelectAll)) matches Some(
            d,
        ) && select_rows(d) == Set::<(i32, i32, Seq<char>)>::empty(),
{
    lemma_run_plan(fresh_db(), false);
    lemma_run_prefix(fresh_db(), initialization_plan_spec(false), seq![StatementModel::SelectAll]);
    let d = DbModel { keyspace: true, table: true, ..fresh_db() };
    assert(run(d, seq![StatementModel::SelectAll]) == Some(d)) by {
        reveal_with_fuel(run, 2);
        assert(seq![StatementModel::SelectAll].drop_first() =~= Seq::<StatementModel>::empty());
    }
    assert(initialization_plan_spec(false) + seq![StatementModel::SelectAll]
        =~= initialization_plan_spec(false).push(StatementModel::SelectAll));
    assert(select_rows(d) =~= Set::<(i32, i32, Seq<char>)>::empty());
}

/// Running `p` then `q` is running `q` on what `p` left.
pub proof fn lemma_run_prefix(db: DbModel, p: Seq<StatementModel>, q: Seq<StatementModel>)
    ensures
        run(db, p + q) == (match run(db, p) {
            Some(d) => run(d, q),
            None => None,
        }),
    decreases p.len(),
{
    if p.len() == 0 {
        assert(p + q =~= q);
    } else {
        assert((p + q).drop_first() =~= p.drop_first() + q);
        assert((p + q)[0] == p[0]);
        if let Some(next) = step(db, p[0]) {
            lemma_run_prefix(next, p.drop_first(), q);
        }
    }
}

/// Writing a record to an existing table and reading all rows back returns
/// that record, and it is the only record with its key.
pub proof fn lemma_round_trip(db: DbModel, a: i32, b: i32, c: Seq<char>)
    requires
        db.table,
    ensures
        run(db, seq![StatementModel::Insert { a, b, c }, StatementModel::SelectAll]) matches Some(d)
            && select_rows(d).contains((a, b, c)) && forall|r: (i32, i32, Seq<char>)|
            #[trigger] select_rows(d).contains(r) && r.0 == a && r.1 == b ==> r.2 == c,
{
    lemma_run_two(db, StatementModel::Insert { a, b, c }, StatementModel::SelectAll);
}

/// On a freshly initialized, unseeded table, writing one record and reading
/// all rows back returns exactly that record.
pub proof fn lemma_round_trip_fresh(a: i32, b: i32, c: Seq<char>)
    ensures
        run(
            fresh_db(),
            initialization_plan_spec(false) + seq![StatementModel::Insert { a, b, c }, StatementModel::SelectAll],
        ) matches Some(d) && select_rows(d) == set![(a, b, c)],
{
    lemma_run_plan(fresh_db(), false);
    let s = seq![StatementModel::Insert { a, b, c }, StatementModel::SelectAll];
    lemma_run_prefix(fresh_db(), initialization_plan_spec(false), s);
    let d0 = DbModel { keyspace: true, table: true, ..fresh_db() };
    lemma_run_two(d0, StatementModel::Insert { a, b, c }, StatementModel::SelectAll);
    let d = DbModel { rows: d0.rows.insert((a, b), c), ..d0 };
    assert(select_rows(d) =~= set![(a, b, c)]);
}

/// Writing two records with the same key leaves one row for that key, holding
/// the second record's text; every other row is untouched.
pub proof fn lemma_upsert_by_key(db: DbModel, a: i32, b: i32, c1: Seq<char>, c2: Seq<char>)
    requires
        db.table,
    ensures
        run(db, seq![StatementModel::Insert { a, b, c: c1 }, StatementModel::Insert { a, b, c: c2 }])
            == Some(DbModel { rows: db.rows.insert((a, b), c2), ..db }),
{
    lemma_run_two(db, StatementModel::Insert { a, b, c: c1 }, StatementModel::Insert { a, b, c: c2 });
    assert(db.rows.insert((a, b), c1).insert((a, b), c2) =~= db.rows.insert((a, b), c2));
}

proof fn lemma_inserts_keep_other_keys(db: DbModel, recs: Seq<(i32, i32, Seq<char>)>, k: (i32, i32))
    requires
        db.table,
        forall|i: int| 0 <= i < recs.len() ==> (#[trigger] recs[i].0, recs[i].1) != k,
    ensures
        run(db, recs.map_values(|r: (i32, i32, Seq<char>)| insert_model(r))) matches Some(d) && d.table
            && d.rows.contains_key(k) == db.rows.contains_key(k) && (db.rows.contains_key(k)
            ==> d.rows[k] == db.rows[k]),
    decreases recs.len(),
{
    let stmts = recs.map_values(|r: (i32, i32, Seq<char>)| insert_model(r));
    if recs.len() > 0 {
        let r0 = recs[0];
        assert((recs[0].0, recs[0].1) != k);
        let next = DbModel { rows: db.rows.insert((r0.0, r0.1), r0.2), ..db };
        assert(stmts.drop_first() =~= recs.drop_first().map_values(|r: (i32, i32, Seq<char>)| insert_model(r)));
        assert forall|i: int| 0 <= i < recs.drop_first().len() implies (#[trigger] recs.drop_first()[i].0, recs.drop_first()[i].1) != k by {
            assert(recs.drop_first()[i] == recs[i + 1]);
        }
        lemma_inserts_keep_other_keys(next, recs.drop_first(), k);
    }
}

/// Writes of records with pairwise distinct keys, issued one after another in
/// any order, all succeed on an existing table, and every record is returned
/// by a later read of all rows: no write is lost.
pub proof fn lemma_distinct_writes_all_visible(db: DbModel, recs: Seq<(i32, i32, Seq<char>)>)
    requires
        db.table,
        distinct_keys(recs),
    ensures
        run(db, recs.map_values(|r: (i32, i32, Seq<char>)| insert_model(r))) matches Some(d) && forall|
            i: int,
        | 0 <= i < recs.len() ==> select_rows(d).contains(#[trigger] recs[i]),
    decreases recs.len(),
{
    let stmts = recs.map_values(|r: (i32, i32, Seq<char>)| insert_model(r));
    if recs.len() > 0 {
        let r0 = recs[0];
        let rest = recs.drop_first();
        let next = DbModel { rows: db.rows.insert((r0.0, r0.1), r0.2), ..db };
        assert(stmts.drop_first() =~= rest.map_values(|r: (i32, i32, Seq<char>)| insert_model(r)));
        assert(distinct_keys(rest)) by {
            assert forall|i: int, j: int| 0 <= i < j < rest.len() implies (#[trigger] rest[i].0, rest[i].1)
                != (#[trigger] rest[j].0, rest[j].1) by {
                assert(rest[i] == recs[i + 1]);
                assert(rest[j] == recs[j + 1]);
            }
        }
        assert forall|i: int| 0 <= i < rest.len() implies (#[trigger] rest[i].0, rest[i].1) != (r0.0, r0.1) by {
            assert(rest[i] == recs[i + 1]);
        }
        lemma_distinct_writes_all_visible(next, rest);
        lemma_inserts_keep_other_keys(next, rest, (r0.0, r0.1));
        let d = run(db, stmts)->0;
        assert forall|i: int| 0 <= i < recs.len() implies select_rows(d).contains(#[trigger] recs[i]) by {
            if i > 0 {
                assert(recs[i] == rest[i - 1]);
            }
        }
    }
}

/// A result set with a row of fewer columns than the row shape does not map:
/// the mapping fails as a whole.
pub proof fn lemma_short_row_fails(rows: Seq<RawRow>, i: int)
    requires
        0 <= i < rows.len(),
        rows[i].columns@.len() < ROW_WIDTH,
    ensures
        !all_decode(rows),
{
    assert(decode_row(rows[i].columns@) is None);
}

} // verus!
