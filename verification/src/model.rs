//! What a document database does: the meaning of every query on a database
//! seen as the sequence of its records, oldest first.

use crate::store::{FilterView, PatchView, QueryView, RecordView, ReplyView};
use vstd::prelude::*;

verus! {

/// The records of `db` that `filter` selects (`wanted`) or passes over
/// (`!wanted`), in stored order.
pub open spec fn kept(db: Seq<RecordView>, filter: FilterView, wanted: bool) -> Seq<RecordView>
    decreases db.len(),
{
    if db.len() == 0 {
        Seq::empty()
    } else if db.last().matches(filter) == wanted {
        kept(db.drop_last(), filter, wanted).push(db.last())
    } else {
        kept(db.drop_last(), filter, wanted)
    }
}

/// Every record that `filter` selects, in stored order.
pub open spec fn find_all(db: Seq<RecordView>, filter: FilterView) -> Seq<RecordView> {
    kept(db, filter, true)
}

/// The position, at or after `from`, of the first record that `filter`
/// selects; the length of `db` if there is none.
pub open spec fn first_from(db: Seq<RecordView>, filter: FilterView, from: int) -> int
    decreases db.len() - from,
{
    if from >= db.len() {
        db.len() as int
    } else if db[from].matches(filter) {
        from
    } else {
        first_from(db, filter, from + 1)
    }
}

/// The position of the first record that `filter` selects; the length of
/// `db` if there is none.
pub open spec fn first_index(db: Seq<RecordView>, filter: FilterView) -> int {
    first_from(db, filter, 0)
}

/// Whether `filter` selects any record.
pub open spec fn has_match(db: Seq<RecordView>, filter: FilterView) -> bool {
    first_index(db, filter) < db.len()
}

/// The first record that `filter` selects.
pub open spec fn find_one(db: Seq<RecordView>, filter: FilterView) -> Option<RecordView> {
    if has_match(db, filter) {
        Some(db[first_index(db, filter)])
    } else {
        None
    }
}

/// The database without the first record that `filter` selects.
pub open spec fn without_first(db: Seq<RecordView>, filter: FilterView) -> Seq<RecordView> {
    if has_match(db, filter) {
        db.remove(first_index(db, filter))
    } else {
        db
    }
}

/// The database without any record that `filter` selects.
pub open spec fn without_all(db: Seq<RecordView>, filter: FilterView) -> Seq<RecordView> {
    kept(db, filter, false)
}

/// The database with the first record that `filter` selects patched.
pub open spec fn with_patch(db: Seq<RecordView>, filter: FilterView, patch: PatchView) -> Seq<
    RecordView,
> {
    if has_match(db, filter) {
        let i = first_index(db, filter);
        db.update(i, db[i].patched(patch))
    } else {
        db
    }
}

/// The database with `record` in the place of the first record that
/// `filter` selects.
pub open spec fn with_replacement(
    db: Seq<RecordView>,
    filter: FilterView,
    record: RecordView,
) -> Seq<RecordView> {
    if has_match(db, filter) {
        db.update(first_index(db, filter), record)
    } else {
        db
    }
}

/// As `with_replacement`; where `filter` selects nothing, `record` is added.
pub open spec fn with_upsert(db: Seq<RecordView>, filter: FilterView, record: RecordView) -> Seq<
    RecordView,
> {
    if has_match(db, filter) {
        db.update(first_index(db, filter), record)
    } else {
        db.push(record)
    }
}

/// The database after `query`.
pub open spec fn after(db: Seq<RecordView>, query: QueryView) -> Seq<RecordView> {
    match query {
        QueryView::FindOne(_) => db,
        QueryView::FindAll(_) => db,
        QueryView::Count(_) => db,
        QueryView::Sample(_) => db,
        QueryView::Insert(record) => db.push(record),
        QueryView::DeleteOne(filter) => without_first(db, filter),
        QueryView::DeleteMany(filter) => without_all(db, filter),
        QueryView::Update(filter, patch) => with_patch(db, filter, patch),
        QueryView::Replace(filter, record) => with_replacement(db, filter, record),
        QueryView::Upsert(filter, record) => with_upsert(db, filter, record),
    }
}

/// How many records `filter` selects, as a database reports it: a count
/// beyond 64 bits is reported as the largest.
pub open spec fn count(db: Seq<RecordView>, filter: FilterView) -> i64 {
    if find_all(db, filter).len() <= i64::MAX {
        find_all(db, filter).len() as i64
    } else {
        i64::MAX
    }
}

/// Whether the database alone decides the answer to `query`: so it is for
/// every query but a draw.
pub open spec fn decided(query: QueryView) -> bool {
    !(query is Sample)
}

/// The answer of a working database `db` to `query`, for every `query`
/// whose answer it decides.
pub open spec fn reply_to(db: Seq<RecordView>, query: QueryView) -> ReplyView {
    match query {
        QueryView::FindOne(filter) => ReplyView::Found(find_one(db, filter)),
        QueryView::FindAll(filter) => ReplyView::Listed(find_all(db, filter)),
        QueryView::Count(filter) => ReplyView::Counted(count(db, filter)),
        _ => ReplyView::Done,
    }
}

/// Whether `reply` is an answer of a working database `db` to `query`.  A
/// draw is answered with any of the records that the filter selects, and
/// with none only where there is none.
pub open spec fn answers(db: Seq<RecordView>, query: QueryView, reply: ReplyView) -> bool {
    match query {
        QueryView::Sample(filter) => match reply {
            ReplyView::Found(Some(record)) => find_all(db, filter).contains(record),
            ReplyView::Found(None) => find_all(db, filter).len() == 0,
            _ => false,
        },
        _ => reply == reply_to(db, query),
    }
}

/// Whether `query` leaves every database as it is.
pub open spec fn reads(query: QueryView) -> bool {
    query is FindOne || query is FindAll || query is Count || query is Sample
}

/// `first_from` finds the first match at or after `from`.
pub proof fn first_from_is_first(db: Seq<RecordView>, filter: FilterView, from: int)
    requires
        0 <= from <= db.len(),
    ensures
        from <= first_from(db, filter, from) <= db.len(),
        first_from(db, filter, from) < db.len() ==> db[first_from(db, filter, from)].matches(
            filter,
        ),
        forall|k: int| from <= k < first_from(db, filter, from) ==> !(#[trigger] db[k]).matches(filter),
    decreases db.len() - from,
{
    if from < db.len() && !db[from].matches(filter) {
        first_from_is_first(db, filter, from + 1);
    }
}

/// The first match is at `i` if `i` matches and nothing before it does.
pub proof fn first_index_is(db: Seq<RecordView>, filter: FilterView, i: int)
    requires
        0 <= i <= db.len(),
        i < db.len() ==> db[i].matches(filter),
        forall|k: int| 0 <= k < i ==> !(#[trigger] db[k]).matches(filter),
    ensures
        first_index(db, filter) == i,
{
    first_from_is_first(db, filter, 0);
    let j = first_index(db, filter);
    if j < i {
        assert(!db[j].matches(filter));
    }
    if i < j {
        assert(!db[i].matches(filter));
    }
}

/// Adding a record adds it to the selection that it belongs to.
pub proof fn kept_push(db: Seq<RecordView>, record: RecordView, filter: FilterView, wanted: bool)
    ensures
        kept(db.push(record), filter, wanted) == if record.matches(filter) == wanted {
            kept(db, filter, wanted).push(record)
        } else {
            kept(db, filter, wanted)
        },
{
    assert(db.push(record).drop_last() =~= db);
}

/// What `kept` keeps is in the database, is what was wanted, and is no
/// more than there was.
pub proof fn kept_is_part(db: Seq<RecordView>, filter: FilterView, wanted: bool)
    ensures
        kept(db, filter, wanted).len() <= db.len(),
        forall|k: int|
            0 <= k < kept(db, filter, wanted).len() ==> (#[trigger] kept(db, filter, wanted)[k]).matches(
                filter,
            ) == wanted && db.contains(kept(db, filter, wanted)[k]),
        forall|k: int|
            0 <= k < db.len() && (#[trigger] db[k]).matches(filter) == wanted ==> kept(
                db,
                filter,
                wanted,
            ).contains(db[k]),
    decreases db.len(),
{
    if db.len() > 0 {
        let rest = db.drop_last();
        kept_is_part(rest, filter, wanted);
        let out = kept(db, filter, wanted);
        assert forall|k: int| 0 <= k < out.len() implies (#[trigger] out[k]).matches(filter)
            == wanted && db.contains(out[k]) by {
            if k < kept(rest, filter, wanted).len() {
                let x = kept(rest, filter, wanted)[k];
                assert(rest.contains(x));
                let j = choose|j: int| 0 <= j < rest.len() && rest[j] == x;
                assert(db[j] == x);
            } else {
                assert(db[db.len() - 1] == out[k]);
            }
        }
        assert forall|k: int| 0 <= k < db.len() && (#[trigger] db[k]).matches(filter)
            == wanted implies out.contains(db[k]) by {
            if k < rest.len() {
                assert(rest[k] == db[k]);
                let x = db[k];
                assert(kept(rest, filter, wanted).contains(x));
                let j = choose|j: int|
                    0 <= j < kept(rest, filter, wanted).len() && kept(rest, filter, wanted)[j] == x;
                assert(out[j] == x);
            } else {
                assert(out[out.len() - 1] == db[k]);
            }
        }
    }
}

/// Something is selected exactly when there is a first match.
pub proof fn selection_and_first(db: Seq<RecordView>, filter: FilterView)
    ensures
        has_match(db, filter) <==> find_all(db, filter).len() > 0,
{
    first_from_is_first(db, filter, 0);
    kept_is_part(db, filter, true);
    if has_match(db, filter) {
        let i = first_index(db, filter);
        assert(db[i].matches(filter));
        assert(find_all(db, filter).contains(db[i]));
    }
    if find_all(db, filter).len() > 0 {
        let x = find_all(db, filter)[0];
        assert(x.matches(filter) && db.contains(x));
        let j = choose|j: int| 0 <= j < db.len() && db[j] == x;
        if !has_match(db, filter) {
            assert(!db[j].matches(filter));
        }
    }
}

} // verus!
