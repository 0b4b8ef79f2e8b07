//! What the statements of the history do to the table, by the rules of SQL, and what
//! follows from that for the history as a whole.
//!
//! The table is a set of rows. SQLite keeps it; here is what its statements mean.

use vstd::prelude::*;

use super::{ParamModel, Statement};

verus! {

/// A row of the table.
pub struct RowModel {
    pub id: int,
    pub text: Seq<char>,
    pub provider: Seq<char>,
    pub created_at: int,
}

/// What running a statement gives back.
pub enum Reply {
    /// The id of the new row.
    Inserted(int),
    /// Nothing.
    Done,
    /// The rows that were selected, in order.
    Rows(Seq<RowModel>),
}

/// Whether a row with this id is in the table.
pub open spec fn has_id(table: Set<RowModel>, id: int) -> bool {
    exists|r: RowModel| #[trigger] table.contains(r) && r.id == id
}

/// Whether `a` is listed before `b`: it was created later, or at the same time with a
/// greater id. (`ORDER BY created_at DESC, id DESC`.)
pub open spec fn newer(a: RowModel, b: RowModel) -> bool {
    a.created_at > b.created_at || (a.created_at == b.created_at && a.id > b.id)
}

/// Whether each row is listed before those behind it.
pub open spec fn newest_first(rows: Seq<RowModel>) -> bool {
    forall|i: int, j: int|
        0 <= i < j < rows.len() ==> newer(#[trigger] rows[i], #[trigger] rows[j])
}

/// Whether `rows` are the rows of the table whose text matches the pattern, newest
/// first.
pub open spec fn are_matches(
    table: Set<RowModel>,
    pattern: Seq<char>,
    rows: Seq<RowModel>,
) -> bool {
    &&& newest_first(rows)
    &&& forall|r: RowModel| #[trigger]
        rows.contains(r) <==> table.contains(r) && super::like(pattern, r.text)
}

/// Whether `rows` are all rows of the table, newest first.
pub open spec fn are_all(table: Set<RowModel>, rows: Seq<RowModel>) -> bool {
    &&& newest_first(rows)
    &&& forall|r: RowModel| #[trigger] rows.contains(r) <==> table.contains(r)
}

/// The first rows of a list, as many as a limit admits. A negative limit is none.
pub open spec fn limited(rows: Seq<RowModel>, limit: int) -> Seq<RowModel> {
    if 0 <= limit < rows.len() {
        rows.take(limit)
    } else {
        rows
    }
}

/// Whether running `s` on `before` leaves `after` and gives `reply`.
pub open spec fn runs(
    s: Statement,
    before: Set<RowModel>,
    after: Set<RowModel>,
    reply: Reply,
) -> bool {
    let p = super::bound(s);
    &&& s.sql@ == super::INSERT_SQL@ ==> {
        &&& p.len() == 3
        &&& p[0] matches ParamModel::Text(text)
        &&& p[1] matches ParamModel::Text(provider)
        &&& p[2] matches ParamModel::Int(created_at)
        &&& reply matches Reply::Inserted(id)
        &&& !has_id(before, id)
        &&& after == before.insert(RowModel { id, text, provider, created_at })
    }
    &&& s.sql@ == super::DELETE_SQL@ ==> {
        &&& p.len() == 1
        &&& p[0] matches ParamModel::Int(id)
        &&& reply is Done
        &&& after == before.filter(|r: RowModel| r.id != id)
    }
    &&& s.sql@ == super::SEARCH_SQL@ ==> {
        &&& p.len() == 1
        &&& p[0] matches ParamModel::Text(pattern)
        &&& reply matches Reply::Rows(rows)
        &&& after == before
        &&& are_matches(before, pattern, rows)
    }
    &&& s.sql@ == super::RECENT_SQL@ ==> {
        &&& p.len() == 1
        &&& p[0] matches ParamModel::Int(limit)
        &&& reply matches Reply::Rows(rows)
        &&& after == before
        &&& exists|all: Seq<RowModel>| #[trigger]
            are_all(before, all) && rows == limited(all, limit)
    }
}

/// Whether `s` adds this transcript, as [`super::record`] makes it.
pub open spec fn is_record(
    s: Statement,
    text: Seq<char>,
    provider: Seq<char>,
    now: int,
) -> bool {
    &&& s.sql@ == super::INSERT_SQL@
    &&& super::bound(s) == seq![
        ParamModel::Text(text),
        ParamModel::Text(provider),
        ParamModel::Int(now),
    ]
}

/// Whether `s` finds the transcripts with this query, as [`super::search`] makes it.
pub open spec fn is_search(s: Statement, query: Seq<char>) -> bool {
    &&& s.sql@ == super::SEARCH_SQL@
    &&& super::bound(s) == seq![ParamModel::Text("%"@ + super::escaped(query) + "%"@)]
}

/// Whether `s` deletes this transcript, as [`super::delete`] makes it.
pub open spec fn is_delete(s: Statement, id: int) -> bool {
    &&& s.sql@ == super::DELETE_SQL@
    &&& super::bound(s) == seq![ParamModel::Int(id)]
}

/// Whether `s` lists the newest transcripts up to a limit, as [`super::recent`] makes
/// it.
pub open spec fn is_recent(s: Statement, limit: int) -> bool {
    &&& s.sql@ == super::RECENT_SQL@
    &&& super::bound(s) == seq![ParamModel::Int(limit)]
}

// ---- Laws ------------------------------------------------------------------

/// A search gives exactly the transcripts that contain the query, newest first, and
/// changes nothing.
pub proof fn search_lists_what_contains_the_query(
    s: Statement,
    query: Seq<char>,
    before: Set<RowModel>,
    after: Set<RowModel>,
    reply: Reply,
)
    requires
        is_search(s, query),
        runs(s, before, after, reply),
    ensures
        after == before,
        reply matches Reply::Rows(rows) && newest_first(rows) && forall|r: RowModel| #[trigger]
            rows.contains(r) <==> before.contains(r) && super::occurs_in(query, r.text),
{
    assert forall|r: RowModel|
        super::like("%"@ + super::escaped(query) + "%"@, r.text) <==> #[trigger] super::occurs_in(
            query,
            r.text,
        ) by {
        super::search_finds_what_contains_the_query(query, r.text);
    }
}

/// A search for nothing gives every transcript.
pub proof fn empty_search_lists_all(
    s: Statement,
    before: Set<RowModel>,
    after: Set<RowModel>,
    reply: Reply,
)
    requires
        is_search(s, Seq::empty()),
        runs(s, before, after, reply),
    ensures
        after == before,
        reply matches Reply::Rows(rows) && are_all(before, rows),
{
    search_lists_what_contains_the_query(s, Seq::empty(), before, after, reply);
    assert forall|r: RowModel| #[trigger] super::occurs_in(Seq::empty(), r.text) by {
        assert(super::begins_with(r.text.skip(0), Seq::empty()));
    }
}

/// Recording adds one row, with the text and the provider as they were given and an
/// id that no row had, and leaves every other row as it was: what a search for
/// nothing gave before it gives afterwards, and the new row, and no more.
pub proof fn recording_adds_one_row(
    s: Statement,
    text: Seq<char>,
    provider: Seq<char>,
    now: int,
    before: Set<RowModel>,
    after: Set<RowModel>,
    reply: Reply,
    old_rows: Seq<RowModel>,
    new_rows: Seq<RowModel>,
)
    requires
        is_record(s, text, provider, now),
        runs(s, before, after, reply),
        are_all(before, old_rows),
        are_all(after, new_rows),
    ensures
        reply matches Reply::Inserted(id) && {
            let row = RowModel { id, text, provider, created_at: now };
            &&& forall|r: RowModel| #[trigger] old_rows.contains(r) ==> r.id != id
            &&& forall|r: RowModel| #[trigger]
                new_rows.contains(r) <==> old_rows.contains(r) || r == row
            &&& new_rows.len() == old_rows.len() + 1
        },
{
    let id = reply->Inserted_0;
    let row = RowModel { id, text, provider, created_at: now };
    assert(!old_rows.contains(row)) by {
        if old_rows.contains(row) {
            assert(before.contains(row));
        }
    }
    lemma_lengths(old_rows, new_rows, row);
}

/// Of the same table, the recent transcripts are the start of all of them: newest
/// first, never more than the limit, and never fewer while there are more.
pub proof fn recent_is_the_start_of_all(
    s: Statement,
    limit: int,
    before: Set<RowModel>,
    after: Set<RowModel>,
    reply: Reply,
    all: Seq<RowModel>,
)
    requires
        is_recent(s, limit),
        0 <= limit,
        runs(s, before, after, reply),
        are_all(before, all),
    ensures
        after == before,
        reply matches Reply::Rows(rows) && rows == all.take(
            if limit < all.len() {
                limit
            } else {
                all.len() as int
            },
        ),
{
    let rows = reply->Rows_0;
    let listed = choose|listed: Seq<RowModel>| #[trigger]
        are_all(before, listed) && rows == limited(listed, limit);
    lemma_same_order(listed, all);
    assert(all.take(all.len() as int) =~= all);
}

/// Deleting takes away the row with that id, if there is one, and no other.
pub proof fn deleting_removes_one_row(
    s: Statement,
    id: int,
    before: Set<RowModel>,
    after: Set<RowModel>,
    reply: Reply,
)
    requires
        is_delete(s, id),
        runs(s, before, after, reply),
    ensures
        reply is Done,
        !has_id(after, id),
        forall|r: RowModel| #[trigger] after.contains(r) <==> before.contains(r) && r.id != id,
{
}

/// Deleting a second time changes nothing.
pub proof fn deleting_can_be_repeated(
    s: Statement,
    id: int,
    before: Set<RowModel>,
    between: Set<RowModel>,
    after: Set<RowModel>,
    first: Reply,
    second: Reply,
)
    requires
        is_delete(s, id),
        runs(s, before, between, first),
        runs(s, between, after, second),
    ensures
        second is Done,
        after == between,
{
    assert(after =~= between);
}

/// What was recorded is found by a search for any part of its text, and is gone once
/// it was deleted.
pub proof fn what_is_recorded_is_found_until_deleted(
    record: Statement,
    search: Statement,
    delete: Statement,
    text: Seq<char>,
    provider: Seq<char>,
    now: int,
    query: Seq<char>,
    id: int,
    t0: Set<RowModel>,
    t1: Set<RowModel>,
    t2: Set<RowModel>,
    found: Seq<RowModel>,
    left: Seq<RowModel>,
    deleted: Reply,
)
    requires
        is_record(record, text, provider, now),
        is_search(search, query),
        is_delete(delete, id),
        super::occurs_in(query, text),
        runs(record, t0, t1, Reply::Inserted(id)),
        runs(search, t1, t1, Reply::Rows(found)),
        runs(delete, t1, t2, deleted),
        runs(search, t2, t2, Reply::Rows(left)),
    ensures
        found.contains(RowModel { id, text, provider, created_at: now }),
        t2 == t0,
        forall|r: RowModel| #[trigger] left.contains(r) ==> r.id != id,
{
    search_lists_what_contains_the_query(search, query, t1, t1, Reply::Rows(found));
    search_lists_what_contains_the_query(search, query, t2, t2, Reply::Rows(left));
    deleting_removes_one_row(delete, id, t1, t2, deleted);
    assert(t1.contains(RowModel { id, text, provider, created_at: now }));
    assert forall|r: RowModel| t0.contains(r) implies r.id != id by {
        if r.id == id {
            assert(has_id(t0, id));
        }
    }
    assert(t2 =~= t0);
}

proof fn lemma_no_duplicates(rows: Seq<RowModel>)
    requires
        newest_first(rows),
    ensures
        rows.no_duplicates(),
{
    assert forall|i: int, j: int| 0 <= i < rows.len() && 0 <= j < rows.len() && i != j implies rows[i]
        != rows[j] by {
        if i < j {
            assert(newer(rows[i], rows[j]));
        } else {
            assert(newer(rows[j], rows[i]));
        }
    }
}

proof fn lemma_lengths(old_rows: Seq<RowModel>, new_rows: Seq<RowModel>, row: RowModel)
    requires
        newest_first(old_rows),
        newest_first(new_rows),
        !old_rows.contains(row),
        forall|r: RowModel| #[trigger]
            new_rows.contains(r) <==> old_rows.contains(r) || r == row,
    ensures
        new_rows.len() == old_rows.len() + 1,
{
    lemma_no_duplicates(old_rows);
    lemma_no_duplicates(new_rows);
    old_rows.unique_seq_to_set();
    new_rows.unique_seq_to_set();
    assert(new_rows.to_set() =~= old_rows.to_set().insert(row)) by {
        assert forall|r: RowModel| #[trigger] new_rows.to_set().contains(r)
            <==> old_rows.to_set().insert(row).contains(r) by {
            assert(new_rows.contains(r) <==> old_rows.contains(r) || r == row);
        }
    }
    vstd::seq_lib::seq_to_set_is_finite(old_rows);
}

proof fn lemma_same_order(a: Seq<RowModel>, b: Seq<RowModel>)
    requires
        newest_first(a),
        newest_first(b),
        forall|r: RowModel| #[trigger] a.contains(r) <==> b.contains(r),
    ensures
        a == b,
    decreases a.len(),
{
    if a.len() == 0 {
        if b.len() > 0 {
            assert(b.contains(b[0]));
            assert(a.contains(b[0]));
        }
        assert(a =~= b);
    } else {
        assert(a.contains(a[0]));
        assert(b.contains(a[0]));
        let w = choose|w: int| 0 <= w < b.len() && b[w] == a[0];
        assert(b.contains(b[0]));
        assert(a.contains(b[0]));
        let v = choose|v: int| 0 <= v < a.len() && a[v] == b[0];
        if w > 0 && v > 0 {
            assert(newer(a[0], a[v]));
            assert(newer(b[0], b[w]));
        }
        assert(a[0] == b[0]);
        lemma_tail(a, b);
        lemma_tail(b, a);
        let ta = a.drop_first();
        let tb = b.drop_first();
        assert forall|i: int, j: int| 0 <= i < j < ta.len() implies newer(
            #[trigger] ta[i],
            #[trigger] ta[j],
        ) by {
            assert(newer(a[i + 1], a[j + 1]));
        }
        assert forall|i: int, j: int| 0 <= i < j < tb.len() implies newer(
            #[trigger] tb[i],
            #[trigger] tb[j],
        ) by {
            assert(newer(b[i + 1], b[j + 1]));
        }
        lemma_same_order(ta, tb);
        assert(a =~= seq![a[0]] + ta);
        assert(b =~= seq![b[0]] + tb);
    }
}

proof fn lemma_tail(a: Seq<RowModel>, b: Seq<RowModel>)
    requires
        newest_first(a),
        a.len() > 0 && b.len() > 0,
        a[0] == b[0],
        forall|r: RowModel| #[trigger] a.contains(r) ==> b.contains(r),
    ensures
        forall|r: RowModel| #[trigger]
            a.drop_first().contains(r) ==> b.drop_first().contains(r),
{
    assert forall|r: RowModel| #[trigger] a.drop_first().contains(r) implies b.drop_first().contains(
        r,
    ) by {
        let i = choose|i: int| 0 <= i < a.drop_first().len() && a.drop_first()[i] == r;
        assert(a[i + 1] == r);
        assert(a.contains(r));
        assert(newer(a[0], a[i + 1]));
        let k = choose|k: int| 0 <= k < b.len() && b[k] == r;
        assert(k > 0);
        assert(b.drop_first()[k - 1] == r);
    }
}

/// A list shows what was recorded later first, and of two at the same time the one
/// with the higher id.
pub proof fn later_transcripts_come_first(rows: Seq<RowModel>, i: int, j: int)
    requires
        newest_first(rows),
        0 <= i < j < rows.len(),
    ensures
        rows[i].created_at >= rows[j].created_at,
        rows[i].created_at == rows[j].created_at ==> rows[i].id > rows[j].id,
        rows[i] != rows[j],
{
    assert(newer(rows[i], rows[j]));
}

/// A limit keeps as many rows as it says, from the front, and all where there are no
/// more; a negative one keeps all.
pub proof fn a_limit_keeps_the_front(rows: Seq<RowModel>, limit: int)
    ensures
        limited(rows, limit).is_prefix_of(rows),
        0 <= limit <= rows.len() ==> limited(rows, limit).len() == limit,
        limit < 0 || limit > rows.len() ==> limited(rows, limit) == rows,
{
    assert(limited(rows, limit) =~= rows.subrange(0, limited(rows, limit).len() as int));
}

} // verus!
