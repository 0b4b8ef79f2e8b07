//! The transcript history: the statements that keep it in SQLite, and the usage
//! statistics computed from its rows.

pub mod table;

use vstd::prelude::*;

use crate::config::{prefixed, FileIn};
use crate::text::{self, count_words, precedes, same, to_chars};

verus! {

/// Why the history could not be opened, read or written.
#[derive(Debug, PartialEq, Eq)]
pub enum StoreError {
    /// The data directory could not be determined or created.
    Path(String),
    /// A database operation failed.
    Db(String),
}

/// What a [`StoreError`] says to the user.
pub open spec fn store_error_text(e: StoreError) -> Seq<char> {
    match e {
        StoreError::Path(m) => "data path error: "@ + m@,
        StoreError::Db(m) => "history database error: "@ + m@,
    }
}

impl StoreError {
    /// What this error says to the user.
    pub fn message(&self) -> (r: String)
        ensures
            r@ == store_error_text(*self),
    {
        match self {
            StoreError::Path(m) => prefixed("data path error: ", m.as_str()),
            StoreError::Db(m) => prefixed("history database error: ", m.as_str()),
        }
    }
}

/// One stored transcript.
#[derive(Debug, Clone, PartialEq, Eq)]
pub struct Entry {
    pub id: i64,
    pub text: String,
    pub provider: String,
    /// Unix time in seconds.
    pub created_at: i64,
}

// ---- Statements ------------------------------------------------------------

/// A value bound to a statement's parameter.
#[derive(Debug, Clone, PartialEq, Eq)]
pub enum Param {
    Text(String),
    Int(i64),
}

/// What a [`Param`] holds.
pub enum ParamModel {
    Text(Seq<char>),
    Int(int),
}

impl View for Param {
    type V = ParamModel;

    open spec fn view(&self) -> ParamModel {
        match self {
            Param::Text(s) => ParamModel::Text(s@),
            Param::Int(n) => ParamModel::Int(*n as int),
        }
    }
}

/// A statement with its parameters, `?1` first.
#[derive(Debug, Clone, PartialEq, Eq)]
pub struct Statement {
    pub sql: &'static str,
    pub params: Vec<Param>,
}

/// The parameters of a statement.
pub open spec fn bound(s: Statement) -> Seq<ParamModel> {
    s.params@.map_values(|p: Param| p@)
}

/// How long a locked database is waited for.
pub const BUSY_TIMEOUT_SECS: u64 = 5;

pub const CREATE_SQL: &'static str = "CREATE TABLE IF NOT EXISTS transcripts (
                id         INTEGER PRIMARY KEY,
                text       TEXT NOT NULL,
                provider   TEXT NOT NULL,
                created_at INTEGER NOT NULL
            )";

pub const INSERT_SQL: &'static str = "INSERT INTO transcripts (text, provider, created_at) VALUES (?1, ?2, ?3)";

pub const SEARCH_SQL: &'static str = "SELECT id, text, provider, created_at FROM transcripts
                 WHERE text LIKE ?1 ESCAPE '\\' ORDER BY created_at DESC, id DESC";

pub const DELETE_SQL: &'static str = "DELETE FROM transcripts WHERE id = ?1";

pub const RECENT_SQL: &'static str = "SELECT id, text, provider, created_at FROM transcripts
                 ORDER BY created_at DESC, id DESC LIMIT ?1";

pub const STATS_SQL: &'static str = "SELECT text, provider, created_at FROM transcripts";

/// Adds a transcript.
pub fn record(text: &str, provider: &str, now: i64) -> (r: Statement)
    ensures
        r.sql@ == INSERT_SQL@,
        bound(r) == seq![
            ParamModel::Text(text@),
            ParamModel::Text(provider@),
            ParamModel::Int(now as int),
        ],
{
    let mut params: Vec<Param> = Vec::new();
    params.push(Param::Text(text.to_owned()));
    params.push(Param::Text(provider.to_owned()));
    params.push(Param::Int(now));
    let r = Statement { sql: INSERT_SQL, params };
    assert(bound(r) =~= seq![
        ParamModel::Text(text@),
        ParamModel::Text(provider@),
        ParamModel::Int(now as int),
    ]);
    r
}

/// Whether `c` has a meaning of its own in a pattern.
pub open spec fn is_special(c: char) -> bool {
    c == '\\' || c == '%' || c == '_'
}

/// `q` as part of a pattern in which it stands for itself: with a backslash before
/// each character that has a meaning of its own.
pub open spec fn escaped(q: Seq<char>) -> Seq<char>
    decreases q.len(),
{
    if q.len() == 0 {
        Seq::empty()
    } else if is_special(q[0]) {
        seq!['\\', q[0]] + escaped(q.drop_first())
    } else {
        seq![q[0]] + escaped(q.drop_first())
    }
}

fn escape(q: &str) -> (r: String)
    ensures
        r@ == escaped(q@),
{
    let v = to_chars(q);
    let mut r = String::new();
    let mut i: usize = 0;
    assert(q@.skip(0) =~= q@);
    assert(r@ + escaped(q@) =~= escaped(q@));
    while i < v.len()
        invariant
            v@ == q@,
            i <= v@.len(),
            r@ + escaped(q@.skip(i as int)) == escaped(q@),
        decreases v@.len() - i,
    {
        let ghost before = r@;
        let ghost rest = q@.skip(i as int);
        let c = v[i];
        assert(rest[0] == c);
        assert(rest.drop_first() =~= q@.skip(i + 1));
        if c == '\\' || c == '%' || c == '_' {
            r.push('\\');
        }
        r.push(c);
        assert(r@ + escaped(q@.skip(i + 1)) =~= before + escaped(rest));
        i = i + 1;
    }
    assert(q@.skip(i as int) =~= Seq::<char>::empty());
    assert(r@ + escaped(q@.skip(i as int)) =~= r@);
    r
}

/// Finds the transcripts that contain `query`, newest first. Every character of the
/// query stands for itself; see [`search_finds_what_contains_the_query`].
pub fn search(query: &str) -> (r: Statement)
    ensures
        r.sql@ == SEARCH_SQL@,
        bound(r) == seq![ParamModel::Text("%"@ + escaped(query@) + "%"@)],
{
    let mut pattern = prefixed("%", escape(query).as_str());
    pattern.append("%");
    let mut params: Vec<Param> = Vec::new();
    params.push(Param::Text(pattern));
    let r = Statement { sql: SEARCH_SQL, params };
    assert(bound(r) =~= seq![ParamModel::Text("%"@ + escaped(query@) + "%"@)]);
    r
}

/// Deletes a transcript; one that is gone already is no error.
pub fn delete(id: i64) -> (r: Statement)
    ensures
        r.sql@ == DELETE_SQL@,
        bound(r) == seq![ParamModel::Int(id as int)],
{
    let mut params: Vec<Param> = Vec::new();
    params.push(Param::Int(id));
    let r = Statement { sql: DELETE_SQL, params };
    assert(bound(r) =~= seq![ParamModel::Int(id as int)]);
    r
}

/// Lists the newest `limit` transcripts, newest first. A limit beyond `i64`
/// wraps.
pub fn recent(limit: usize) -> (r: Statement)
    ensures
        r.sql@ == RECENT_SQL@,
        bound(r) == seq![ParamModel::Int((limit as i64) as int)],
        limit <= i64::MAX ==> table::is_recent(r, limit as int),
{
    let mut params: Vec<Param> = Vec::new();
    params.push(Param::Int(limit as i64));
    let r = Statement { sql: RECENT_SQL, params };
    assert(bound(r) =~= seq![ParamModel::Int((limit as i64) as int)]);
    r
}

/// `history.db` in the application's data directory, where the platform has one.
pub fn default_db_path<D>(data_dir: Option<D>) -> (r: Result<FileIn<D>, StoreError>)
    ensures
        match data_dir {
            Some(d) => r matches Ok(f) && f.dir == d && f.file@ == "history.db"@,
            None => r matches Err(StoreError::Path(m)) && m@
                == "could not determine a data directory"@,
        },
{
    match data_dir {
        Some(d) => Ok(FileIn { dir: d, file: "history.db".to_owned() }),
        None => Err(StoreError::Path("could not determine a data directory".to_owned())),
    }
}

// ---- Statistics ------------------------------------------------------------

/// What the statistics read of a transcript: its text, provider and time.
pub type Row = (String, String, i64);

/// Local usage, relative to a point in time.
#[derive(Debug, Clone, PartialEq, Eq)]
pub struct Stats {
    /// Transcripts ever recorded.
    pub total: u64,
    /// Words in all of them.
    pub words: u64,
    /// Providers with their counts, busiest first, ties by provider id.
    pub by_provider: Vec<(String, u64)>,
    /// Transcripts less than 24 hours old.
    pub last_24h: u64,
    /// Transcripts less than 7 days old.
    pub last_7d: u64,
}

impl Default for Stats {
    fn default() -> (r: Self)
        ensures
            r.total == 0 && r.words == 0 && r.last_24h == 0 && r.last_7d == 0,
            r.by_provider@.len() == 0,
    {
        Stats { total: 0, words: 0, by_provider: Vec::new(), last_24h: 0, last_7d: 0 }
    }
}

impl Stats {
    /// Mean words per transcript, as a fraction; 0 without transcripts.
    pub fn avg_words(&self) -> (r: (u64, u64))
        ensures
            r == (if self.total == 0 {
                (0u64, 1u64)
            } else {
                (self.words, self.total)
            }),
    {
        if self.total == 0 {
            (0, 1)
        } else {
            (self.words, self.total)
        }
    }
}

/// The words of all rows.
pub open spec fn total_words(rows: Seq<Row>) -> nat
    decreases rows.len(),
{
    if rows.len() == 0 {
        0
    } else {
        total_words(rows.drop_last()) + text::word_count(rows.last().0@)
    }
}

/// The number of rows less than `span` seconds old at `now`. A row from the
/// future is as recent as can be.
pub open spec fn younger_than(rows: Seq<Row>, now: int, span: int) -> nat
    decreases rows.len(),
{
    if rows.len() == 0 {
        0
    } else {
        younger_than(rows.drop_last(), now, span) + if now - rows.last().2 < span {
            1nat
        } else {
            0nat
        }
    }
}

/// The number of rows of a provider.
pub open spec fn provider_count(rows: Seq<Row>, provider: Seq<char>) -> nat
    decreases rows.len(),
{
    if rows.len() == 0 {
        0
    } else {
        provider_count(rows.drop_last(), provider) + if rows.last().1@ == provider {
            1nat
        } else {
            0nat
        }
    }
}

/// Providers with their counts.
pub open spec fn counts_view(list: Seq<(String, u64)>) -> Seq<(Seq<char>, u64)> {
    list.map_values(|e: (String, u64)| (e.0@, e.1))
}

/// Whether `a` is listed before `b`: it is busier, or as busy with a smaller id.
pub open spec fn ranks_before(a: (Seq<char>, u64), b: (Seq<char>, u64)) -> bool {
    a.1 > b.1 || (a.1 == b.1 && text::lex_less(a.0, b.0))
}

/// Whether each entry is listed before those behind it.
pub open spec fn is_ranked(list: Seq<(Seq<char>, u64)>) -> bool {
    forall|i: int, j: int|
        0 <= i < j < list.len() ==> ranks_before(#[trigger] list[i], #[trigger] list[j])
}

/// Whether `list` has each provider of `rows` with its count, and no other.
pub open spec fn counts_rows(list: Seq<(Seq<char>, u64)>, rows: Seq<Row>) -> bool {
    &&& forall|i: int|
        0 <= i < list.len() ==> (#[trigger] list[i]).1 == provider_count(rows, list[i].0)
            && list[i].1 > 0
    &&& forall|k: int|
        0 <= k < rows.len() ==> lists(list, (#[trigger] rows[k]).1@)
}

/// Whether `list` has an entry for `provider`.
pub open spec fn lists(list: Seq<(Seq<char>, u64)>, provider: Seq<char>) -> bool {
    exists|i: int| 0 <= i < list.len() && (#[trigger] list[i]).0 == provider
}

/// Whether `s` are the statistics of `rows` at `now`.
pub open spec fn are_stats(s: Stats, rows: Seq<Row>, now: int) -> bool {
    &&& s.total == rows.len()
    &&& s.words == total_words(rows)
    &&& s.last_24h == younger_than(rows, now, 86400)
    &&& s.last_7d == younger_than(rows, now, 604800)
    &&& is_ranked(counts_view(s.by_provider@))
    &&& counts_rows(counts_view(s.by_provider@), rows)
}

proof fn lemma_total_words_prefix(rows: Seq<Row>, i: int)
    requires
        0 <= i <= rows.len(),
    ensures
        total_words(rows.take(i)) <= total_words(rows),
    decreases rows.len() - i,
{
    if i == rows.len() {
        assert(rows.take(i) =~= rows);
    } else {
        assert(rows.take(i + 1).drop_last() =~= rows.take(i));
        lemma_total_words_prefix(rows, i + 1);
    }
}

proof fn lemma_counts_bounded(rows: Seq<Row>, now: int, span: int, provider: Seq<char>)
    ensures
        younger_than(rows, now, span) <= rows.len(),
        provider_count(rows, provider) <= rows.len(),
    decreases rows.len(),
{
    if rows.len() > 0 {
        lemma_counts_bounded(rows.drop_last(), now, span, provider);
    }
}

/// Whether no provider is listed twice.
spec fn distinct(list: Seq<(Seq<char>, u64)>) -> bool {
    forall|i: int, j: int|
        0 <= i < j < list.len() ==> (#[trigger] list[i]).0 != (#[trigger] list[j]).0
}

fn tally(list: &mut Vec<(String, u64)>, provider: &str, rows: Ghost<Seq<Row>>)
    requires
        rows@.len() > 0,
        rows@.last().1@ == provider@,
        rows@.len() <= u64::MAX,
        distinct(counts_view(old(list)@)),
        counts_rows(counts_view(old(list)@), rows@.drop_last()),
    ensures
        distinct(counts_view(final(list)@)),
        counts_rows(counts_view(final(list)@), rows@),
{
    let ghost before = counts_view(list@);
    let ghost earlier = rows@.drop_last();
    proof {
        lemma_counts_bounded(earlier, 0, 0, provider@);
    }
    let mut i: usize = 0;
    while i < list.len()
        invariant_except_break
            counts_view(list@) == before,
            i <= list@.len(),
            forall|k: int| 0 <= k < i ==> (#[trigger] before[k]).0 != provider@,
        invariant
            rows@.len() > 0,
            rows@.last().1@ == provider@,
            earlier == rows@.drop_last(),
            rows@.len() <= u64::MAX,
            distinct(before),
            counts_rows(before, earlier),
            provider_count(earlier, provider@) <= earlier.len(),
        ensures
            i < before.len() ==> before[i as int].0 == provider@ && counts_view(list@)
                == before.update(i as int, (provider@, (before[i as int].1 + 1) as u64))
                && before[i as int].1 < u64::MAX,
            i >= before.len() ==> counts_view(list@) == before && forall|k: int|
                0 <= k < before.len() ==> (#[trigger] before[k]).0 != provider@,
        decreases list@.len() - i,
    {
        assert(before[i as int] == (list@[i as int].0@, list@[i as int].1));
        if same(list[i].0.as_str(), provider) {
            let count: u64 = list[i].1;
            let name = list[i].0.clone();
            assert(count == provider_count(earlier, before[i as int].0));
            list.set(i, (name, count + 1));
            assert(counts_view(list@) =~= before.update(
                i as int,
                (provider@, (before[i as int].1 + 1) as u64),
            ));
            break;
        }
        i = i + 1;
    }
    let n = list.len();
    assert(counts_view(list@).len() == n);
    if i >= n {
        proof {
            if provider_count(earlier, provider@) > 0 {
                lemma_counted_means_listed(before, earlier, provider@);
            }
        }
        list.push((provider.to_owned(), 1));
        assert(counts_view(list@) =~= before.push((provider@, 1u64)));
    }
    proof {
        let after = counts_view(list@);
        assert forall|k: int| 0 <= k < rows@.len() implies lists(
            after,
            (#[trigger] rows@[k]).1@,
        ) by {
            if k < earlier.len() {
                assert(earlier[k] == rows@[k]);
                assert(lists(before, earlier[k].1@));
                let w = choose|w: int|
                    0 <= w < before.len() && (#[trigger] before[w]).0 == earlier[k].1@;
                assert(after[w].0 == before[w].0);
            } else if i < before.len() {
                assert(after[i as int].0 == provider@);
            } else {
                assert(after[before.len() as int].0 == provider@);
            }
        }
    }
}

proof fn lemma_counted_means_listed(
    list: Seq<(Seq<char>, u64)>,
    rows: Seq<Row>,
    provider: Seq<char>,
)
    requires
        forall|k: int| 0 <= k < rows.len() ==> lists(list, (#[trigger] rows[k]).1@),
        provider_count(rows, provider) > 0,
    ensures
        lists(list, provider),
    decreases rows.len(),
{
    if rows.last().1@ != provider {
        assert forall|k: int| 0 <= k < rows.drop_last().len() implies lists(
            list,
            (#[trigger] rows.drop_last()[k]).1@,
        ) by {
            assert(rows.drop_last()[k] == rows[k]);
        }
        lemma_counted_means_listed(list, rows.drop_last(), provider);
    } else {
        assert(lists(list, rows[rows.len() - 1].1@));
    }
}

/// Puts `entry` where it belongs in a ranked list that does not have its provider.
fn place(list: &mut Vec<(String, u64)>, entry: (String, u64))
    requires
        is_ranked(counts_view(old(list)@)),
        !lists(counts_view(old(list)@), entry.0@),
    ensures
        is_ranked(counts_view(final(list)@)),
        forall|p: Seq<char>| #[trigger]
            lists(counts_view(final(list)@), p) <==> lists(counts_view(old(list)@), p) || p
                == entry.0@,
        forall|i: int|
            0 <= i < final(list)@.len() ==> (#[trigger] counts_view(final(list)@)[i]) == (
                entry.0@,
                entry.1,
            ) || counts_view(old(list)@).contains(counts_view(final(list)@)[i]),
{
    let ghost before = counts_view(list@);
    let ghost e = (entry.0@, entry.1);
    let mut i: usize = 0;
    while i < list.len() && (list[i].1 > entry.1 || (list[i].1 == entry.1 && precedes(
        list[i].0.as_str(),
        entry.0.as_str(),
    )))
        invariant
            e == (entry.0@, entry.1),
            counts_view(list@) == before,
            i <= list@.len(),
            forall|k: int| 0 <= k < i ==> ranks_before(#[trigger] before[k], e),
        decreases list@.len() - i,
    {
        assert(before[i as int] == (list@[i as int].0@, list@[i as int].1));
        i = i + 1;
    }
    list.insert(i, entry);
    proof {
        let after = counts_view(list@);
        assert(after =~= before.insert(i as int, e));
        if i < before.len() {
            let f = before[i as int];
            assert(!ranks_before(f, e));
            assert(f.0 != e.0) by {
                if f.0 == e.0 {
                    assert(lists(before, e.0));
                }
            }
            text::lex_less_total(f.0, e.0);
            assert(ranks_before(e, f));
        }
        assert forall|k: int| i <= k < before.len() implies ranks_before(
            e,
            #[trigger] before[k],
        ) by {
            if k > i {
                let f = before[i as int];
                assert(ranks_before(f, before[k]));
                if f.1 == e.1 && before[k].1 == f.1 {
                    text::lex_less_transitive(e.0, f.0, before[k].0);
                }
            }
        }
        assert forall|a: int, b: int| 0 <= a < b < after.len() implies ranks_before(
            #[trigger] after[a],
            #[trigger] after[b],
        ) by {
            if a < i && b > i {
                assert(after[b] == before[b - 1]);
                assert(after[a] == before[a]);
            } else if a < i && b < i {
                assert(after[a] == before[a] && after[b] == before[b]);
            } else if a < i {
                assert(after[a] == before[a] && after[b] == e);
            } else if a == i {
                assert(after[b] == before[b - 1]);
            } else {
                assert(after[a] == before[a - 1] && after[b] == before[b - 1]);
            }
        }
        assert forall|p: Seq<char>| #[trigger] lists(after, p) <==> lists(before, p) || p == e.0 by {
            if lists(after, p) {
                let w = choose|w: int| 0 <= w < after.len() && (#[trigger] after[w]).0 == p;
                if w < i {
                    assert(before[w].0 == p);
                } else if w > i {
                    assert(before[w - 1].0 == p);
                }
            }
            if lists(before, p) {
                let w = choose|w: int| 0 <= w < before.len() && (#[trigger] before[w]).0 == p;
                if w < i {
                    assert(after[w].0 == p);
                } else {
                    assert(after[w + 1].0 == p);
                }
            }
            if p == e.0 {
                assert(after[i as int].0 == p);
            }
        }
        assert forall|k: int| 0 <= k < after.len() implies (#[trigger] after[k]) == e
            || before.contains(after[k]) by {
            if k < i {
                assert(before[k] == after[k]);
            } else if k > i {
                assert(before[k - 1] == after[k]);
            }
        }
    }
}

/// The entries of `list`, ranked.
fn rank(list: &Vec<(String, u64)>) -> (r: Vec<(String, u64)>)
    requires
        distinct(counts_view(list@)),
    ensures
        is_ranked(counts_view(r@)),
        forall|p: Seq<char>| #[trigger]
            lists(counts_view(r@), p) <==> lists(counts_view(list@), p),
        forall|i: int|
            0 <= i < r@.len() ==> counts_view(list@).contains(#[trigger] counts_view(r@)[i]),
{
    let ghost all = counts_view(list@);
    let mut out: Vec<(String, u64)> = Vec::new();
    let mut i: usize = 0;
    assert(all.take(0) =~= Seq::<(Seq<char>, u64)>::empty());
    while i < list.len()
        invariant
            all == counts_view(list@),
            distinct(all),
            i <= list@.len(),
            is_ranked(counts_view(out@)),
            forall|p: Seq<char>| #[trigger]
                lists(counts_view(out@), p) <==> lists(all.take(i as int), p),
            forall|k: int|
                0 <= k < out@.len() ==> all.contains(#[trigger] counts_view(out@)[k]),
        decreases list@.len() - i,
    {
        let ghost before = counts_view(out@);
        let ghost e = all[i as int];
        assert(e == (list@[i as int].0@, list@[i as int].1));
        assert(!lists(all.take(i as int), e.0)) by {
            if lists(all.take(i as int), e.0) {
                let w = choose|w: int|
                    0 <= w < i && (#[trigger] all.take(i as int)[w]).0 == e.0;
                assert(all[w].0 == e.0);
            }
        }
        place(&mut out, (list[i].0.clone(), list[i].1));
        proof {
            assert forall|k: int| 0 <= k < out@.len() implies all.contains(
                #[trigger] counts_view(out@)[k],
            ) by {
                let x = counts_view(out@)[k];
                if x != e {
                    let w = choose|w: int| 0 <= w < before.len() && before[w] == x;
                    assert(all.contains(before[w]));
                } else {
                    assert(all[i as int] == x);
                }
            }
            assert forall|p: Seq<char>| #[trigger]
                lists(counts_view(out@), p) <==> lists(all.take(i + 1), p) by {
                let shorter = all.take(i as int);
                let longer = all.take(i + 1);
                if lists(longer, p) {
                    let w = choose|w: int| 0 <= w < longer.len() && (#[trigger] longer[w]).0 == p;
                    if w < i {
                        assert(shorter[w].0 == p);
                        assert(lists(shorter, p));
                    }
                }
                if lists(before, p) {
                    assert(lists(shorter, p));
                    let w = choose|w: int| 0 <= w < shorter.len() && (#[trigger] shorter[w]).0 == p;
                    assert(longer[w].0 == p);
                }
                if p == e.0 {
                    assert(longer[i as int].0 == p);
                }
            }
        }
        i = i + 1;
    }
    assert(all.take(all.len() as int) =~= all);
    out
}

/// The usage statistics of all stored rows, at `now`.
pub fn stats(rows: &Vec<Row>, now: i64) -> (r: Stats)
    requires
        total_words(rows@) <= u64::MAX,
    ensures
        are_stats(r, rows@, now as int),
{
    let mut total: u64 = 0;
    let mut words: u64 = 0;
    let mut last_24h: u64 = 0;
    let mut last_7d: u64 = 0;
    let mut counts: Vec<(String, u64)> = Vec::new();
    let mut i: usize = 0;
    assert(rows@.take(0) =~= Seq::<Row>::empty());
    while i < rows.len()
        invariant
            total_words(rows@) <= u64::MAX,
            i <= rows@.len(),
            total == i,
            words == total_words(rows@.take(i as int)),
            last_24h == younger_than(rows@.take(i as int), now as int, 86400),
            last_7d == younger_than(rows@.take(i as int), now as int, 604800),
            last_24h <= i,
            last_7d <= i,
            distinct(counts_view(counts@)),
            counts_rows(counts_view(counts@), rows@.take(i as int)),
        decreases rows@.len() - i,
    {
        let ghost seen = rows@.take(i + 1);
        proof {
            assert(seen.drop_last() =~= rows@.take(i as int));
            assert(seen.last() == rows@[i as int]);
            lemma_total_words_prefix(rows@, i + 1);
        }
        total = total + 1;
        words = words + count_words(rows[i].0.as_str());
        tally(&mut counts, rows[i].1.as_str(), Ghost(seen));
        // In a wider type the age cannot overflow.
        let age: i128 = now as i128 - rows[i].2 as i128;
        if age < 86_400 {
            last_24h = last_24h + 1;
        }
        if age < 604_800 {
            last_7d = last_7d + 1;
        }
        i = i + 1;
    }
    assert(rows@.take(rows@.len() as int) =~= rows@);
    let by_provider = rank(&counts);
    proof {
        let list = counts_view(by_provider@);
        let all = counts_view(counts@);
        assert forall|k: int| 0 <= k < list.len() implies (#[trigger] list[k]).1
            == provider_count(rows@, list[k].0) && list[k].1 > 0 by {
            assert(all.contains(list[k]));
            let w = choose|w: int| 0 <= w < all.len() && all[w] == list[k];
            assert(all[w].1 == provider_count(rows@, all[w].0));
        }
        assert forall|k: int| 0 <= k < rows@.len() implies lists(
            list,
            (#[trigger] rows@[k]).1@,
        ) by {
            assert(lists(all, rows@[k].1@));
        }
    }
    Stats { total, words, by_provider, last_24h, last_7d }
}

// ---- Laws ------------------------------------------------------------------

/// Whether two characters are the same but for the case of ASCII letters.
pub open spec fn same_letter(a: char, b: char) -> bool {
    text::lower_char(a) == text::lower_char(b)
}

/// Whether `t` matches the pattern `p` as SQL's `LIKE` with the escape character
/// `\` reads it: `%` stands for any text, `_` for any character, a character behind
/// the escape character for itself, and so does every other; the case of ASCII
/// letters does not matter.
pub open spec fn like(p: Seq<char>, t: Seq<char>) -> bool
    decreases p.len(), t.len(),
{
    if p.len() == 0 {
        t.len() == 0
    } else if p[0] == '%' {
        like(p.skip(1), t) || (t.len() > 0 && like(p, t.skip(1)))
    } else if p[0] == '_' {
        t.len() > 0 && like(p.skip(1), t.skip(1))
    } else if p[0] == '\\' {
        p.len() > 1 && t.len() > 0 && same_letter(p[1], t[0]) && like(p.skip(2), t.skip(1))
    } else {
        t.len() > 0 && same_letter(p[0], t[0]) && like(p.skip(1), t.skip(1))
    }
}

/// Whether `t` begins with `q`, but for the case of ASCII letters.
pub open spec fn begins_with(t: Seq<char>, q: Seq<char>) -> bool {
    q.len() <= t.len() && forall|k: int|
        0 <= k < q.len() ==> same_letter(#[trigger] q[k], t[k])
}

/// Whether `q` occurs in `t`, but for the case of ASCII letters.
pub open spec fn occurs_in(q: Seq<char>, t: Seq<char>) -> bool {
    exists|i: int| 0 <= i <= t.len() && #[trigger] begins_with(t.skip(i), q)
}

/// The pattern of a search matches exactly the texts that contain the query,
/// whatever characters the query has.
pub proof fn search_finds_what_contains_the_query(query: Seq<char>, t: Seq<char>)
    ensures
        like("%"@ + escaped(query) + "%"@, t) <==> occurs_in(query, t),
{
    reveal_strlit("%");
    let rest = escaped(query) + "%"@;
    assert("%"@ + escaped(query) + "%"@ =~= seq!['%'] + rest);
    lemma_like_anywhere(rest, t);
    assert forall|i: int| 0 <= i <= t.len() implies #[trigger] like(rest, t.skip(i))
        == begins_with(t.skip(i), query) by {
        lemma_like_prefix(query, t.skip(i));
    }
    if like(seq!['%'] + rest, t) {
        let i = choose|i: int| 0 <= i <= t.len() && #[trigger] like(rest, t.skip(i));
        assert(begins_with(t.skip(i), query));
    }
    if occurs_in(query, t) {
        let i = choose|i: int| 0 <= i <= t.len() && #[trigger] begins_with(t.skip(i), query);
        assert(like(rest, t.skip(i)));
    }
}

/// A character that has a meaning of its own is never bare in an escaped query: a
/// single such character matches itself and nothing else.
pub proof fn wildcards_stand_for_themselves(c: char, t: Seq<char>)
    requires
        is_special(c),
    ensures
        like(escaped(seq![c]), t) <==> t == seq![c],
{
    let q = seq![c];
    assert(q.drop_first() =~= Seq::<char>::empty());
    assert(escaped(q.drop_first()) =~= Seq::<char>::empty());
    let p = seq!['\\', c];
    assert(escaped(q) =~= p);
    assert(p.skip(2) =~= Seq::<char>::empty());
    reveal_with_fuel(like, 2);
    if t.len() > 0 {
        if like(p, t) {
            assert(t =~= q);
        }
        if t == q {
            assert(t.skip(1) =~= Seq::<char>::empty());
        }
    }
}

proof fn lemma_like_anywhere(rest: Seq<char>, t: Seq<char>)
    ensures
        like(seq!['%'] + rest, t) <==> exists|i: int|
            0 <= i <= t.len() && #[trigger] like(rest, t.skip(i)),
    decreases t.len(),
{
    let p = seq!['%'] + rest;
    assert(p[0] == '%');
    assert(p.skip(1) =~= rest);
    assert(t.skip(0) =~= t);
    if like(rest, t) {
        assert(like(rest, t.skip(0)));
    }
    if t.len() > 0 {
        lemma_like_anywhere(rest, t.skip(1));
        if like(p, t.skip(1)) {
            let i = choose|i: int|
                0 <= i <= t.skip(1).len() && #[trigger] like(rest, t.skip(1).skip(i));
            assert(t.skip(1).skip(i) =~= t.skip(i + 1));
            assert(like(rest, t.skip(i + 1)));
        }
        if exists|i: int| 0 <= i <= t.len() && #[trigger] like(rest, t.skip(i)) {
            let i = choose|i: int| 0 <= i <= t.len() && #[trigger] like(rest, t.skip(i));
            if i > 0 {
                assert(t.skip(1).skip(i - 1) =~= t.skip(i));
                assert(like(rest, t.skip(1).skip(i - 1)));
            }
        }
    }
}

proof fn lemma_like_all(t: Seq<char>)
    ensures
        like(seq!['%'], t),
    decreases t.len(),
{
    let p = seq!['%'];
    assert(p.skip(1) =~= Seq::<char>::empty());
    if t.len() > 0 {
        lemma_like_all(t.skip(1));
    } else {
        assert(like(p.skip(1), t));
    }
}

proof fn lemma_like_prefix(q: Seq<char>, t: Seq<char>)
    ensures
        like(escaped(q) + "%"@, t) <==> begins_with(t, q),
    decreases q.len(),
{
    reveal_strlit("%");
    let p = escaped(q) + "%"@;
    if q.len() == 0 {
        assert(p =~= seq!['%']);
        lemma_like_all(t);
    } else {
        let tail = escaped(q.drop_first()) + "%"@;
        if is_special(q[0]) {
            assert(p[0] == '\\' && p[1] == q[0]);
            assert(p.skip(2) =~= tail);
        } else {
            assert(p[0] == q[0]);
            assert(p.skip(1) =~= tail);
        }
        if t.len() > 0 {
            lemma_like_prefix(q.drop_first(), t.skip(1));
            if begins_with(t, q) {
                assert forall|k: int| 0 <= k < q.drop_first().len() implies same_letter(
                    #[trigger] q.drop_first()[k],
                    t.skip(1)[k],
                ) by {
                    assert(same_letter(q[k + 1], t[k + 1]));
                }
            }
            if same_letter(q[0], t[0]) && begins_with(t.skip(1), q.drop_first()) {
                assert forall|k: int| 0 <= k < q.len() implies same_letter(
                    #[trigger] q[k],
                    t[k],
                ) by {
                    if k > 0 {
                        assert(same_letter(q.drop_first()[k - 1], t.skip(1)[k - 1]));
                    }
                }
            }
        }
    }
}

/// A day is part of a week, and all of it is part of the whole: the windows nest.
pub proof fn windows_nest(rows: Seq<Row>, now: int, short: int, long: int)
    requires
        short <= long,
    ensures
        younger_than(rows, now, short) <= younger_than(rows, now, long) <= rows.len(),
    decreases rows.len(),
{
    if rows.len() > 0 {
        windows_nest(rows.drop_last(), now, short, long);
    }
}

/// The sum of the counts of a list.
pub open spec fn counts_sum(list: Seq<(Seq<char>, u64)>) -> nat
    decreases list.len(),
{
    if list.len() == 0 {
        0
    } else {
        counts_sum(list.drop_last()) + list.last().1 as nat
    }
}

/// Every transcript has one provider: the counts of a ranking add up to the number
/// of rows.
pub proof fn provider_counts_add_up(list: Seq<(Seq<char>, u64)>, rows: Seq<Row>)
    requires
        is_ranked(list),
        counts_rows(list, rows),
    ensures
        counts_sum(list) == rows.len(),
{
    assert forall|i: int, j: int| 0 <= i < j < list.len() implies (#[trigger] list[i]).0 != (
    #[trigger] list[j]).0 by {
        lemma_ranks_before_strict(list[i], list[j]);
    }
    lemma_sum_of_listed(list, rows);
    lemma_all_listed(list, rows);
}

/// The number of rows whose provider is listed.
spec fn listed_rows(list: Seq<(Seq<char>, u64)>, rows: Seq<Row>) -> nat
    decreases rows.len(),
{
    if rows.len() == 0 {
        0
    } else {
        listed_rows(list, rows.drop_last()) + if lists(list, rows.last().1@) {
            1nat
        } else {
            0nat
        }
    }
}

proof fn lemma_all_listed(list: Seq<(Seq<char>, u64)>, rows: Seq<Row>)
    requires
        forall|k: int| 0 <= k < rows.len() ==> lists(list, (#[trigger] rows[k]).1@),
    ensures
        listed_rows(list, rows) == rows.len(),
    decreases rows.len(),
{
    if rows.len() > 0 {
        assert forall|k: int| 0 <= k < rows.drop_last().len() implies lists(
            list,
            (#[trigger] rows.drop_last()[k]).1@,
        ) by {
            assert(rows.drop_last()[k] == rows[k]);
        }
        lemma_all_listed(list, rows.drop_last());
        assert(lists(list, rows[rows.len() - 1].1@));
    }
}

proof fn lemma_one_more_listed(list: Seq<(Seq<char>, u64)>, rows: Seq<Row>)
    requires
        list.len() > 0,
        !lists(list.drop_last(), list.last().0),
    ensures
        listed_rows(list, rows) == listed_rows(list.drop_last(), rows) + provider_count(
            rows,
            list.last().0,
        ),
    decreases rows.len(),
{
    if rows.len() > 0 {
        lemma_one_more_listed(list, rows.drop_last());
        let p = rows.last().1@;
        let front = list.drop_last();
        if lists(front, p) {
            let w = choose|w: int| 0 <= w < front.len() && (#[trigger] front[w]).0 == p;
            assert(list[w].0 == p);
        }
        if lists(list, p) && p != list.last().0 {
            let w = choose|w: int| 0 <= w < list.len() && (#[trigger] list[w]).0 == p;
            assert(front[w].0 == p);
        }
        if p == list.last().0 {
            assert(list[list.len() - 1].0 == p);
        }
    } else {
        assert(rows =~= Seq::<Row>::empty());
    }
}

proof fn lemma_sum_of_listed(list: Seq<(Seq<char>, u64)>, rows: Seq<Row>)
    requires
        distinct(list),
        forall|i: int|
            0 <= i < list.len() ==> (#[trigger] list[i]).1 == provider_count(rows, list[i].0),
    ensures
        counts_sum(list) == listed_rows(list, rows),
    decreases list.len(),
{
    if list.len() == 0 {
        lemma_none_listed(list, rows);
    } else {
        let front = list.drop_last();
        assert forall|i: int| 0 <= i < front.len() implies (#[trigger] front[i]).1
            == provider_count(rows, front[i].0) by {
            assert(front[i] == list[i]);
        }
        assert(distinct(front)) by {
            assert forall|i: int, j: int| 0 <= i < j < front.len() implies (
            #[trigger] front[i]).0 != (#[trigger] front[j]).0 by {
                assert(front[i] == list[i] && front[j] == list[j]);
            }
        }
        assert(!lists(front, list.last().0)) by {
            if lists(front, list.last().0) {
                let w = choose|w: int|
                    0 <= w < front.len() && (#[trigger] front[w]).0 == list.last().0;
                assert(list[w].0 != list[list.len() - 1].0);
            }
        }
        lemma_sum_of_listed(front, rows);
        lemma_one_more_listed(list, rows);
        assert(list[list.len() - 1].1 == provider_count(rows, list.last().0));
    }
}

proof fn lemma_none_listed(list: Seq<(Seq<char>, u64)>, rows: Seq<Row>)
    requires
        list.len() == 0,
    ensures
        listed_rows(list, rows) == 0,
    decreases rows.len(),
{
    if rows.len() > 0 {
        lemma_none_listed(list, rows.drop_last());
    }
}

/// A ranking is the only one of its rows: two lists that count the same rows and
/// are ranked are equal.
pub proof fn ranking_is_unique(
    a: Seq<(Seq<char>, u64)>,
    b: Seq<(Seq<char>, u64)>,
    rows: Seq<Row>,
)
    requires
        is_ranked(a),
        is_ranked(b),
        counts_rows(a, rows),
        counts_rows(b, rows),
    ensures
        a == b,
{
    lemma_ranked_subset(a, b, rows);
    lemma_ranked_subset(b, a, rows);
    lemma_ranked_same(a, b);
}

proof fn lemma_ranked_subset(
    a: Seq<(Seq<char>, u64)>,
    b: Seq<(Seq<char>, u64)>,
    rows: Seq<Row>,
)
    requires
        counts_rows(a, rows),
        counts_rows(b, rows),
    ensures
        forall|i: int| 0 <= i < a.len() ==> b.contains(#[trigger] a[i]),
{
    assert forall|i: int| 0 <= i < a.len() implies b.contains(#[trigger] a[i]) by {
        assert(provider_count(rows, a[i].0) > 0);
        lemma_counted_means_listed(b, rows, a[i].0);
        let w = choose|w: int| 0 <= w < b.len() && (#[trigger] b[w]).0 == a[i].0;
        assert(b[w].1 == provider_count(rows, b[w].0));
        assert(b[w] == a[i]);
    }
}

proof fn lemma_ranks_before_strict(x: (Seq<char>, u64), y: (Seq<char>, u64))
    requires
        ranks_before(x, y),
    ensures
        !ranks_before(y, x),
        x != y,
{
    text::lex_less_total(x.0, y.0);
}

proof fn lemma_ranked_same(a: Seq<(Seq<char>, u64)>, b: Seq<(Seq<char>, u64)>)
    requires
        is_ranked(a),
        is_ranked(b),
        forall|i: int| 0 <= i < a.len() ==> b.contains(#[trigger] a[i]),
        forall|i: int| 0 <= i < b.len() ==> a.contains(#[trigger] b[i]),
    ensures
        a == b,
    decreases a.len(),
{
    if a.len() == 0 {
        if b.len() > 0 {
            assert(a.contains(b[0]));
        }
        assert(a =~= b);
    } else {
        assert(b.contains(a[0]));
        let w = choose|w: int| 0 <= w < b.len() && b[w] == a[0];
        assert(a.contains(b[0]));
        let v = choose|v: int| 0 <= v < a.len() && a[v] == b[0];
        if w > 0 && v > 0 {
            lemma_ranks_before_strict(a[0], a[v]);
            lemma_ranks_before_strict(b[0], b[w]);
        }
        assert(a[0] == b[0]);
        let ta = a.drop_first();
        let tb = b.drop_first();
        assert forall|i: int| 0 <= i < ta.len() implies tb.contains(#[trigger] ta[i]) by {
            assert(ta[i] == a[i + 1]);
            assert(b.contains(a[i + 1]));
            let k = choose|k: int| 0 <= k < b.len() && b[k] == a[i + 1];
            lemma_ranks_before_strict(a[0], a[i + 1]);
            assert(tb[k - 1] == ta[i]);
        }
        assert forall|i: int| 0 <= i < tb.len() implies ta.contains(#[trigger] tb[i]) by {
            assert(tb[i] == b[i + 1]);
            assert(a.contains(b[i + 1]));
            let k = choose|k: int| 0 <= k < a.len() && a[k] == b[i + 1];
            lemma_ranks_before_strict(b[0], b[i + 1]);
            assert(ta[k - 1] == tb[i]);
        }
        assert forall|i: int, j: int| 0 <= i < j < ta.len() implies ranks_before(
            #[trigger] ta[i],
            #[trigger] ta[j],
        ) by {
            assert(ta[i] == a[i + 1] && ta[j] == a[j + 1]);
        }
        assert forall|i: int, j: int| 0 <= i < j < tb.len() implies ranks_before(
            #[trigger] tb[i],
            #[trigger] tb[j],
        ) by {
            assert(tb[i] == b[i + 1] && tb[j] == b[j + 1]);
        }
        lemma_ranked_same(ta, tb);
        assert(a =~= seq![a[0]] + ta);
        assert(b =~= seq![b[0]] + tb);
    }
}

/// A query that is part of a text finds it, wherever it is, and whatever the case of
/// its ASCII letters.
pub proof fn any_part_of_a_text_finds_it(
    before: Seq<char>,
    part: Seq<char>,
    after: Seq<char>,
    query: Seq<char>,
)
    requires
        text::lower(query) == text::lower(part),
    ensures
        like("%"@ + escaped(query) + "%"@, before + part + after),
{
    let t = before + part + after;
    search_finds_what_contains_the_query(query, t);
    let n = before.len() as int;
    assert(text::lower(query).len() == query.len() && text::lower(part).len() == part.len());
    assert forall|k: int| 0 <= k < query.len() implies same_letter(#[trigger] query[k], t.skip(
        n,
    )[k]) by {
        assert(t.skip(n)[k] == part[k]);
        text::laws::case_changes_each_character(query);
        text::laws::case_changes_each_character(part);
        assert(text::lower(query)[k] == text::lower_char(query[k]));
        assert(text::lower(part)[k] == text::lower_char(part[k]));
    }
    assert(begins_with(t.skip(n), query));
}

/// A text that a query finds has the query in it as a part, but for the case of ASCII
/// letters.
pub proof fn what_is_found_contains_the_query(query: Seq<char>, t: Seq<char>)
    requires
        like("%"@ + escaped(query) + "%"@, t),
    ensures
        exists|i: int|
            0 <= i <= t.len() - query.len() && text::lower(
                #[trigger] t.subrange(i, i + query.len()),
            ) == text::lower(query),
{
    search_finds_what_contains_the_query(query, t);
    let i = choose|i: int| 0 <= i <= t.len() && #[trigger] begins_with(t.skip(i), query);
    let part = t.subrange(i, i + query.len());
    assert(t.skip(i).len() == t.len() - i);
    assert forall|k: int| 0 <= k < query.len() implies text::lower(part)[k] == text::lower(
        query,
    )[k] by {
        assert(same_letter(query[k], t.skip(i)[k]));
        assert(part[k] == t.skip(i)[k]);
    }
    assert(text::lower(part) =~= text::lower(query));
}

/// One more transcript counts once, with its words, on its day and in its week and for
/// its provider, and changes nothing else.
pub proof fn a_transcript_counts_once(s: Stats, next: Stats, rows: Seq<Row>, row: Row, now: int)
    requires
        are_stats(s, rows, now),
        are_stats(next, rows.push(row), now),
    ensures
        next.total == s.total + 1,
        next.words == s.words + text::word_count(row.0@),
        next.last_24h == s.last_24h + (if now - row.2 < 86_400 {
            1int
        } else {
            0
        }),
        next.last_7d == s.last_7d + (if now - row.2 < 7 * 86_400 {
            1int
        } else {
            0
        }),
        provider_count(rows.push(row), row.1@) == provider_count(rows, row.1@) + 1,
        forall|p: Seq<char>|
            p != row.1@ ==> #[trigger] provider_count(rows.push(row), p) == provider_count(rows, p),
{
    assert(rows.push(row).drop_last() =~= rows);
}

/// Without transcripts there is nothing to count.
pub proof fn nothing_counts_as_nothing(s: Stats, now: int)
    requires
        are_stats(s, Seq::empty(), now),
    ensures
        s.total == 0 && s.words == 0 && s.last_24h == 0 && s.last_7d == 0,
        s.by_provider@.len() == 0,
{
    let list = counts_view(s.by_provider@);
    if list.len() > 0 {
        assert(list[0].1 == provider_count(Seq::<Row>::empty(), list[0].0));
    }
}

/// The provider that was used most comes first; of two that were used as often the one
/// that comes first in the alphabet does. Each is listed once, with its own count.
pub proof fn providers_are_ranked_by_use(s: Stats, rows: Seq<Row>, now: int, i: int, j: int)
    requires
        are_stats(s, rows, now),
        0 <= i < j < s.by_provider@.len(),
    ensures
        ({
            let a = s.by_provider@[i];
            let b = s.by_provider@[j];
            &&& a.1 >= b.1
            &&& a.1 == b.1 ==> text::lex_less(a.0@, b.0@)
            &&& a.0@ != b.0@
            &&& a.1 == provider_count(rows, a.0@)
            &&& b.1 == provider_count(rows, b.0@)
        }),
{
    let list = counts_view(s.by_provider@);
    assert(ranks_before(list[i], list[j]));
    assert(list[i].1 == provider_count(rows, list[i].0));
    assert(list[j].1 == provider_count(rows, list[j].0));
    text::laws::the_first_difference_decides(list[i].0, Seq::empty(), Seq::empty());
    if list[i].0 == list[j].0 {
        text::lex_less_total(list[i].0, list[j].0);
    }
}

/// Each error is told by what failed and why.
pub proof fn errors_are_told_by_what_failed(m: String)
    ensures
        store_error_text(StoreError::Path(m)) == "data path error: "@ + m@,
        store_error_text(StoreError::Db(m)) == "history database error: "@ + m@,
{
}

/// The parameters of a statement are bound in order, each with its own value.
pub proof fn parameters_are_bound_in_order(s: Statement, i: int)
    requires
        0 <= i < s.params@.len(),
    ensures
        bound(s).len() == s.params@.len(),
        s.params@[i] matches Param::Text(t) ==> bound(s)[i] == ParamModel::Text(t@),
        s.params@[i] matches Param::Int(n) ==> bound(s)[i] == ParamModel::Int(n as int),
{
}

} // verus!
