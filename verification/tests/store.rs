use holler::store::{
    default_db_path, delete, recent, record, search, stats, Entry, Param, Row, Statement, Stats,
    StoreError, CREATE_SQL, STATS_SQL,
};

fn open_in_memory() -> rusqlite::Connection {
    let conn = rusqlite::Connection::open_in_memory().unwrap();
    conn.execute(CREATE_SQL, []).unwrap();
    conn
}

fn values(s: &Statement) -> Vec<rusqlite::types::Value> {
    s.params
        .iter()
        .map(|p| match p {
            Param::Text(t) => rusqlite::types::Value::Text(t.clone()),
            Param::Int(n) => rusqlite::types::Value::Integer(*n),
        })
        .collect()
}

fn execute(conn: &rusqlite::Connection, s: Statement) -> usize {
    conn.execute(s.sql, rusqlite::params_from_iter(values(&s))).unwrap()
}

fn insert(conn: &rusqlite::Connection, text: &str, provider: &str, at: i64) -> i64 {
    execute(conn, record(text, provider, at));
    conn.last_insert_rowid()
}

fn entries(conn: &rusqlite::Connection, s: Statement) -> Vec<Entry> {
    let mut stmt = conn.prepare(s.sql).unwrap();
    let rows = stmt
        .query_map(rusqlite::params_from_iter(values(&s)), |row| {
            Ok(Entry {
                id: row.get(0)?,
                text: row.get(1)?,
                provider: row.get(2)?,
                created_at: row.get(3)?,
            })
        })
        .unwrap();
    rows.map(|e| e.unwrap()).collect()
}

fn rows(conn: &rusqlite::Connection) -> Vec<Row> {
    let mut stmt = conn.prepare(STATS_SQL).unwrap();
    let found = stmt.query_map([], |row| Ok((row.get(0)?, row.get(1)?, row.get(2)?))).unwrap();
    found.map(|r| r.unwrap()).collect()
}

fn avg(s: &Stats) -> f64 {
    let (words, total) = s.avg_words();
    words as f64 / total as f64
}

#[test]
fn record_and_search_roundtrip() {
    let h = open_in_memory();
    insert(&h, "Please review the PR", "deepgram", 100);
    insert(&h, "Hello there", "openai", 100);

    let hits = entries(&h, search("review"));
    assert_eq!(hits.len(), 1);
    assert_eq!(hits[0].text, "Please review the PR");
    assert_eq!(hits[0].provider, "deepgram");

    // Case-insensitive substring.
    assert_eq!(entries(&h, search("HELLO")).len(), 1);
    assert_eq!(entries(&h, search("nomatch")).len(), 0);
}

#[test]
fn recent_returns_newest_first_within_limit() {
    let h = open_in_memory();
    for i in 0..5 {
        insert(&h, &format!("entry {i}"), "deepgram", 100);
    }
    let found = entries(&h, recent(3));
    assert_eq!(found.len(), 3);
    // Newest (highest id) first.
    assert_eq!(found[0].text, "entry 4");
}

#[test]
fn delete_removes_only_the_target_and_is_idempotent() {
    let h = open_in_memory();
    let keep = insert(&h, "keep me", "deepgram", 100);
    let drop = insert(&h, "delete me", "openai", 100);

    assert_eq!(execute(&h, delete(drop)), 1);
    let left = entries(&h, recent(10));
    assert_eq!(left.len(), 1);
    assert_eq!(left[0].id, keep);
    assert_eq!(left[0].text, "keep me");

    // Deleting an already-gone row is a no-op, not an error.
    assert_eq!(execute(&h, delete(drop)), 0);
    assert_eq!(entries(&h, recent(10)).len(), 1);
}

#[test]
fn stats_over_empty_db_are_all_zero() {
    let h = open_in_memory();
    let s = stats(&rows(&h), 1_000_000);
    assert_eq!(s, Stats::default());
    assert_eq!(avg(&s), 0.0);
}

#[test]
fn stats_aggregate_words_providers_and_recency_windows() {
    let h = open_in_memory();
    let now = 10 * 86_400; // 10 days past the epoch
    insert(&h, "one two three", "deepgram", now - 100); // <24h, 3 words
    insert(&h, "hello world", "openai", now - 3 * 86_400); // 3 days, 2 words
    insert(&h, "alpha beta gamma delta", "deepgram", now - 8 * 86_400); // 8 days, 4 words

    let s = stats(&rows(&h), now);
    assert_eq!(s.total, 3);
    assert_eq!(s.words, 9);
    assert_eq!(s.last_24h, 1);
    assert_eq!(s.last_7d, 2);
    assert_eq!(avg(&s), 3.0);
    // Busiest provider first: deepgram (2) before openai (1).
    assert_eq!(
        s.by_provider,
        vec![("deepgram".to_string(), 2), ("openai".to_string(), 1)]
    );
}

#[test]
fn empty_search_returns_all_newest_first() {
    let h = open_in_memory();
    insert(&h, "first", "deepgram", 100);
    insert(&h, "second", "openai", 100);
    let all = entries(&h, search(""));
    assert_eq!(all.len(), 2);
    assert_eq!(all[0].text, "second"); // newest first
}

fn row(text: &str, provider: &str, at: i64) -> Row {
    (text.to_string(), provider.to_string(), at)
}

#[test]
fn ties_are_ranked_by_name() {
    let rows = vec![row("a", "openai", 0), row("b", "deepgram", 0), row("c", "azure", 0)];
    let names: Vec<String> = stats(&rows, 0).by_provider.into_iter().map(|p| p.0).collect();
    assert_eq!(names, vec!["azure", "deepgram", "openai"]);
}

#[test]
fn windows_are_open_at_their_far_end() {
    let now = 20 * 86_400;
    let at = |age: i64| stats(&vec![row("x", "p", now - age)], now);
    assert_eq!((at(86_399).last_24h, at(86_400).last_24h), (1, 0));
    assert_eq!((at(7 * 86_400 - 1).last_7d, at(7 * 86_400).last_7d), (1, 0));
    // A transcript from the future is recent, however far it lies.
    let far = stats(&vec![row("x", "p", i64::MAX)], i64::MIN);
    assert_eq!((far.last_24h, far.last_7d), (1, 1));
    let old = stats(&vec![row("x", "p", i64::MIN)], i64::MAX);
    assert_eq!((old.last_24h, old.last_7d), (0, 0));
}

#[test]
fn counts_add_up() {
    let rows: Vec<Row> = (0..20)
        .map(|i| row("w w", ["a", "b", "c"][i % 3], i as i64))
        .collect();
    let s = stats(&rows, 0);
    assert_eq!(s.by_provider.iter().map(|p| p.1).sum::<u64>(), s.total);
    assert_eq!(s.words, 40);
}

#[test]
fn a_search_escapes_what_a_pattern_would_read() {
    assert_eq!(search("50%").params, vec![Param::Text("%50\\%%".to_string())]);
    assert_eq!(search("a_b\\c").params, vec![Param::Text("%a\\_b\\\\c%".to_string())]);
    assert_eq!(search("").params, vec![Param::Text("%%".to_string())]);
}

#[test]
fn a_search_is_for_a_substring() {
    let h = open_in_memory();
    for text in ["abc", "50% off", "500 of them", "snake_case", "C:\\temp"] {
        insert(&h, text, "openai", 100);
    }
    let found = |query: &str| -> Vec<String> {
        entries(&h, search(query)).into_iter().map(|e| e.text).collect()
    };
    assert_eq!(found("_"), vec!["snake_case"]);
    assert_eq!(found("%"), vec!["50% off"]);
    assert_eq!(found("50%"), vec!["50% off"]);
    assert_eq!(found("\\"), vec!["C:\\temp"]);
    assert_eq!(found("C:\\T"), vec!["C:\\temp"]);
    assert_eq!(found("E_C"), vec!["snake_case"]);
    assert_eq!(found("a%c"), Vec::<String>::new());
    assert_eq!(found("").len(), 5);
}

#[test]
fn an_underscore_is_no_wildcard() {
    let h = open_in_memory();
    insert(&h, "abc", "openai", 100);
    assert_eq!(entries(&h, search("_")), vec![]);
}

#[test]
fn database_file_and_errors() {
    assert_eq!(default_db_path(Some("/data")).unwrap().file, "history.db");
    assert_eq!(
        default_db_path::<&str>(None).unwrap_err().message(),
        "data path error: could not determine a data directory"
    );
    assert_eq!(StoreError::Db("locked".to_string()).message(), "history database error: locked");
}

#[test]
fn recording_adds_one_row_and_deleting_takes_it_away() {
    let h = open_in_memory();
    insert(&h, "first", "deepgram", 5);
    insert(&h, "second", "openai", 7);
    let before = entries(&h, search(""));
    let id = insert(&h, "it's % new", "openai", 6);
    assert!(before.iter().all(|e| e.id != id));
    let row = Entry {
        id,
        text: "it's % new".to_string(),
        provider: "openai".to_string(),
        created_at: 6,
    };
    let after = entries(&h, search(""));
    // Newest first, whenever it was recorded.
    assert_eq!(after, vec![before[0].clone(), row.clone(), before[1].clone()]);
    assert_eq!(entries(&h, search("% N")), vec![row]);
    execute(&h, delete(id));
    assert_eq!(entries(&h, search("")), before);
    execute(&h, delete(id));
    assert_eq!(entries(&h, search("")), before);
}

#[test]
fn recent_is_the_start_of_all_there_is() {
    let h = open_in_memory();
    for (text, at) in [("a", 3), ("b", 9), ("c", 3), ("d", 1)] {
        insert(&h, text, "openai", at);
    }
    let all = entries(&h, search(""));
    let texts: Vec<&str> = all.iter().map(|e| e.text.as_str()).collect();
    assert_eq!(texts, vec!["b", "c", "a", "d"]);
    for limit in 0..7 {
        assert_eq!(entries(&h, recent(limit)), all[..limit.min(all.len())].to_vec());
    }
}
