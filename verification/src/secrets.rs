//! API keys: the table kept in `secrets.toml`, and where a provider's key comes
//! from.
//!
//! A key is looked up in the environment first (`HOLLER_<ACCOUNT>_KEY`) and in
//! the file second. The file is written whole each time, so that a change to one
//! account preserves the others.

use std::collections::BTreeMap;

use vstd::prelude::*;

use crate::config::{file_in, prefixed, ConfigError, FileIn};
use crate::text::{self, same, to_ascii_uppercase};

verus! {

/// Keys by account. No account occurs twice.
#[derive(Debug, PartialEq, Eq)]
pub struct SecretTable {
    entries: Vec<(String, String)>,
}

/// The key that `entries` holds for each account.
pub open spec fn table_of(entries: Seq<(String, String)>) -> Map<Seq<char>, Seq<char>>
    decreases entries.len(),
{
    if entries.len() == 0 {
        Map::empty()
    } else {
        table_of(entries.drop_last()).insert(entries.last().0@, entries.last().1@)
    }
}

/// Whether no account occurs twice.
pub open spec fn accounts_distinct(entries: Seq<(String, String)>) -> bool {
    forall|i: int, j: int|
        0 <= i < j < entries.len() ==> (#[trigger] entries[i]).0@ != (#[trigger] entries[j]).0@
}

proof fn lemma_table(entries: Seq<(String, String)>)
    requires
        accounts_distinct(entries),
    ensures
        forall|i: int|
            0 <= i < entries.len() ==> table_of(entries).dom().contains(
                (#[trigger] entries[i]).0@,
            ) && table_of(entries)[entries[i].0@] == entries[i].1@,
        forall|a: Seq<char>| #[trigger]
            table_of(entries).dom().contains(a) ==> exists|i: int|
                0 <= i < entries.len() && (#[trigger] entries[i]).0@ == a,
    decreases entries.len(),
{
    if entries.len() > 0 {
        let front = entries.drop_last();
        lemma_table(front);
        assert forall|i: int| 0 <= i < entries.len() implies table_of(entries).dom().contains(
            (#[trigger] entries[i]).0@,
        ) && table_of(entries)[entries[i].0@] == entries[i].1@ by {
            if i < front.len() {
                assert(front[i] == entries[i]);
            }
        }
        assert forall|a: Seq<char>| #[trigger] table_of(entries).dom().contains(a) implies exists|
            i: int,
        |
            0 <= i < entries.len() && (#[trigger] entries[i]).0@ == a by {
            if a == entries.last().0@ {
                assert(entries[entries.len() - 1].0@ == a);
            } else {
                assert(table_of(front).dom().contains(a));
                let i = choose|i: int| 0 <= i < front.len() && (#[trigger] front[i]).0@ == a;
                assert(entries[i].0@ == a);
            }
        }
    }
}

impl View for SecretTable {
    type V = Map<Seq<char>, Seq<char>>;

    closed spec fn view(&self) -> Map<Seq<char>, Seq<char>> {
        table_of(self.entries@)
    }
}

impl SecretTable {
    #[verifier::type_invariant]
    spec fn wf(self) -> bool {
        accounts_distinct(self.entries@)
    }

    /// A table without keys.
    pub fn new() -> (r: SecretTable)
        ensures
            r@ == Map::<Seq<char>, Seq<char>>::empty(),
    {
        SecretTable { entries: Vec::new() }
    }

    fn position(entries: &Vec<(String, String)>, account: &str) -> (r: Option<usize>)
        requires
            accounts_distinct(entries@),
        ensures
            match r {
                Some(i) => i < entries@.len() && entries@[i as int].0@ == account@ && table_of(
                    entries@,
                ).dom().contains(account@) && table_of(entries@)[account@]
                    == entries@[i as int].1@,
                None => !table_of(entries@).dom().contains(account@) && forall|k: int|
                    0 <= k < entries@.len() ==> (#[trigger] entries@[k]).0@ != account@,
            },
    {
        proof {
            lemma_table(entries@);
        }
        let mut i: usize = 0;
        while i < entries.len()
            invariant
                i <= entries@.len(),
                forall|k: int| 0 <= k < i ==> (#[trigger] entries@[k]).0@ != account@,
                forall|k: int|
                    0 <= k < entries@.len() ==> table_of(entries@).dom().contains(
                        (#[trigger] entries@[k]).0@,
                    ) && table_of(entries@)[entries@[k].0@] == entries@[k].1@,
            decreases entries@.len() - i,
        {
            if same(entries[i].0.as_str(), account) {
                return Some(i);
            }
            i = i + 1;
        }
        None
    }

    /// The key stored for `account`.
    pub fn get(&self, account: &str) -> (r: Option<String>)
        ensures
            match r {
                Some(k) => self@.dom().contains(account@) && k@ == self@[account@],
                None => !self@.dom().contains(account@),
            },
    {
        proof {
            use_type_invariant(self);
        }
        match SecretTable::position(&self.entries, account) {
            Some(i) => Some(self.entries[i].1.clone()),
            None => None,
        }
    }

    /// This table with `secret` stored for `account`.
    pub fn insert(self, account: &str, secret: &str) -> (r: SecretTable)
        ensures
            r@ == self@.insert(account@, secret@),
    {
        let without = self.remove(account);
        proof {
            use_type_invariant(&without);
            lemma_table(without.entries@);
        }
        let ghost before = without.entries@;
        let mut entries = without.entries;
        entries.push((account.to_owned(), secret.to_owned()));
        assert(entries@.drop_last() =~= before);
        assert forall|i: int, j: int| 0 <= i < j < entries@.len() implies (
        #[trigger] entries@[i]).0@ != (#[trigger] entries@[j]).0@ by {
            assert(entries@[i] == before[i]);
            if j < before.len() {
                assert(entries@[j] == before[j]);
            } else {
                assert(table_of(before).dom().contains(before[i].0@));
            }
        }
        assert(table_of(before).insert(account@, secret@) =~= self@.insert(account@, secret@));
        SecretTable { entries }
    }

    /// This table without a key for `account`.
    pub fn remove(self, account: &str) -> (r: SecretTable)
        ensures
            r@ == self@.remove(account@),
    {
        proof {
            use_type_invariant(&self);
            lemma_table(self.entries@);
        }
        let ghost all = self.entries@;
        let entries = self.entries;
        let mut kept: Vec<(String, String)> = Vec::new();
        let mut i: usize = 0;
        assert(all.take(0) =~= Seq::<(String, String)>::empty());
        assert(table_of(all.take(0)).remove(account@) =~= Map::<Seq<char>, Seq<char>>::empty());
        while i < entries.len()
            invariant
                entries@ == all,
                accounts_distinct(all),
                i <= all.len(),
                accounts_distinct(kept@),
                table_of(kept@) == table_of(all.take(i as int)).remove(account@),
            decreases all.len() - i,
        {
            let ghost next = all.take(i + 1);
            assert(next.drop_last() =~= all.take(i as int));
            assert(accounts_distinct(all.take(i as int)));
            proof {
                lemma_table(all.take(i as int));
                lemma_table(kept@);
            }
            if same(entries[i].0.as_str(), account) {
                assert(table_of(next).remove(account@) =~= table_of(all.take(i as int)).remove(
                    account@,
                ));
            } else {
                let ghost before = kept@;
                kept.push((entries[i].0.clone(), entries[i].1.clone()));
                assert(kept@.drop_last() =~= before);
                assert forall|a: int, b: int| 0 <= a < b < kept@.len() implies (
                #[trigger] kept@[a]).0@ != (#[trigger] kept@[b]).0@ by {
                    assert(kept@[a] == before[a]);
                    if b < before.len() {
                        assert(kept@[b] == before[b]);
                    } else {
                        assert(table_of(before).dom().contains(before[a].0@));
                        assert(table_of(all.take(i as int)).dom().contains(before[a].0@));
                        let k = choose|k: int|
                            0 <= k < all.take(i as int).len() && (#[trigger] all.take(
                                i as int,
                            )[k]).0@ == before[a].0@;
                        assert(all.take(i as int)[k] == all[k]);
                        assert(all[k].0@ != all[i as int].0@);
                    }
                }
                assert(table_of(kept@) =~= table_of(next).remove(account@));
            }
            i = i + 1;
        }
        assert(all.take(all.len() as int) =~= all);
        SecretTable { entries: kept }
    }
}

// ---- The file --------------------------------------------------------------

/// What `toml::from_str` makes of a text read as a table of strings: the table,
/// or the text of the error.
pub uninterp spec fn toml_read(text: Seq<char>) -> Result<Map<Seq<char>, Seq<char>>, Seq<char>>;

/// The text that `toml::to_string_pretty` makes of a table of strings.
pub uninterp spec fn toml_written(table: Map<Seq<char>, Seq<char>>) -> Seq<char>;

/// Whether `toml::from_str` reads `text` as `table`.
pub open spec fn reads_as(text: Seq<char>, table: Map<Seq<char>, Seq<char>>) -> bool {
    toml_read(text) == Ok::<Map<Seq<char>, Seq<char>>, Seq<char>>(table)
}

/// What a read of a table came to, the texts taken as what they hold.
pub open spec fn read_outcome(r: Result<Vec<(String, String)>, String>) -> Result<
    Map<Seq<char>, Seq<char>>,
    Seq<char>,
> {
    match r {
        Ok(v) => Ok(table_of(v@)),
        Err(m) => Err(m@),
    }
}

/// `toml::from_str` into a table of strings, handed out as pairs, no account
/// twice; the error is taken as its text.
#[verifier::external_body]
fn toml_from_str(text: &str) -> (r: Result<Vec<(String, String)>, String>)
    ensures
        read_outcome(r) == toml_read(text@),
        r matches Ok(v) ==> accounts_distinct(v@),
{
    let table: BTreeMap<String, String> = toml::from_str(text).map_err(
        |e: toml::de::Error| e.to_string(),
    )?;
    Ok(table.into_iter().collect())
}

/// `toml::to_string_pretty` on a table of strings. A string is written between
/// quotes, with escapes where the quotes or the characters ask for them, so every
/// such table is written without error, and `toml::from_str` gives it back, also
/// behind the comment lines of [`FILE_HEADER`].
#[verifier::external_body]
fn toml_to_string(table: &Vec<(String, String)>) -> (r: Result<String, String>)
    requires
        accounts_distinct(table@),
    ensures
        r is Ok,
        r matches Ok(t) ==> t@ == toml_written(table_of(table@)),
        r matches Ok(t) ==> reads_as(FILE_HEADER@ + t@, table_of(table@)),
{
    let sorted: BTreeMap<&String, &String> = table.iter().map(|e| (&e.0, &e.1)).collect();
    toml::to_string_pretty(&sorted).map_err(|e| e.to_string())
}

/// The comment at the top of `secrets.toml`.
pub const FILE_HEADER: &'static str = "# Holler API keys \u{2014} keep this file private (it is chmod 0600 on\n# macOS/Linux) and NEVER commit it. Delete a line to remove a key.\n\n";

/// `secrets.toml` in the application's configuration directory, where the
/// platform has one.
pub fn secrets_path<D>(config_dir: Option<D>) -> (r: Result<FileIn<D>, ConfigError>)
    ensures
        crate::config::located(r, config_dir, "secrets.toml"@),
{
    file_in(config_dir, "secrets.toml")
}

/// The table in a file that was found with this text, or could not be read.
/// Without a file the table is empty.
pub open spec fn stored_table(found: Option<Result<Seq<char>, Seq<char>>>) -> Result<
    Map<Seq<char>, Seq<char>>,
    (bool, Seq<char>),
> {
    match found {
        None => Ok(Map::empty()),
        Some(Err(m)) => Err((false, m)),
        Some(Ok(t)) => match toml_read(t) {
            Ok(table) => Ok(table),
            Err(m) => Err((true, m)),
        },
    }
}

/// What was found where the file should be, the texts taken as what they hold.
pub open spec fn found_view(found: Option<Result<String, String>>) -> Option<
    Result<Seq<char>, Seq<char>>,
> {
    match found {
        None => None,
        Some(Ok(t)) => Some(Ok(t@)),
        Some(Err(m)) => Some(Err(m@)),
    }
}

/// The table in `secrets.toml`. `found` is the text of the file, or why it could
/// not be read, or `None` without a file.
pub fn read_all(found: Option<Result<String, String>>) -> (r: Result<SecretTable, ConfigError>)
    ensures
        match stored_table(found_view(found)) {
            Ok(table) => r matches Ok(t) && t@ == table,
            Err((true, m)) => r matches Err(ConfigError::Parse(e)) && e@ == m,
            Err((false, m)) => r matches Err(ConfigError::Io(e)) && e@ == m,
        },
{
    match found {
        None => Ok(SecretTable::new()),
        Some(Err(m)) => Err(ConfigError::Io(m)),
        Some(Ok(t)) => match toml_from_str(t.as_str()) {
            Ok(entries) => Ok(SecretTable { entries }),
            Err(m) => Err(ConfigError::Parse(m)),
        },
    }
}

/// The text of `secrets.toml` for a table.
pub open spec fn file_text(table: Map<Seq<char>, Seq<char>>) -> Seq<char> {
    FILE_HEADER@ + toml_written(table)
}

/// Whether `text` is what is written to `secrets.toml` for `table`. It gives the
/// table back when it is read.
pub open spec fn is_file_for(text: Seq<char>, table: Map<Seq<char>, Seq<char>>) -> bool {
    &&& text == file_text(table)
    &&& stored_table(Some(Ok(text))) == Ok::<Map<Seq<char>, Seq<char>>, (bool, Seq<char>)>(table)
}

fn render(table: &SecretTable) -> (r: Result<String, ConfigError>)
    ensures
        r matches Ok(s) && is_file_for(s@, table@),
{
    proof {
        use_type_invariant(table);
    }
    match toml_to_string(&table.entries) {
        Ok(t) => Ok(prefixed(FILE_HEADER, t.as_str())),
        Err(m) => Err(ConfigError::Serialize(m)),
    }
}

// ---- Looking up ------------------------------------------------------------

/// The environment variable that can hold the key for `account`.
pub open spec fn env_name(account: Seq<char>) -> Seq<char> {
    "HOLLER_"@ + text::upper(account) + "_KEY"@
}

/// The environment variable that can hold the key for `account`, such as
/// `HOLLER_DEEPGRAM_KEY` for "deepgram".
pub fn env_var_name(account: &str) -> (r: String)
    ensures
        r@ == env_name(account@),
{
    let mut r = prefixed("HOLLER_", to_ascii_uppercase(account).as_str());
    r.append("_KEY");
    r
}

/// Where a provider's key comes from.
#[derive(Debug, Clone, Copy, PartialEq, Eq, Structural)]
pub enum SecretStatus {
    /// No key anywhere: the provider is not set up.
    Missing,
    /// A key in `secrets.toml`, which can be cleared.
    FromFile,
    /// A key in the environment, which shadows the file.
    FromEnv,
}

/// A text that is there and not empty.
pub open spec fn nonempty(s: Option<Seq<char>>) -> bool {
    s matches Some(t) && t.len() > 0
}

/// The key that a table holds for an account, if any. A table that could not be
/// read holds none.
pub open spec fn table_key(
    stored: Option<Map<Seq<char>, Seq<char>>>,
    account: Seq<char>,
) -> Option<Seq<char>> {
    match stored {
        Some(t) => if t.dom().contains(account) {
            Some(t[account])
        } else {
            None
        },
        None => None,
    }
}

/// The key for an account: that of the environment, else that of the table; an
/// empty one counts as none.
pub open spec fn resolved_key(env: Option<Seq<char>>, filed: Option<Seq<char>>) -> Option<
    Seq<char>,
> {
    if nonempty(env) {
        env
    } else if nonempty(filed) {
        filed
    } else {
        None
    }
}

/// Where the key for an account comes from.
pub open spec fn resolved_status(
    env: Option<Seq<char>>,
    filed: Option<Seq<char>>,
) -> SecretStatus {
    if nonempty(env) {
        SecretStatus::FromEnv
    } else if nonempty(filed) {
        SecretStatus::FromFile
    } else {
        SecretStatus::Missing
    }
}

/// What an optional string holds.
pub open spec fn opt(s: Option<String>) -> Option<Seq<char>> {
    match s {
        Some(t) => Some(t@),
        None => None,
    }
}

/// The table that a read came to, if it did.
pub open spec fn table_if_read(r: Result<SecretTable, ConfigError>) -> Option<
    Map<Seq<char>, Seq<char>>,
> {
    match r {
        Ok(t) => Some(t@),
        Err(_) => None,
    }
}

fn is_set(s: &Option<String>) -> (r: bool)
    ensures
        r == nonempty(opt(*s)),
{
    match s {
        Some(t) => t.as_str().unicode_len() > 0,
        None => false,
    }
}

fn filed_key(stored: &Result<SecretTable, ConfigError>, account: &str) -> (r: Option<String>)
    ensures
        opt(r) == table_key(table_if_read(*stored), account@),
{
    match stored {
        Ok(t) => t.get(account),
        Err(_) => None,
    }
}

/// The key for `account`, if one is configured. `env` is the value of
/// [`env_var_name`] and `stored` what [`read_all`] came to.
pub fn load_secret(
    account: &str,
    env: Option<String>,
    stored: &Result<SecretTable, ConfigError>,
) -> (r: Option<String>)
    ensures
        opt(r) == resolved_key(opt(env), table_key(table_if_read(*stored), account@)),
{
    if is_set(&env) {
        return env;
    }
    let filed = filed_key(stored, account);
    if is_set(&filed) {
        filed
    } else {
        None
    }
}

/// Where the key for `account` comes from, looked up as by [`load_secret`].
pub fn secret_status(
    account: &str,
    env: Option<String>,
    stored: &Result<SecretTable, ConfigError>,
) -> (r: SecretStatus)
    ensures
        r == resolved_status(opt(env), table_key(table_if_read(*stored), account@)),
{
    if is_set(&env) {
        return SecretStatus::FromEnv;
    }
    let filed = filed_key(stored, account);
    if is_set(&filed) {
        SecretStatus::FromFile
    } else {
        SecretStatus::Missing
    }
}

// ---- Changing --------------------------------------------------------------

/// The table to write for a new key: what was stored, or an empty table where
/// that could not be read, with the key in it.
pub open spec fn table_with(
    stored: Option<Map<Seq<char>, Seq<char>>>,
    account: Seq<char>,
    secret: Seq<char>,
) -> Map<Seq<char>, Seq<char>> {
    match stored {
        Some(t) => t.insert(account, secret),
        None => Map::<Seq<char>, Seq<char>>::empty().insert(account, secret),
    }
}

/// The text of `secrets.toml` once `secret` is stored for `account`.
pub fn store_secret(
    account: &str,
    secret: &str,
    stored: Result<SecretTable, ConfigError>,
) -> (r: Result<String, ConfigError>)
    ensures
        r matches Ok(s) && is_file_for(
            s@,
            table_with(table_if_read(stored), account@, secret@),
        ),
{
    let table = match stored {
        Ok(t) => t,
        Err(_) => SecretTable::new(),
    };
    let changed = table.insert(account, secret);
    render(&changed)
}

/// What has to be written to `secrets.toml` so that no key is stored for
/// `account`: `None` where none is. A file that cannot be read is an error.
pub fn remove_secret(account: &str, stored: Result<SecretTable, ConfigError>) -> (r: Result<
    Option<String>,
    ConfigError,
>)
    ensures
        match stored {
            Err(e) => r == Err::<Option<String>, ConfigError>(e),
            Ok(t) => if t@.dom().contains(account@) {
                r matches Ok(Some(s)) && is_file_for(s@, t@.remove(account@))
            } else {
                r == Ok::<Option<String>, ConfigError>(None)
            },
        },
{
    let table = match stored {
        Ok(t) => t,
        Err(e) => {
            return Err(e);
        },
    };
    match table.get(account) {
        None => Ok(None),
        Some(_) => {
            let changed = table.remove(account);
            match render(&changed) {
                Ok(s) => Ok(Some(s)),
                Err(e) => Err(e),
            }
        },
    }
}

// ---- Laws ------------------------------------------------------------------

/// The table that a file with this text holds, if it can be read.
pub open spec fn table_in(text: Seq<char>) -> Option<Map<Seq<char>, Seq<char>>> {
    match stored_table(Some(Ok(text))) {
        Ok(table) => Some(table),
        Err(_) => None,
    }
}

/// Once a key is stored, a lookup in the file that was written gives it back,
/// unless the environment has one.
pub proof fn stored_key_is_found(
    stored: Option<Map<Seq<char>, Seq<char>>>,
    account: Seq<char>,
    secret: Seq<char>,
    text: Seq<char>,
)
    requires
        secret.len() > 0,
        is_file_for(text, table_with(stored, account, secret)),
    ensures
        resolved_key(None, table_key(table_in(text), account)) == Some(secret),
        resolved_status(None, table_key(table_in(text), account)) == SecretStatus::FromFile,
{
}

/// The file that is written once a key is stored or removed holds the key of every
/// other account as before.
pub proof fn other_accounts_are_preserved(
    table: Map<Seq<char>, Seq<char>>,
    account: Seq<char>,
    secret: Seq<char>,
    other: Seq<char>,
    text: Seq<char>,
)
    requires
        other != account,
        is_file_for(text, table_with(Some(table), account, secret)) || is_file_for(
            text,
            table.remove(account),
        ),
    ensures
        table_key(table_in(text), other) == table_key(Some(table), other),
{
}

/// Once a key is removed, a lookup in the file that was written finds none, unless
/// the environment has one.
pub proof fn removed_key_is_gone(
    table: Map<Seq<char>, Seq<char>>,
    account: Seq<char>,
    text: Seq<char>,
)
    requires
        is_file_for(text, table.remove(account)),
    ensures
        resolved_key(None, table_key(table_in(text), account)) is None,
        resolved_status(None, table_key(table_in(text), account)) == SecretStatus::Missing,
{
}

/// A key in the environment shadows the file, whatever the file holds.
pub proof fn environment_shadows_file(env: Seq<char>, filed: Option<Seq<char>>)
    requires
        env.len() > 0,
    ensures
        resolved_key(Some(env), filed) == Some(env),
        resolved_status(Some(env), filed) == SecretStatus::FromEnv,
{
}

/// The status is `Missing` exactly if a lookup finds no key.
pub proof fn status_agrees_with_lookup(env: Option<Seq<char>>, filed: Option<Seq<char>>)
    ensures
        resolved_status(env, filed) == SecretStatus::Missing <==> resolved_key(env, filed) is None,
        resolved_key(env, filed) matches Some(k) ==> k.len() > 0,
{
}

/// An empty variable counts as none: then the key in the file is the one that is
/// found, whatever it is.
pub proof fn an_empty_variable_is_no_key(env: Option<Seq<char>>, filed: Option<Seq<char>>)
    requires
        env matches Some(e) ==> e.len() == 0,
    ensures
        filed matches Some(k) ==> k.len() > 0 ==> resolved_key(env, filed) == Some(k)
            && resolved_status(env, filed) == SecretStatus::FromFile,
        (filed matches Some(k) ==> k.len() == 0) ==> resolved_key(env, filed) is None
            && resolved_status(env, filed) == SecretStatus::Missing,
{
}

/// The variable of an account is its name in upper case between "HOLLER_" and "_KEY".
pub proof fn a_variable_is_named_after_its_account(account: Seq<char>)
    ensures
        env_name(account).len() == 11 + account.len(),
        env_name(account).take(7) == "HOLLER_"@,
        env_name(account).skip(7 + account.len() as int) == "_KEY"@,
        forall|i: int|
            0 <= i < account.len() ==> #[trigger] env_name(account)[7 + i] == text::upper_char(
                account[i],
            ),
{
    reveal_strlit("HOLLER_");
    reveal_strlit("_KEY");
    assert(env_name(account).take(7) =~= "HOLLER_"@);
    assert(env_name(account).skip(7 + account.len() as int) =~= "_KEY"@);
}

/// Without a file there are no keys; a file that cannot be read or understood is an
/// error with its own words; any other holds what the TOML reader makes of it.
pub proof fn the_file_says_which_keys_there_are(found: Option<Result<Seq<char>, Seq<char>>>)
    ensures
        found is None ==> (stored_table(found) matches Ok(t) && t.dom() =~= Set::empty()),
        found matches Some(Err(m)) ==> stored_table(found) == Err::<
            Map<Seq<char>, Seq<char>>,
            (bool, Seq<char>),
        >((false, m)),
        found matches Some(Ok(t)) ==> (toml_read(t) matches Ok(table) ==> stored_table(found) == Ok::<
            Map<Seq<char>, Seq<char>>,
            (bool, Seq<char>),
        >(table)),
        found matches Some(Ok(t)) ==> (toml_read(t) matches Err(m) ==> stored_table(found) == Err::<
            Map<Seq<char>, Seq<char>>,
            (bool, Seq<char>),
        >((true, m))),
{
}

/// A key is looked up under its own account: it is there exactly if the account is in
/// the table, and is what the table holds for it.
pub proof fn a_key_is_found_under_its_account(
    stored: Option<Map<Seq<char>, Seq<char>>>,
    account: Seq<char>,
)
    ensures
        table_key(stored, account) is Some <==> stored is Some && stored->0.dom().contains(account),
        table_key(stored, account) matches Some(k) ==> k == stored->0[account],
{
}

/// A table holds what its entries say: with distinct accounts each account's secret,
/// and nothing for an account that is not among them.
pub proof fn a_table_holds_its_entries(entries: Seq<(String, String)>)
    requires
        accounts_distinct(entries),
    ensures
        forall|i: int|
            0 <= i < entries.len() ==> #[trigger] table_of(entries).dom().contains(entries[i].0@)
                && table_of(entries)[entries[i].0@] == entries[i].1@,
        forall|a: Seq<char>| #[trigger]
            table_of(entries).dom().contains(a) ==> exists|i: int|
                0 <= i < entries.len() && (#[trigger] entries[i]).0@ == a,
    decreases entries.len(),
{
    if entries.len() > 0 {
        let front = entries.drop_last();
        assert forall|i: int, j: int| 0 <= i < j < front.len() implies (#[trigger] front[i]).0@ != (
        #[trigger] front[j]).0@ by {
            assert(entries[i].0@ != entries[j].0@);
        }
        a_table_holds_its_entries(front);
        let last = entries.len() - 1;
        assert forall|i: int| 0 <= i < entries.len() implies #[trigger] table_of(
            entries,
        ).dom().contains(entries[i].0@) && table_of(entries)[entries[i].0@] == entries[i].1@ by {
            if i < last {
                assert(front[i] == entries[i]);
                assert(entries[i].0@ != entries[last].0@);
                assert(table_of(front).dom().contains(front[i].0@));
            }
        }
        assert forall|a: Seq<char>| #[trigger] table_of(entries).dom().contains(a) implies exists|
            i: int,
        |
            0 <= i < entries.len() && (#[trigger] entries[i]).0@ == a by {
            if a == entries[last].0@ {
            } else {
                assert(table_of(front).dom().contains(a));
                let i = choose|i: int| 0 <= i < front.len() && (#[trigger] front[i]).0@ == a;
                assert(entries[i].0@ == a);
            }
        }
    }
}

/// Where a key is found says which it is: from the environment or from the file, and
/// none is missing that can be found.
pub proof fn the_status_tells_where_the_key_is(env: Option<Seq<char>>, filed: Option<Seq<char>>)
    ensures
        resolved_status(env, filed) == SecretStatus::FromEnv <==> env is Some && env->0.len() > 0,
        resolved_status(env, filed) == SecretStatus::FromEnv ==> resolved_key(env, filed) == env,
        resolved_status(env, filed) == SecretStatus::FromFile <==> !(env is Some && env->0.len()
            > 0) && filed is Some && filed->0.len() > 0,
        resolved_status(env, filed) == SecretStatus::FromFile ==> resolved_key(env, filed)
            == filed,
        resolved_status(env, filed) == SecretStatus::Missing <==> resolved_key(env, filed) is None,
{
}

/// The file begins with a note on what it is, and then holds the table as TOML.
pub proof fn the_file_begins_with_a_note(table: Map<Seq<char>, Seq<char>>)
    ensures
        FILE_HEADER@.is_prefix_of(file_text(table)),
        toml_written(table).is_suffix_of(file_text(table)),
        file_text(table).len() == FILE_HEADER@.len() + toml_written(table).len(),
{
    let t = file_text(table);
    let w = toml_written(table);
    assert(FILE_HEADER@ =~= t.subrange(0, FILE_HEADER@.len() as int));
    assert(w =~= t.subrange(t.len() - w.len(), t.len() as int));
}

/// A table that could be read is the one that is used; without one there is none.
pub proof fn a_table_that_was_read_is_used(r: Result<SecretTable, ConfigError>)
    ensures
        r matches Ok(t) ==> table_if_read(r) == Some(t@),
        r is Err ==> table_if_read(r) is None,
{
}

} // verus!
