//! The persistent store.
//!
//! A [`Store`] owns one open SQLite connection for the lifetime of a
//! single command invocation. The database holds two independent
//! tables: `data`, the key-to-JSON mapping, and `cache`, the
//! command-to-captured-output mapping. Each table is created lazily,
//! with `IF NOT EXISTS` semantics, by the first operation that touches
//! it.
//!
//! The contents of the two tables are modelled by the uninterpreted
//! functions [`data_of`] and [`cache_of`]: finite text-to-text maps as
//! seen through one connection. Every SQL statement the store issues
//! stands behind one trusted wrapper whose contract states, over those
//! maps, what the statement does. The model makes the contents a
//! function of the connection: it describes one invocation owning its
//! handle exclusively, and a concurrent writer slipping between two
//! statements of the same invocation lies outside it — the design
//! leaves such races to the engine's own locking.

use vstd::prelude::*;
use vstd::utf8::{encode_utf8, valid_utf8};

use crate::args::StoreCmd;
use crate::cycle::cycle_index;
use crate::json::{ser, to_text, Json};
use crate::StoreError;

verus! {

#[verifier::external_type_specification]
#[verifier::external_body]
pub struct ExConnection(rusqlite::Connection);

#[verifier::external_type_specification]
#[verifier::external_body]
pub struct ExSqlError(rusqlite::Error);

/// The key-to-JSON-text mapping held by the `data` table, as seen
/// through `conn`; the empty map while the table does not exist.
pub uninterp spec fn data_of(conn: rusqlite::Connection) -> Map<Seq<char>, Seq<char>>;

/// The command-to-output mapping held by the `cache` table, as seen
/// through `conn`; the empty map while the table does not exist.
pub uninterp spec fn cache_of(conn: rusqlite::Connection) -> Map<Seq<char>, Seq<char>>;

/// Relies on `rusqlite::Connection::open`: opens the database file at
/// `path`, creating it if absent.
#[verifier::external_body]
fn open_db(path: &str) -> (r: Result<rusqlite::Connection, rusqlite::Error>) {
    rusqlite::Connection::open(path)
}

/// Relies on `rusqlite::Connection::execute` with `CREATE TABLE IF NOT
/// EXISTS`: creating a table, or finding it already there, leaves the
/// contents of both tables as they were.
#[verifier::external_body]
fn db_create_data(conn: &mut rusqlite::Connection) -> (r: Result<(), rusqlite::Error>)
    ensures
        data_of(*final(conn)) == data_of(*old(conn)),
        cache_of(*final(conn)) == cache_of(*old(conn)),
{
    match conn.execute(
        "CREATE TABLE IF NOT EXISTS data (id TEXT PRIMARY KEY, json TEXT NOT NULL)",
        [],
    ) {
        Ok(_) => Ok(()),
        Err(e) => Err(e),
    }
}

/// Relies on `rusqlite::Connection::execute` with `CREATE TABLE IF NOT
/// EXISTS`, as [`db_create_data`] does.
#[verifier::external_body]
fn db_create_cache(conn: &mut rusqlite::Connection) -> (r: Result<(), rusqlite::Error>)
    ensures
        data_of(*final(conn)) == data_of(*old(conn)),
        cache_of(*final(conn)) == cache_of(*old(conn)),
{
    match conn.execute(
        "CREATE TABLE IF NOT EXISTS cache (id TEXT PRIMARY KEY, output TEXT NOT NULL)",
        [],
    ) {
        Ok(_) => Ok(()),
        Err(e) => Err(e),
    }
}

/// Relies on `rusqlite::Connection::execute` with `INSERT OR REPLACE`
/// on the primary key `id`: on success the row for `key` holds `text`,
/// all other rows stay; a failed statement changes nothing (SQLite
/// statements apply atomically).
#[verifier::external_body]
fn db_put_data(conn: &mut rusqlite::Connection, key: &str, text: &str) -> (r: Result<
    (),
    rusqlite::Error,
>)
    ensures
        r is Ok ==> data_of(*final(conn)) == data_of(*old(conn)).insert(key@, text@),
        r is Err ==> data_of(*final(conn)) == data_of(*old(conn)),
        cache_of(*final(conn)) == cache_of(*old(conn)),
{
    match conn.execute("INSERT OR REPLACE INTO data values (?1, ?2)", (key, text)) {
        Ok(_) => Ok(()),
        Err(e) => Err(e),
    }
}

/// Relies on `rusqlite::Connection::query_row` and `Row::get`: `SELECT`
/// on the primary key `id` returns the single matching row's text, and
/// `Err(QueryReturnedNoRows)` when no row matches.
#[verifier::external_body]
fn db_get_data(conn: &rusqlite::Connection, key: &str) -> (r: Result<
    Option<String>,
    rusqlite::Error,
>)
    ensures
        r matches Ok(Some(s)) ==> data_of(*conn).contains_key(key@) && s@ == data_of(*conn)[key@],
        r matches Ok(None) ==> !data_of(*conn).contains_key(key@),
{
    match conn.query_row("SELECT json FROM data WHERE id = ?1", [key], |row| row.get(0)) {
        Ok(s) => Ok(Some(s)),
        Err(rusqlite::Error::QueryReturnedNoRows) => Ok(None),
        Err(e) => Err(e),
    }
}

/// Relies on `rusqlite::Connection::execute` with `DELETE` on the
/// primary key `id`: on success the row for `key` is gone and the
/// returned count says whether one was there; a failed statement
/// changes nothing.
#[verifier::external_body]
fn db_delete_data(conn: &mut rusqlite::Connection, key: &str) -> (r: Result<
    usize,
    rusqlite::Error,
>)
    ensures
        r matches Ok(n) ==> data_of(*final(conn)) == data_of(*old(conn)).remove(key@) && n == (
        if data_of(*old(conn)).contains_key(key@) {
            1usize
        } else {
            0usize
        }),
        r is Err ==> data_of(*final(conn)) == data_of(*old(conn)),
        cache_of(*final(conn)) == cache_of(*old(conn)),
{
    conn.execute("DELETE FROM data WHERE id = ?1", [key])
}

/// Relies on `rusqlite::Connection::execute` with `INSERT OR REPLACE`,
/// as [`db_put_data`] does, on the `cache` table.
#[verifier::external_body]
fn db_put_cache(conn: &mut rusqlite::Connection, key: &str, text: &str) -> (r: Result<
    (),
    rusqlite::Error,
>)
    ensures
        r is Ok ==> cache_of(*final(conn)) == cache_of(*old(conn)).insert(key@, text@),
        r is Err ==> cache_of(*final(conn)) == cache_of(*old(conn)),
        data_of(*final(conn)) == data_of(*old(conn)),
{
    match conn.execute("INSERT OR REPLACE INTO cache values (?1, ?2)", (key, text)) {
        Ok(_) => Ok(()),
        Err(e) => Err(e),
    }
}

/// Relies on `rusqlite::Connection::query_row` and `Row::get`, as
/// [`db_get_data`] does, on the `cache` table.
#[verifier::external_body]
fn db_get_cache(conn: &rusqlite::Connection, key: &str) -> (r: Result<
    Option<String>,
    rusqlite::Error,
>)
    ensures
        r matches Ok(Some(s)) ==> cache_of(*conn).contains_key(key@) && s@ == cache_of(
            *conn,
        )[key@],
        r matches Ok(None) ==> !cache_of(*conn).contains_key(key@),
{
    match conn.query_row("SELECT output FROM cache WHERE id = ?1", [key], |row| row.get(0)) {
        Ok(s) => Ok(Some(s)),
        Err(rusqlite::Error::QueryReturnedNoRows) => Ok(None),
        Err(e) => Err(e),
    }
}

/// Holds when `v` lists exactly the entries of `m`: each pair of `v`
/// is an entry of `m`, every key of `m` appears, and no key twice.
pub open spec fn lists_entries(m: Map<Seq<char>, Seq<char>>, v: Seq<(String, String)>) -> bool {
    &&& forall|i: int|
        0 <= i < v.len() ==> m.contains_key(#[trigger] v[i].0@) && v[i].1@ == m[v[i].0@]
    &&& forall|k: Seq<char>|
        #[trigger] m.contains_key(k) ==> exists|i: int| 0 <= i < v.len() && #[trigger] v[i].0@ == k
    &&& forall|i: int, j: int| 0 <= i < j < v.len() ==> v[i].0@ != v[j].0@
}

/// Relies on `rusqlite::Connection::prepare`, `Statement::query_map`
/// and `Row::get`: `SELECT id, json FROM data` yields every row of the
/// table exactly once, in an order SQLite does not promise.
#[verifier::external_body]
fn db_list_data(conn: &rusqlite::Connection) -> (r: Result<Vec<(String, String)>, rusqlite::Error>)
    ensures
        r matches Ok(v) ==> lists_entries(data_of(*conn), v@),
{
    let mut stmt = conn.prepare("SELECT id, json FROM data")?;
    let rows = stmt.query_map([], |row| Ok((row.get(0)?, row.get(1)?)))?;
    rows.collect()
}

/// A handle on the backing database, open for the lifetime of one
/// command invocation.
pub struct Store {
    conn: rusqlite::Connection,
}

impl Store {
    /// The key-to-JSON-text records of the `data` table.
    pub closed spec fn data_map(self) -> Map<Seq<char>, Seq<char>> {
        data_of(self.conn)
    }

    /// The command-to-output entries of the `cache` table.
    pub closed spec fn cache_map(self) -> Map<Seq<char>, Seq<char>> {
        cache_of(self.conn)
    }

    /// Opens (creating if absent) the backing file at `path`.
    pub fn new_with_path(path: &str) -> (r: Result<Store, StoreError>)
        ensures
            r matches Err(e) ==> e == StoreError::Open,
    {
        match open_db(path) {
            Ok(conn) => Ok(Store { conn }),
            Err(_) => Err(StoreError::Open),
        }
    }

    /// Returns the canonical JSON text recorded for `key`, or `None`
    /// if no record exists — a record whose value is JSON null is
    /// `Some` text `null`, not `None`.
    pub fn get(&mut self, key: &str) -> (r: Result<Option<String>, StoreError>)
        ensures
            final(self).data_map() == old(self).data_map(),
            final(self).cache_map() == old(self).cache_map(),
            match r {
                Ok(Some(s)) => old(self).data_map().contains_key(key@) && s@ == old(
                    self,
                ).data_map()[key@],
                Ok(None) => !old(self).data_map().contains_key(key@),
                Err(e) => e == StoreError::Query,
            },
    {
        match db_create_data(&mut self.conn) {
            Ok(()) => {},
            Err(_) => {
                return Err(StoreError::Query);
            },
        }
        match db_get_data(&self.conn, key) {
            Ok(o) => Ok(o),
            Err(_) => Err(StoreError::Query),
        }
    }

    /// Upserts the record for `key` to hold `value`. On success the
    /// data table maps `key` to the canonical serialization of
    /// `value`; every other record, and the cache table, stay as they
    /// were.
    pub fn set(&mut self, key: &str, value: &Json) -> (r: Result<(), StoreError>)
        ensures
            final(self).cache_map() == old(self).cache_map(),
            match r {
                Ok(()) => final(self).data_map() == old(self).data_map().insert(
                    key@,
                    ser(*value),
                ),
                Err(e) => e == StoreError::Query && final(self).data_map() == old(
                    self,
                ).data_map(),
            },
    {
        let text = to_text(value);
        match db_create_data(&mut self.conn) {
            Ok(()) => {},
            Err(_) => {
                return Err(StoreError::Query);
            },
        }
        match db_put_data(&mut self.conn, key, text.as_str()) {
            Ok(()) => Ok(()),
            Err(_) => Err(StoreError::Query),
        }
    }

    /// Deletes the record for `key` if one exists; returns `true` iff
    /// a record existed immediately before the call.
    pub fn unset(&mut self, key: &str) -> (r: Result<bool, StoreError>)
        ensures
            final(self).cache_map() == old(self).cache_map(),
            match r {
                Ok(b) => b == old(self).data_map().contains_key(key@) && final(self).data_map()
                    == old(self).data_map().remove(key@),
                Err(e) => e == StoreError::Query && final(self).data_map() == old(
                    self,
                ).data_map(),
            },
    {
        match db_create_data(&mut self.conn) {
            Ok(()) => {},
            Err(_) => {
                return Err(StoreError::Query);
            },
        }
        match db_delete_data(&mut self.conn, key) {
            Ok(n) => Ok(n == 1),
            Err(_) => Err(StoreError::Query),
        }
    }

    /// Returns every current record, each key exactly once paired with
    /// its recorded JSON text, in no promised order. Entries of the
    /// cache table never appear.
    pub fn list_all(&mut self) -> (r: Result<Vec<(String, String)>, StoreError>)
        ensures
            final(self).data_map() == old(self).data_map(),
            final(self).cache_map() == old(self).cache_map(),
            match r {
                Ok(v) => lists_entries(old(self).data_map(), v@),
                Err(e) => e == StoreError::Query,
            },
    {
        match db_create_data(&mut self.conn) {
            Ok(()) => {},
            Err(_) => {
                return Err(StoreError::Query);
            },
        }
        match db_list_data(&self.conn) {
            Ok(v) => Ok(v),
            Err(_) => Err(StoreError::Query),
        }
    }

    /// Upserts the cache entry for the literal command string `command`
    /// to hold `output`; the data table stays as it was.
    pub fn cache(&mut self, command: &str, output: &str) -> (r: Result<(), StoreError>)
        ensures
            final(self).data_map() == old(self).data_map(),
            match r {
                Ok(()) => final(self).cache_map() == old(self).cache_map().insert(
                    command@,
                    output@,
                ),
                Err(e) => e == StoreError::Query && final(self).cache_map() == old(
                    self,
                ).cache_map(),
            },
    {
        match db_create_cache(&mut self.conn) {
            Ok(()) => {},
            Err(_) => {
                return Err(StoreError::Query);
            },
        }
        match db_put_cache(&mut self.conn, command, output) {
            Ok(()) => Ok(()),
            Err(_) => Err(StoreError::Query),
        }
    }

    /// Returns the most recently cached output for the exact command
    /// string `command`, or `None` if none was ever cached.
    pub fn read_cache(&mut self, command: &str) -> (r: Result<Option<String>, StoreError>)
        ensures
            final(self).data_map() == old(self).data_map(),
            final(self).cache_map() == old(self).cache_map(),
            match r {
                Ok(Some(s)) => old(self).cache_map().contains_key(command@) && s@ == old(
                    self,
                ).cache_map()[command@],
                Ok(None) => !old(self).cache_map().contains_key(command@),
                Err(e) => e == StoreError::Query,
            },
    {
        match db_create_cache(&mut self.conn) {
            Ok(()) => {},
            Err(_) => {
                return Err(StoreError::Query);
            },
        }
        match db_get_cache(&self.conn, command) {
            Ok(o) => Ok(o),
            Err(_) => Err(StoreError::Query),
        }
    }
}

/// Law: setting a key and then reading it observes exactly the
/// written record — over the data map, inserting `ser(v)` under `k`
/// makes `k` present with `ser(v)`, whatever the map held before.
/// This composes the `ensures` of [`Store::set`] with that of
/// [`Store::get`].
pub proof fn lemma_set_then_get(m: Map<Seq<char>, Seq<char>>, k: Seq<char>, v: Json)
    ensures
        m.insert(k, ser(v)).contains_key(k),
        m.insert(k, ser(v))[k] == ser(v),
{
}

/// Law: `set` is idempotent — writing the same value under the same
/// key twice leaves the data map exactly as one write does, so the
/// second write is observably a no-op.
pub proof fn lemma_set_idempotent(m: Map<Seq<char>, Seq<char>>, k: Seq<char>, v: Json)
    ensures
        m.insert(k, ser(v)).insert(k, ser(v)) == m.insert(k, ser(v)),
{
    assert(m.insert(k, ser(v)).insert(k, ser(v)) =~= m.insert(k, ser(v)));
}

/// Law: one `unset` consumes the record — after removal the key is
/// absent, and removing again changes nothing, so a second `unset`
/// reports `false`. This composes the `ensures` of [`Store::unset`]
/// with itself.
pub proof fn lemma_unset_then_unset(m: Map<Seq<char>, Seq<char>>, k: Seq<char>)
    ensures
        !m.remove(k).contains_key(k),
        m.remove(k).remove(k) == m.remove(k),
{
    assert(m.remove(k).remove(k) =~= m.remove(k));
}

/// What one store command hands back for the output sink.
#[derive(Debug, PartialEq, Eq)]
pub enum CmdOutput {
    /// `get`: the record's canonical JSON text, if a record exists.
    Value(Option<String>),
    /// `set`: nothing.
    Done,
    /// `unset`: whether a record was deleted.
    Deleted(bool),
    /// `list`: every record as key and canonical JSON text.
    Records(Vec<(String, String)>),
    /// `cycle`: the selected value's canonical text, or nothing when
    /// the candidate list was empty.
    Selected(Option<String>),
    /// `cached`: the command's captured or cached output.
    Output(String),
}

/// Carries out one store command and returns what its output line
/// holds; rendering and emission stay at the boundary.
pub fn handle_cmd(store: &mut Store, cmd: StoreCmd) -> (r: Result<CmdOutput, StoreError>)
    ensures
        match cmd {
            StoreCmd::Get { key } => {
                &&& final(store).data_map() == old(store).data_map()
                &&& final(store).cache_map() == old(store).cache_map()
                &&& match r {
                    Ok(CmdOutput::Value(Some(s))) => old(store).data_map().contains_key(key@)
                        && s@ == old(store).data_map()[key@],
                    Ok(CmdOutput::Value(None)) => !old(store).data_map().contains_key(key@),
                    Ok(_) => false,
                    Err(e) => e == StoreError::Query,
                }
            },
            StoreCmd::Put { key, value } => {
                &&& final(store).cache_map() == old(store).cache_map()
                &&& match r {
                    Ok(out) => out == CmdOutput::Done && final(store).data_map() == old(
                        store,
                    ).data_map().insert(key@, ser(value)),
                    Err(e) => e == StoreError::Query && final(store).data_map() == old(
                        store,
                    ).data_map(),
                }
            },
            StoreCmd::Unset { key } => {
                &&& final(store).cache_map() == old(store).cache_map()
                &&& match r {
                    Ok(CmdOutput::Deleted(b)) => b == old(store).data_map().contains_key(key@)
                        && final(store).data_map() == old(store).data_map().remove(key@),
                    Ok(_) => false,
                    Err(e) => e == StoreError::Query && final(store).data_map() == old(
                        store,
                    ).data_map(),
                }
            },
            StoreCmd::List => {
                &&& final(store).data_map() == old(store).data_map()
                &&& final(store).cache_map() == old(store).cache_map()
                &&& match r {
                    Ok(CmdOutput::Records(v)) => lists_entries(old(store).data_map(), v@),
                    Ok(_) => false,
                    Err(e) => e == StoreError::Query,
                }
            },
            StoreCmd::Cycle { key, values, reverse } => {
                &&& final(store).cache_map() == old(store).cache_map()
                &&& values@.len() == 0 ==> r == Ok::<CmdOutput, StoreError>(
                    CmdOutput::Selected(None),
                )
                &&& match r {
                    Ok(CmdOutput::Selected(None)) => values@.len() == 0 && final(store).data_map()
                        == old(store).data_map(),
                    Ok(CmdOutput::Selected(Some(s))) => {
                        let stored = if old(store).data_map().contains_key(key@) {
                            Some(old(store).data_map()[key@])
                        } else {
                            None
                        };
                        let idx = cycle_index(values@, stored, reverse);
                        &&& values@.len() > 0
                        &&& s@ == ser(values@[idx])
                        &&& final(store).data_map() == old(store).data_map().insert(
                            key@,
                            ser(values@[idx]),
                        )
                    },
                    Ok(_) => false,
                    Err(e) => e == StoreError::Query && final(store).data_map() == old(
                        store,
                    ).data_map(),
                }
            },
            StoreCmd::Cached { cmd: command, outcome } => {
                &&& final(store).data_map() == old(store).data_map()
                &&& outcome.success && !valid_utf8(outcome.stdout@) ==> r == Err::<
                    CmdOutput,
                    StoreError,
                >(StoreError::Utf8)
                &&& match r {
                    Ok(CmdOutput::Output(s)) => {
                        &&& outcome.success ==> encode_utf8(s@) == outcome.stdout@ && final(store).cache_map() == old(store).cache_map().insert(command@, s@)
                        &&& !outcome.success ==> old(store).cache_map().contains_key(command@)
                            && s@ == old(store).cache_map()[command@] && final(store).cache_map()
                            == old(store).cache_map()
                    },
                    Ok(_) => false,
                    Err(e) => {
                        &&& final(store).cache_map() == old(store).cache_map()
                        &&& e == StoreError::Utf8 || e == StoreError::Query || e
                            == StoreError::CacheMiss
                        &&& (e == StoreError::Utf8 <==> outcome.success && !valid_utf8(
                            outcome.stdout@,
                        ))
                        &&& e == StoreError::CacheMiss ==> !outcome.success && !old(
                            store,
                        ).cache_map().contains_key(command@)
                    },
                }
            },
        },
{
    match cmd {
        StoreCmd::Get { key } => match store.get(key.as_str()) {
            Ok(o) => Ok(CmdOutput::Value(o)),
            Err(e) => Err(e),
        },
        StoreCmd::Put { key, value } => match store.set(key.as_str(), &value) {
            Ok(()) => Ok(CmdOutput::Done),
            Err(e) => Err(e),
        },
        StoreCmd::Unset { key } => match store.unset(key.as_str()) {
            Ok(b) => Ok(CmdOutput::Deleted(b)),
            Err(e) => Err(e),
        },
        StoreCmd::List => match store.list_all() {
            Ok(v) => Ok(CmdOutput::Records(v)),
            Err(e) => Err(e),
        },
        StoreCmd::Cycle { key, values, reverse } => match store.cycle(
            key.as_str(),
            &values,
            reverse,
        ) {
            Ok(None) => Ok(CmdOutput::Selected(None)),
            Ok(Some(idx)) => Ok(CmdOutput::Selected(Some(to_text(&values[idx])))),
            Err(e) => Err(e),
        },
        StoreCmd::Cached { cmd: command, outcome } => match store.cached_output(
            command.as_str(),
            outcome,
        ) {
            Ok(s) => Ok(CmdOutput::Output(s)),
            Err(e) => Err(e),
        },
    }
}

} // verus!
