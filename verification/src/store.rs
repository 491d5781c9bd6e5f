//! The submission store: one connection to the relational database, a table
//! `answers(encrypted TEXT, captcha TEXT)`, and a single append operation.
//!
//! The table's contents are modelled by the uninterpreted sequence
//! [`stored_rows`]: every operation states how it changes that sequence, and
//! the callers' proofs rest on those statements alone.

use vstd::prelude::*;

verus! {

/// A failure reported by the database, carrying its textual description.
#[derive(Debug)]
pub struct StoreError {
    pub message: String,
}

/// The submission store: owns the one connection to the database.
#[verifier::external_body]
pub struct Store {
    conn: sqlite::Connection,
}

/// The rows of the `answers` table held behind a [`Store`], oldest first,
/// each an `(encrypted, captcha)` pair of texts.
pub uninterp spec fn stored_rows(s: Store) -> Seq<(Seq<char>, Seq<char>)>;

/// The path that selects a fresh in-memory database.
pub open spec fn memory_path_spec() -> Seq<char> {
    ":memory:"@
}

/// The statement that creates the `answers` table when it is absent.
pub open spec fn create_table_sql_spec() -> Seq<char> {
    "CREATE TABLE IF NOT EXISTS answers (encrypted TEXT, captcha TEXT)"@
}

/// The parameterized statement that appends one row to the `answers` table.
pub open spec fn insert_sql_spec() -> Seq<char> {
    "INSERT INTO answers (encrypted, captcha) VALUES (:encrypted, :captcha)"@
}

pub fn memory_path() -> (r: &'static str)
    ensures
        r@ == memory_path_spec(),
{
    ":memory:"
}

pub fn create_table_sql() -> (r: &'static str)
    ensures
        r@ == create_table_sql_spec(),
{
    "CREATE TABLE IF NOT EXISTS answers (encrypted TEXT, captcha TEXT)"
}

pub fn insert_sql() -> (r: &'static str)
    ensures
        r@ == insert_sql_spec(),
{
    "INSERT INTO answers (encrypted, captcha) VALUES (:encrypted, :captcha)"
}

/// Relies on sqlite::open: a read-write connection to the database at `path`,
/// created when absent; the special path ":memory:" opens a fresh in-memory
/// database, which holds no rows at all.
#[verifier::external_body]
fn open_connection(path: &str) -> (r: Result<Store, StoreError>)
    ensures
        r matches Ok(s) ==> (path@ == memory_path_spec() ==> stored_rows(s) == Seq::<(
            Seq<char>,
            Seq<char>,
        )>::empty()),
{
    match sqlite::open(path) {
        Ok(conn) => Ok(Store { conn }),
        Err(e) => Err(StoreError { message: e.to_string() }),
    }
}

/// Relies on sqlite::Connection::execute running the given statement. The one
/// statement admitted here is CREATE TABLE IF NOT EXISTS, which never adds,
/// removes or changes rows of the table, whether it succeeds or fails.
#[verifier::external_body]
fn run_create_table(s: &mut Store, sql: &str) -> (r: Result<(), StoreError>)
    requires
        sql@ == create_table_sql_spec(),
    ensures
        stored_rows(*final(s)) == stored_rows(*old(s)),
{
    match s.conn.execute(sql) {
        Ok(()) => Ok(()),
        Err(e) => Err(StoreError { message: e.to_string() }),
    }
}

/// Relies on sqlite::Connection::prepare, sqlite::Statement::bind and
/// sqlite::Statement::next. The one statement admitted here is a parameterized
/// INSERT of two text values: stepping it to completion appends exactly one
/// row holding the two bound texts, and an SQLite statement that fails leaves
/// the table as it was.
#[verifier::external_body]
fn run_insert(s: &mut Store, sql: &str, encrypted: &str, captcha: &str) -> (r: Result<
    (),
    StoreError,
>)
    requires
        sql@ == insert_sql_spec(),
    ensures
        r is Ok ==> stored_rows(*final(s)) == stored_rows(*old(s)).push(
            (encrypted@, captcha@),
        ),
        r is Err ==> stored_rows(*final(s)) == stored_rows(*old(s)),
{
    let outcome: sqlite::Result<()> = (|| {
        let mut statement = s.conn.prepare(sql)?;
        statement.bind((":encrypted", encrypted))?;
        statement.bind((":captcha", captcha))?;
        while statement.next()? != sqlite::State::Done {}
        Ok(())
    })();
    match outcome {
        Ok(()) => Ok(()),
        Err(e) => Err(StoreError { message: e.to_string() }),
    }
}

impl Store {
    /// Open a store over a fresh, empty in-memory database.
    pub fn open_in_memory() -> (r: Result<Store, StoreError>)
        ensures
            r matches Ok(s) ==> stored_rows(s) == Seq::<(Seq<char>, Seq<char>)>::empty(),
    {
        open_connection(memory_path())
    }

    /// Open a store over the database file at `path`, created when absent;
    /// rows already on disk are kept.
    pub fn open_at(path: &str) -> (r: Result<Store, StoreError>) {
        open_connection(path)
    }

    /// Create the `answers` table when it is absent. Idempotent and
    /// non-destructive: the rows are exactly the rows from before the call.
    pub fn init_schema(&mut self) -> (r: Result<(), StoreError>)
        ensures
            stored_rows(*final(self)) == stored_rows(*old(self)),
    {
        run_create_table(self, create_table_sql())
    }

    /// Append one `(encrypted, captcha)` row to the `answers` table. On
    /// success exactly that row is appended after all existing rows; on
    /// failure the table is unchanged.
    pub fn store(&mut self, encrypted: &str, captcha: &str) -> (r: Result<(), StoreError>)
        ensures
            r is Ok ==> stored_rows(*final(self)) == stored_rows(*old(self)).push(
                (encrypted@, captcha@),
            ),
            r is Err ==> stored_rows(*final(self)) == stored_rows(*old(self)),
    {
        run_insert(self, insert_sql(), encrypted, captcha)
    }
}

/// Open a store at the given database path, or in memory when no path is
/// given, and create the `answers` table when it is absent. An in-memory
/// store starts with no rows; a store on disk keeps the rows already there.
pub fn start_store(db_path: Option<&String>) -> (r: Result<Store, StoreError>)
    ensures
        r matches Ok(s) ==> (db_path is None ==> stored_rows(s) == Seq::<(
            Seq<char>,
            Seq<char>,
        )>::empty()),
{
    let mut s = match db_path {
        None => Store::open_in_memory()?,
        Some(p) => Store::open_at(p.as_str())?,
    };
    match s.init_schema() {
        Ok(()) => Ok(s),
        Err(e) => Err(e),
    }
}

} // verus!
