use vstd::prelude::*;
use crate::model::{listing_of, rows_view, table_empty, table_ok, valid_new_id, RowFields};
use crate::rows::UserRow;

verus! {

#[verifier::external_type_specification]
#[verifier::external_body]
pub struct ExConnection(rusqlite::Connection);

#[verifier::external_type_specification]
#[verifier::external_body]
pub struct ExError(rusqlite::Error);

/// The rows of the table named `users` in the main database behind `c`, as a
/// map from rowid to the (name, age, address) column values.
pub uninterp spec fn db_rows(c: rusqlite::Connection) -> Map<int, RowFields>;

/// Whether the main database behind `c` holds a table named `users` with
/// exactly this library's schema -- `id INTEGER PRIMARY KEY` (so the `id`
/// column aliases the rowid), `name TEXT NOT NULL`, `age INTEGER NOT NULL`,
/// `address TEXT NOT NULL` -- and no trigger on it. The statement contracts
/// below mean what they say only on such a table.
pub uninterp spec fn db_has_table(c: rusqlite::Connection) -> bool;

/// Whether the main database behind `c` holds some table named `users`, of
/// whatever shape: a file written by something else may hold one on which
/// this library's statements do not mean what `db_has_table` guarantees.
pub uninterp spec fn db_any_users_table(c: rusqlite::Connection) -> bool;

/// Relies on rusqlite::Connection::open_in_memory: a fresh in-memory database
/// holds no table at all, in particular no `users` table of any shape and no
/// row.
#[verifier::external_body]
pub(crate) fn conn_open_in_memory() -> (r: Result<rusqlite::Connection, rusqlite::Error>)
    ensures
        r is Ok ==> !db_has_table(r->Ok_0) && !db_any_users_table(r->Ok_0),
        r is Ok ==> table_ok(db_rows(r->Ok_0)) && table_empty(db_rows(r->Ok_0)),
{
    rusqlite::Connection::open_in_memory()
}

/// Relies on rusqlite::Connection::open: it opens (creating it if absent) the
/// database file at `path`; whatever the file held, a SQLite table has
/// finitely many rows and 64-bit rowids.
#[verifier::external_body]
pub(crate) fn conn_open(path: &String) -> (r: Result<rusqlite::Connection, rusqlite::Error>)
    ensures
        r is Ok ==> table_ok(db_rows(r->Ok_0)),
{
    rusqlite::Connection::open(path.as_str())
}

/// Relies on rusqlite::Connection::execute running
/// `CREATE TABLE IF NOT EXISTS users (...)`: where no table named `users`
/// exists it creates one, empty, with exactly the schema `db_has_table`
/// names and no trigger; where a table of that name exists, of whatever
/// shape, `IF NOT EXISTS` makes the statement a no-op (it checks the name
/// only); a failed SQLite statement changes nothing.
#[verifier::external_body]
pub(crate) fn exec_create_table(conn: &mut rusqlite::Connection) -> (r: Result<
    (),
    rusqlite::Error,
>)
    ensures
        r is Ok ==> db_any_users_table(*final(conn)),
        r is Ok && !db_any_users_table(*old(conn)) ==> db_has_table(*final(conn)) && table_ok(
            db_rows(*final(conn)),
        ) && table_empty(db_rows(*final(conn))),
        r is Ok && db_any_users_table(*old(conn)) ==> db_has_table(*final(conn)) == db_has_table(
            *old(conn),
        ) && db_rows(*final(conn)) == db_rows(*old(conn)),
        r is Ok && db_has_table(*old(conn)) ==> db_has_table(*final(conn)) && db_rows(
            *final(conn),
        ) == db_rows(*old(conn)),
        r is Err ==> db_rows(*final(conn)) == db_rows(*old(conn)) && db_has_table(*final(conn))
            == db_has_table(*old(conn)) && db_any_users_table(*final(conn)) == db_any_users_table(
            *old(conn),
        ),
{
    conn.execute(
        "CREATE TABLE IF NOT EXISTS users (
            id INTEGER PRIMARY KEY,
            name TEXT NOT NULL,
            age INTEGER NOT NULL,
            address TEXT NOT NULL
        )",
        (),
    )?;
    Ok(())
}

/// Relies on rusqlite::Connection::execute running the parameterized
/// `INSERT INTO users (name, age, address) VALUES (?1, ?2, ?3)`: on the
/// library's own schema (`db_has_table`, so no trigger fires) success stores
/// exactly the three bound fields under a fresh rowid of SQLite's choosing
/// (greater than every rowid in use, 1 for an empty table; only once a rowid
/// has reached the cap an arbitrary unused one); a failed statement changes
/// nothing, and DML neither creates nor drops a table or trigger.
#[verifier::external_body]
pub(crate) fn exec_insert(
    conn: &mut rusqlite::Connection,
    name: &String,
    age: i32,
    address: &String,
) -> (r: Result<(), rusqlite::Error>)
    ensures
        r is Ok && db_has_table(*old(conn)) ==> exists|id: int|
            #[trigger] valid_new_id(db_rows(*old(conn)), id) && db_rows(*final(conn)) == db_rows(
                *old(conn),
            ).insert(id, (name@, age as int, address@)),
        r is Err ==> db_rows(*final(conn)) == db_rows(*old(conn)),
        db_has_table(*final(conn)) == db_has_table(*old(conn)),
{
    conn.execute(
        "INSERT INTO users (name, age, address) VALUES (?1, ?2, ?3)",
        (name.as_str(), age, address.as_str()),
    )?;
    Ok(())
}

/// Relies on rusqlite::Connection::execute running the parameterized
/// `UPDATE users SET name = ?2, age = ?3, address = ?4 WHERE id = ?1`: on
/// the library's own schema the `id` column is the rowid, so on success the
/// row whose rowid equals `id` (there is at most one) carries the three
/// bound fields and no other row changes; with no matching row nothing
/// changes; a failed statement changes nothing.
#[verifier::external_body]
pub(crate) fn exec_update(
    conn: &mut rusqlite::Connection,
    id: i64,
    name: &String,
    age: i32,
    address: &String,
) -> (r: Result<(), rusqlite::Error>)
    ensures
        r is Ok && db_has_table(*old(conn)) && db_rows(*old(conn)).contains_key(id as int)
            ==> db_rows(*final(conn)) == db_rows(*old(conn)).insert(
            id as int,
            (name@, age as int, address@),
        ),
        r is Ok && db_has_table(*old(conn)) && !db_rows(*old(conn)).contains_key(id as int)
            ==> db_rows(*final(conn)) == db_rows(*old(conn)),
        r is Err ==> db_rows(*final(conn)) == db_rows(*old(conn)),
        db_has_table(*final(conn)) == db_has_table(*old(conn)),
{
    conn.execute(
        "UPDATE users SET name = ?2, age = ?3, address = ?4 WHERE id = ?1",
        (id, name.as_str(), age, address.as_str()),
    )?;
    Ok(())
}

/// Relies on rusqlite::Connection::execute running the parameterized
/// `DELETE FROM users WHERE id = ?`: on the library's own schema the `id`
/// column is the rowid, so on success the row whose rowid equals `id` is
/// gone and no other row changes; a failed statement changes nothing.
#[verifier::external_body]
pub(crate) fn exec_delete(conn: &mut rusqlite::Connection, id: i64) -> (r: Result<
    (),
    rusqlite::Error,
>)
    ensures
        r is Ok && db_has_table(*old(conn)) ==> db_rows(*final(conn)) == db_rows(
            *old(conn),
        ).remove(id as int),
        r is Err ==> db_rows(*final(conn)) == db_rows(*old(conn)),
        db_has_table(*final(conn)) == db_has_table(*old(conn)),
{
    conn.execute("DELETE FROM users WHERE id = ?", (id,))?;
    Ok(())
}

/// Relies on rusqlite's Connection::prepare, Statement::query_map and row
/// iteration for `SELECT id, name, age, address FROM users`: on the
/// library's own schema the `id` column is the rowid, so on success every
/// row of the table is produced exactly once under its rowid, projected
/// onto the four columns, in an order SQLite leaves unspecified.
#[verifier::external_body]
pub(crate) fn query_all(conn: &rusqlite::Connection) -> (r: Result<Vec<UserRow>, rusqlite::Error>)
    ensures
        r is Ok && db_has_table(*conn) ==> listing_of(db_rows(*conn), rows_view(r->Ok_0@)),
{
    let mut stmt = conn.prepare("SELECT id, name, age, address FROM users")?;
    let rows = stmt.query_map(
        (),
        |row| {
            Ok(
                UserRow {
                    id: row.get(0)?,
                    name: row.get(1)?,
                    age: row.get(2)?,
                    address: row.get(3)?,
                },
            )
        },
    )?;
    rows.collect()
}

} // verus!
