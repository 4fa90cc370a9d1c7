use vstd::prelude::*;
use crate::engine;
use crate::model::{listing_of, rows_view, table_empty, table_ok, valid_new_id, RowFields};
use crate::rows::{StoreError, UserRow};

verus! {

broadcast use vstd::set::group_set_axioms, vstd::map::group_map_axioms;

/// The record store: it owns the one connection to the storage engine for
/// the lifetime of the process and translates each operation into one
/// parameterized statement.
pub struct Store {
    conn: rusqlite::Connection,
}

impl Store {
    /// The rows of the `users` table, as a map from id to (name, age, address).
    pub closed spec fn rows(self) -> Map<int, RowFields> {
        engine::db_rows(self.conn)
    }

    /// The `users` table exists with exactly this library's schema.
    pub closed spec fn ready(self) -> bool {
        engine::db_has_table(self.conn)
    }

    /// Some table named `users` exists, of whatever shape: a database file
    /// written by something else may hold one the store cannot work on.
    pub closed spec fn table_present(self) -> bool {
        engine::db_any_users_table(self.conn)
    }

    /// A store fit for the four operations: the table exists with the
    /// library's schema, holds finitely many rows, and every id is a 64-bit
    /// integer.
    pub open spec fn wf(self) -> bool {
        self.ready() && table_ok(self.rows())
    }

    /// Opens a store on a fresh in-memory database; `ensure_schema` must
    /// still be called before the four operations.
    pub fn open_in_memory() -> (r: Result<Store, StoreError>)
        ensures
            r is Ok ==> !r->Ok_0.ready() && !r->Ok_0.table_present(),
            r is Ok ==> table_ok(r->Ok_0.rows()) && table_empty(r->Ok_0.rows()),
            r is Err ==> r->Err_0 is Engine,
    {
        match engine::conn_open_in_memory() {
            Ok(conn) => Ok(Store { conn }),
            Err(e) => Err(StoreError::Engine(e)),
        }
    }

    /// Opens a store on the database file at `path`, creating the file if it
    /// is absent; `ensure_schema` must still be called before the four
    /// operations.
    pub fn open(path: &String) -> (r: Result<Store, StoreError>)
        ensures
            r is Ok ==> table_ok(r->Ok_0.rows()),
            r is Err ==> r->Err_0 is Engine,
    {
        match engine::conn_open(path) {
            Ok(conn) => Ok(Store { conn }),
            Err(e) => Err(StoreError::Engine(e)),
        }
    }

    /// Idempotently creates the `users` table: where no table of that name
    /// exists it is created empty with the library's schema and the store is
    /// well-formed; where this library's table already exists nothing
    /// changes. A foreign `users` table of another shape is also left as it
    /// stands (`CREATE TABLE IF NOT EXISTS` goes by the name alone), and of
    /// such a database no more than preservation is promised.
    pub fn ensure_schema(&mut self) -> (r: Result<(), StoreError>)
        ensures
            r is Ok ==> final(self).table_present(),
            r is Ok && !old(self).table_present() ==> final(self).wf() && table_empty(
                final(self).rows(),
            ),
            r is Ok && old(self).ready() ==> final(self).ready() && final(self).rows() == old(
                self,
            ).rows(),
            r is Ok && old(self).wf() ==> final(self).wf() && final(self).rows() == old(
                self,
            ).rows(),
            r is Err ==> final(self).rows() == old(self).rows() && final(self).ready() == old(
                self,
            ).ready() && final(self).table_present() == old(self).table_present(),
            r is Err ==> r->Err_0 is Engine,
    {
        match engine::exec_create_table(&mut self.conn) {
            Ok(u) => Ok(u),
            Err(e) => Err(StoreError::Engine(e)),
        }
    }

    /// Create: inserts one row with the given fields; the storage engine
    /// assigns the id. Fails without touching the table when `name` or
    /// `address` is empty.
    pub fn add_user(&mut self, name: &String, age: i32, address: &String) -> (r: Result<
        (),
        StoreError,
    >)
        requires
            old(self).wf(),
        ensures
            final(self).wf(),
            final(self).ready(),
            r is Ok ==> exists|id: int|
                #[trigger] valid_new_id(old(self).rows(), id) && final(self).rows() == old(
                    self,
                ).rows().insert(id, (name@, age as int, address@)),
            r is Err ==> final(self).rows() == old(self).rows(),
            r matches Err(StoreError::EmptyField) <==> name@.len() == 0 || address@.len() == 0,
    {
        if name.as_str().is_empty() || address.as_str().is_empty() {
            return Err(StoreError::EmptyField);
        }
        match engine::exec_insert(&mut self.conn, name, age, address) {
            Ok(u) => {
                proof {
                    let m0 = old(self).rows();
                    let id = choose|id: int|
                        #[trigger] valid_new_id(m0, id) && self.rows() == m0.insert(
                            id,
                            (name@, age as int, address@),
                        );
                    assert(self.rows().dom() =~= m0.dom().insert(id));
                    assert forall|k: int| #[trigger]
                        self.rows().contains_key(k) implies i64::MIN <= k <= i64::MAX by {
                        if k != id {
                            assert(m0.contains_key(k));
                        }
                    }
                }
                Ok(u)
            },
            Err(e) => Err(StoreError::Engine(e)),
        }
    }

    /// Read: every row of the table, in an order the storage engine leaves
    /// unspecified.
    pub fn list_users(&self) -> (r: Result<Vec<UserRow>, StoreError>)
        requires
            self.wf(),
        ensures
            r is Ok ==> listing_of(self.rows(), rows_view(r->Ok_0@)),
            r is Err ==> r->Err_0 is Engine,
    {
        match engine::query_all(&self.conn) {
            Ok(v) => Ok(v),
            Err(e) => Err(StoreError::Engine(e)),
        }
    }

    /// Update: overwrites name, age and address of the row at `id`; a no-op,
    /// not an error, when no row has that id.
    pub fn update_user(&mut self, id: i64, name: &String, age: i32, address: &String) -> (r:
        Result<(), StoreError>)
        requires
            old(self).wf(),
        ensures
            final(self).wf(),
            r is Ok && old(self).rows().contains_key(id as int) ==> final(self).rows() == old(
                self,
            ).rows().insert(id as int, (name@, age as int, address@)),
            r is Ok && !old(self).rows().contains_key(id as int) ==> final(self).rows() == old(
                self,
            ).rows(),
            r is Err ==> final(self).rows() == old(self).rows(),
            r is Err ==> r->Err_0 is Engine,
    {
        match engine::exec_update(&mut self.conn, id, name, age, address) {
            Ok(u) => {
                proof {
                    let m0 = old(self).rows();
                    if m0.contains_key(id as int) {
                        assert(self.rows().dom() =~= m0.dom().insert(id as int));
                        assert forall|k: int| #[trigger]
                            self.rows().contains_key(k) implies i64::MIN <= k <= i64::MAX by {
                            if k != id as int {
                                assert(m0.contains_key(k));
                            }
                        }
                    }
                }
                Ok(u)
            },
            Err(e) => Err(StoreError::Engine(e)),
        }
    }

    /// Delete: removes the row at `id`; a no-op, not an error, when no row
    /// has that id.
    pub fn delete_user(&mut self, id: i64) -> (r: Result<(), StoreError>)
        requires
            old(self).wf(),
        ensures
            final(self).wf(),
            r is Ok ==> final(self).rows() == old(self).rows().remove(id as int),
            r is Ok ==> !final(self).rows().contains_key(id as int),
            r is Ok && !old(self).rows().contains_key(id as int) ==> final(self).rows() == old(
                self,
            ).rows(),
            r is Err ==> final(self).rows() == old(self).rows(),
            r is Err ==> r->Err_0 is Engine,
    {
        match engine::exec_delete(&mut self.conn, id) {
            Ok(u) => {
                proof {
                    let m0 = old(self).rows();
                    assert(self.rows().dom() =~= m0.dom().remove(id as int));
                    assert forall|k: int| #[trigger]
                        self.rows().contains_key(k) implies i64::MIN <= k <= i64::MAX by {
                        assert(m0.contains_key(k));
                    }
                    if !m0.contains_key(id as int) {
                        assert(self.rows() =~= m0);
                    }
                }
                Ok(u)
            },
            Err(e) => Err(StoreError::Engine(e)),
        }
    }
}

} // verus!
