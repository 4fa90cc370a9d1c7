use vstd::prelude::*;

verus! {

/// One user record as the store hands it out: a direct projection of a row of
/// the `users` table.
pub struct UserRow {
    pub id: i64,
    pub name: String,
    pub age: i32,
    pub address: String,
}

impl View for UserRow {
    type V = (int, Seq<char>, int, Seq<char>);

    open spec fn view(&self) -> (int, Seq<char>, int, Seq<char>) {
        (self.id as int, self.name@, self.age as int, self.address@)
    }
}

/// Why a store operation failed.
pub enum StoreError {
    /// A required text field (name or address) was empty.
    EmptyField,
    /// The storage engine rejected or could not run a statement.
    Engine(rusqlite::Error),
}

} // verus!
