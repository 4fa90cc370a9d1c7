use vstd::prelude::*;
use crate::rows::UserRow;

verus! {

/// The mathematical content of one row: (name, age, address).
pub type RowFields = (Seq<char>, int, Seq<char>);

/// What is always true of a real table: finitely many rows, every id a
/// 64-bit integer (a rowid).
pub open spec fn table_ok(m: Map<int, RowFields>) -> bool {
    &&& m.dom().finite()
    &&& forall|k: int| #[trigger] m.contains_key(k) ==> i64::MIN <= k <= i64::MAX
}

/// The table holds no row at all.
pub open spec fn table_empty(m: Map<int, RowFields>) -> bool {
    forall|k: int| !(#[trigger] m.contains_key(k))
}

/// The ids the storage engine may assign to a row inserted into table `m`:
/// a rowid no existing row has and, as long as no rowid has reached the cap,
/// greater than every rowid in use (1 for an empty table).
pub open spec fn valid_new_id(m: Map<int, RowFields>, id: int) -> bool {
    &&& i64::MIN <= id <= i64::MAX
    &&& !m.contains_key(id)
    &&& (forall|k: int| #[trigger] m.contains_key(k) ==> k < i64::MAX) ==> if table_empty(m) {
            id == 1
        } else {
            forall|k: int| #[trigger] m.contains_key(k) ==> k < id
        }
}

/// The records of `s`, by view.
pub open spec fn rows_view(s: Seq<UserRow>) -> Seq<(int, Seq<char>, int, Seq<char>)> {
    s.map_values(|u: UserRow| u@)
}

/// `s` lists table `m`: one element per row, in unspecified order.
pub open spec fn listing_of(
    m: Map<int, RowFields>,
    s: Seq<(int, Seq<char>, int, Seq<char>)>,
) -> bool {
    &&& s.len() == m.dom().len()
    &&& forall|i: int, j: int|
        0 <= i < s.len() && 0 <= j < s.len() && i != j ==> (#[trigger] s[i]).0 != (
        #[trigger] s[j]).0
    &&& forall|i: int|
        0 <= i < s.len() ==> m.contains_pair((#[trigger] s[i]).0, (s[i].1, s[i].2, s[i].3))
    &&& forall|id: int| #[trigger]
        m.contains_key(id) ==> exists|i: int| 0 <= i < s.len() && (#[trigger] s[i]).0 == id
}

/// Create-then-list round trip: a listing of the table after a fresh insert
/// holds a row with exactly the inserted fields, under an id no row of the
/// old table had, and holds it exactly once.
pub proof fn lemma_create_list_roundtrip(
    m: Map<int, RowFields>,
    id: int,
    name: Seq<char>,
    age: int,
    address: Seq<char>,
    s: Seq<(int, Seq<char>, int, Seq<char>)>,
)
    requires
        valid_new_id(m, id),
        listing_of(m.insert(id, (name, age, address)), s),
    ensures
        !m.contains_key(id),
        exists|i: int| 0 <= i < s.len() && #[trigger] s[i] == (id, name, age, address),
        forall|i: int|
            0 <= i < s.len() && (#[trigger] s[i]).0 == id ==> s[i] == (id, name, age, address),
        forall|i: int, j: int|
            0 <= i < s.len() && 0 <= j < s.len() && (#[trigger] s[i]).0 == id && (
            #[trigger] s[j]).0 == id ==> i == j,
{
    let m1 = m.insert(id, (name, age, address));
    assert(m1.contains_key(id));
    let i = choose|i: int| 0 <= i < s.len() && (#[trigger] s[i]).0 == id;
    assert(m1.contains_pair(s[i].0, (s[i].1, s[i].2, s[i].3)));
    assert(s[i] == (id, name, age, address));
}

/// Updating an existing id rewrites exactly that row: a listing of the table
/// afterwards has the same length as before, shows the new fields wherever
/// the id appears, and shows every other row as the old table had it.
pub proof fn lemma_update_targets_one_row(
    m: Map<int, RowFields>,
    id: int,
    name: Seq<char>,
    age: int,
    address: Seq<char>,
    s: Seq<(int, Seq<char>, int, Seq<char>)>,
)
    requires
        m.contains_key(id),
        listing_of(m.insert(id, (name, age, address)), s),
    ensures
        s.len() == m.dom().len(),
        exists|i: int| 0 <= i < s.len() && #[trigger] s[i] == (id, name, age, address),
        forall|i: int|
            0 <= i < s.len() && (#[trigger] s[i]).0 == id ==> s[i] == (id, name, age, address),
        forall|i: int|
            0 <= i < s.len() && (#[trigger] s[i]).0 != id ==> m.contains_pair(
                s[i].0,
                (s[i].1, s[i].2, s[i].3),
            ),
{
    let m1 = m.insert(id, (name, age, address));
    assert(m1.dom() =~= m.dom());
    assert(m1.contains_key(id));
    let i = choose|i: int| 0 <= i < s.len() && (#[trigger] s[i]).0 == id;
    assert(m1.contains_pair(s[i].0, (s[i].1, s[i].2, s[i].3)));
    assert(s[i] == (id, name, age, address));
}

/// Deleting an id removes exactly that row: no row keeps the id, the row
/// count drops by one where the id was present and stays where it was not,
/// and every other row is untouched.
pub proof fn lemma_delete_removes_exactly_one(m: Map<int, RowFields>, id: int)
    requires
        table_ok(m),
    ensures
        !m.remove(id).contains_key(id),
        m.contains_key(id) ==> m.remove(id).dom().len() == m.dom().len() - 1,
        !m.contains_key(id) ==> m.remove(id) =~= m,
        forall|k: int| k != id && #[trigger] m.contains_key(k) ==> m.remove(id).contains_key(k)
            && m.remove(id)[k] == m[k],
{
    broadcast use vstd::set::group_set_axioms, vstd::map::group_map_axioms;

    assert(m.remove(id).dom() =~= m.dom().remove(id));
    if m.contains_key(id) {
        assert(m.dom().remove(id).len() == m.dom().len() - 1);
    }
}

} // verus!
