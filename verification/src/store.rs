//! The order store: a key-row table of persisted orders.
//!
//! The store owns the mapping from an order identifier to its persisted
//! row and offers the four persistence operations: save (insert when the
//! order has no identifier yet, update of the matching row otherwise),
//! fetch by identifier, fetch all, and delete by identifier. Identifiers
//! are assigned by the store itself, counting up from 1, so a well-formed
//! table never holds two rows with the same identifier. "Not found" is
//! never an error here: lookups signal it through `Option`, deletion
//! through its `bool` result.

use vstd::prelude::*;

use crate::orders::Order;
use crate::orders::OrderStatus;

verus! {

/// An opaque failure of the underlying storage engine (connectivity,
/// schema, constraint). It is never inspected further; callers map it
/// uniformly to a generic server-side failure.
#[derive(Clone, Copy, Debug, PartialEq, Eq, Structural)]
pub struct StoreError;

/// One persisted row of the orders table: unlike an in-memory [`Order`],
/// a row always carries its assigned identifier.
#[derive(Clone, Copy, Debug, PartialEq, Eq, Structural)]
pub struct Row {
    pub id: i64,
    pub amount: i64,
    pub status: OrderStatus,
}

impl Row {
    /// The order this row persists.
    pub open spec fn as_order(self) -> Order {
        Order { id: Some(self.id), amount: self.amount, status: self.status }
    }

    /// Read the row back as an order.
    pub fn to_order(&self) -> (r: Order)
        ensures
            r == self.as_order(),
    {
        Order { id: Some(self.id), amount: self.amount, status: self.status }
    }
}

/// Index of the first row carrying `id`, or -1 when no row does.
pub open spec fn spec_find_index(rows: Seq<Row>, id: i64) -> int
    decreases rows.len(),
{
    if rows.len() == 0 {
        -1
    } else if rows[0].id == id {
        0
    } else {
        let rest = spec_find_index(rows.drop_first(), id);
        if rest == -1 {
            -1
        } else {
            rest + 1
        }
    }
}

/// Whether some row carries `id`.
pub open spec fn contains_id(rows: Seq<Row>, id: i64) -> bool {
    spec_find_index(rows, id) != -1
}

/// The first row carrying `id`, if any.
pub open spec fn spec_find(rows: Seq<Row>, id: i64) -> Option<Row> {
    if contains_id(rows, id) {
        Some(rows[spec_find_index(rows, id)])
    } else {
        None
    }
}

/// The order persisted under `id`, if any.
pub open spec fn spec_get_order(rows: Seq<Row>, id: i64) -> Option<Order> {
    match spec_find(rows, id) {
        Some(row) => Some(row.as_order()),
        None => None,
    }
}

/// All persisted orders, in insertion order.
pub open spec fn spec_orders_of(rows: Seq<Row>) -> Seq<Order> {
    rows.map_values(|row: Row| row.as_order())
}

/// Well-formedness of the table: every identifier was assigned by the
/// counter (so lies in `1 ..= next_id - 1`), and no two rows share one.
pub open spec fn rows_wf(rows: Seq<Row>, next_id: i64) -> bool {
    &&& 1 <= next_id
    &&& forall|i: int| 0 <= i < rows.len() ==> 1 <= (#[trigger] rows[i]).id < next_id
    &&& forall|i: int, j: int|
        #![trigger rows[i].id, rows[j].id]
        0 <= i < j < rows.len() ==> rows[i].id != rows[j].id
}

/// What `spec_find_index` returns: a valid index of the first matching
/// row, or -1 when no row matches.
pub proof fn lemma_find_index_spec(rows: Seq<Row>, id: i64)
    ensures
        spec_find_index(rows, id) == -1 ==> forall|i: int| 0 <= i < rows.len() ==> (#[trigger] rows[i]).id != id,
        spec_find_index(rows, id) != -1 ==> 0 <= spec_find_index(rows, id) < rows.len()
            && rows[spec_find_index(rows, id)].id == id
            && forall|i: int| 0 <= i < spec_find_index(rows, id) ==> (#[trigger] rows[i]).id != id,
    decreases rows.len(),
{
    if rows.len() == 0 {
    } else if rows[0].id == id {
    } else {
        lemma_find_index_spec(rows.drop_first(), id);
        let rest = spec_find_index(rows.drop_first(), id);
        if rest == -1 {
            assert forall|i: int| 0 <= i < rows.len() implies (#[trigger] rows[i]).id != id by {
                if i >= 1 {
                    assert(rows.drop_first()[i - 1] == rows[i]);
                }
            }
        } else {
            assert(rows.drop_first()[rest] == rows[rest + 1]);
            assert forall|i: int| 0 <= i < rest + 1 implies (#[trigger] rows[i]).id != id by {
                if i >= 1 {
                    assert(rows.drop_first()[i - 1] == rows[i]);
                }
            }
        }
    }
}

/// When the first `k` rows do not carry `id`, the search outcome is
/// decided by what stands at and after position `k`.
pub proof fn lemma_find_index_prefix(rows: Seq<Row>, id: i64, k: int)
    requires
        0 <= k <= rows.len(),
        forall|j: int| 0 <= j < k ==> (#[trigger] rows[j]).id != id,
    ensures
        k < rows.len() && rows[k].id == id ==> spec_find_index(rows, id) == k,
        k == rows.len() ==> spec_find_index(rows, id) == -1,
    decreases rows.len(),
{
    if rows.len() == 0 {
    } else if k == 0 {
    } else {
        assert(rows[0].id != id);
        assert forall|j: int| 0 <= j < k - 1 implies (#[trigger] rows.drop_first()[j]).id != id by {
            assert(rows.drop_first()[j] == rows[j + 1]);
        }
        lemma_find_index_prefix(rows.drop_first(), id, k - 1);
        if k < rows.len() && rows[k].id == id {
            assert(rows.drop_first()[k - 1] == rows[k]);
        }
    }
}

/// The identifier a well-formed table will assign next is carried by no
/// stored row: a fresh insert always uses a previously-unused identifier.
pub proof fn lemma_fresh_id_unused(rows: Seq<Row>, next_id: i64)
    requires
        rows_wf(rows, next_id),
    ensures
        !contains_id(rows, next_id),
{
    lemma_find_index_prefix(rows, next_id, rows.len() as int);
}

/// Round trip of an insert: appending a fresh row (one whose identifier no
/// existing row carries) and then searching for that identifier finds
/// exactly the appended row.
pub proof fn lemma_insert_round_trip(rows: Seq<Row>, next_id: i64, amount: i64, status: OrderStatus)
    requires
        rows_wf(rows, next_id),
    ensures
        ({
            let row = Row { id: next_id, amount, status };
            spec_find(rows.push(row), next_id) == Some(row)
        }),
{
    let row = Row { id: next_id, amount, status };
    let pushed = rows.push(row);
    assert forall|j: int| 0 <= j < rows.len() implies (#[trigger] pushed[j]).id != next_id by {
        assert(pushed[j] == rows[j]);
    }
    lemma_find_index_prefix(pushed, next_id, rows.len() as int);
    assert(pushed[rows.len() as int] == row);
}

/// Each insert grows the table by exactly one persisted order: after N
/// fresh saves into an empty store, fetching all returns exactly N orders.
pub proof fn lemma_insert_adds_one_order(rows: Seq<Row>, row: Row)
    ensures
        spec_orders_of(rows.push(row)).len() == spec_orders_of(rows).len() + 1,
        spec_orders_of(rows).len() == rows.len(),
{
}

/// Round trip of an update: rewriting the first row that carries `id` with
/// another row carrying the same `id` makes a subsequent search find
/// exactly the new row.
pub proof fn lemma_update_round_trip(rows: Seq<Row>, id: i64, row: Row)
    requires
        contains_id(rows, id),
        row.id == id,
    ensures
        spec_find(rows.update(spec_find_index(rows, id), row), id) == Some(row),
{
    let idx = spec_find_index(rows, id);
    lemma_find_index_spec(rows, id);
    let updated = rows.update(idx, row);
    assert forall|j: int| 0 <= j < idx implies (#[trigger] updated[j]).id != id by {
        assert(updated[j] == rows[j]);
    }
    lemma_find_index_prefix(updated, id, idx);
}

/// Appending a row carrying the next identifier keeps the table
/// well-formed under the advanced counter.
pub proof fn lemma_push_preserves_wf(rows: Seq<Row>, next_id: i64, row: Row)
    requires
        rows_wf(rows, next_id),
        row.id == next_id,
        next_id < i64::MAX,
    ensures
        rows_wf(rows.push(row), (next_id + 1) as i64),
{
    let pushed = rows.push(row);
    assert forall|i: int| 0 <= i < pushed.len() implies 1 <= (#[trigger] pushed[i]).id < next_id + 1 by {
        if i < rows.len() {
            assert(pushed[i] == rows[i]);
        } else {
            assert(pushed[i] == row);
        }
    }
    assert forall|i: int, j: int|
        #![trigger pushed[i].id, pushed[j].id]
        0 <= i < j < pushed.len() implies pushed[i].id != pushed[j].id by {
        if j < rows.len() {
            assert(pushed[i] == rows[i]);
            assert(pushed[j] == rows[j]);
        } else {
            assert(pushed[i] == rows[i]);
            assert(pushed[j] == row);
        }
    }
}

/// Rewriting a row in place, identifier kept, keeps the table well-formed.
pub proof fn lemma_update_preserves_wf(rows: Seq<Row>, next_id: i64, idx: int, row: Row)
    requires
        rows_wf(rows, next_id),
        0 <= idx < rows.len(),
        row.id == rows[idx].id,
    ensures
        rows_wf(rows.update(idx, row), next_id),
{
    let updated = rows.update(idx, row);
    assert forall|i: int| 0 <= i < updated.len() implies 1 <= (#[trigger] updated[i]).id < next_id by {
        if i != idx {
            assert(updated[i] == rows[i]);
        }
    }
    assert forall|i: int, j: int|
        #![trigger updated[i].id, updated[j].id]
        0 <= i < j < updated.len() implies updated[i].id != updated[j].id by {
        assert(updated[i].id == rows[i].id);
        assert(updated[j].id == rows[j].id);
    }
}

/// Removing a row keeps the table well-formed.
pub proof fn lemma_remove_preserves_wf(rows: Seq<Row>, next_id: i64, idx: int)
    requires
        rows_wf(rows, next_id),
        0 <= idx < rows.len(),
    ensures
        rows_wf(rows.remove(idx), next_id),
{
    let removed = rows.remove(idx);
    assert forall|i: int| 0 <= i < removed.len() implies 1 <= (#[trigger] removed[i]).id < next_id by {
        if i < idx {
            assert(removed[i] == rows[i]);
        } else {
            assert(removed[i] == rows[i + 1]);
        }
    }
    assert forall|i: int, j: int|
        #![trigger removed[i].id, removed[j].id]
        0 <= i < j < removed.len() implies removed[i].id != removed[j].id by {
        if i < idx {
            assert(removed[i] == rows[i]);
        } else {
            assert(removed[i] == rows[i + 1]);
        }
        if j < idx {
            assert(removed[j] == rows[j]);
        } else {
            assert(removed[j] == rows[j + 1]);
        }
    }
}

/// After deleting the row that carried `id` from a well-formed table, no
/// row carries `id` any more: a deleted order is no longer retrievable.
pub proof fn lemma_remove_erases_id(rows: Seq<Row>, next_id: i64, id: i64)
    requires
        rows_wf(rows, next_id),
        contains_id(rows, id),
    ensures
        !contains_id(rows.remove(spec_find_index(rows, id)), id),
{
    let idx = spec_find_index(rows, id);
    lemma_find_index_spec(rows, id);
    let removed = rows.remove(idx);
    assert forall|i: int| 0 <= i < removed.len() implies (#[trigger] removed[i]).id != id by {
        if i < idx {
            assert(removed[i] == rows[i]);
        } else {
            assert(removed[i] == rows[i + 1]);
            assert(rows[idx].id != rows[i + 1].id);
        }
    }
    lemma_find_index_prefix(removed, id, removed.len() as int);
}

/// The table of persisted orders together with its identifier counter.
pub struct Store {
    pub rows: Vec<Row>,
    pub next_id: i64,
}

impl Store {
    /// The store's invariant; every operation preserves it.
    pub open spec fn wf(self) -> bool {
        rows_wf(self.rows@, self.next_id)
    }

    /// Observational equality: same table contents, same counter. All the
    /// store's behaviour is a function of these two.
    pub open spec fn same_state(self, other: Store) -> bool {
        self.rows@ == other.rows@ && self.next_id == other.next_id
    }

    /// An empty store. Identifiers are assigned counting up from 1.
    pub fn new() -> (r: Store)
        ensures
            r.wf(),
            r.rows@ == Seq::<Row>::empty(),
            r.next_id == 1,
    {
        Store { rows: Vec::new(), next_id: 1 }
    }
}

/// Index of the first row of `rows` carrying `id`, if any.
fn find_index(rows: &Vec<Row>, id: i64) -> (r: Option<usize>)
    ensures
        r matches Some(i) ==> i == spec_find_index(rows@, id) && i < rows@.len(),
        r is None ==> spec_find_index(rows@, id) == -1,
{
    let mut i: usize = 0;
    while i < rows.len()
        invariant
            i <= rows@.len(),
            forall|j: int| 0 <= j < i ==> (#[trigger] rows@[j]).id != id,
        decreases rows@.len() - i,
    {
        if rows[i].id == id {
            proof {
                lemma_find_index_prefix(rows@, id, i as int);
            }
            return Some(i);
        }
        i += 1;
    }
    proof {
        lemma_find_index_prefix(rows@, id, rows@.len() as int);
    }
    None
}

impl Order {
    /// Insert-or-update, dispatched on the presence of an identifier.
    ///
    /// An order without an identifier is inserted as a new row and handed
    /// the freshly assigned, previously-unused identifier (the one side
    /// effect on the order itself). An order with an identifier updates
    /// the row carrying it; whether such a row exists is not checked, and
    /// updating a since-deleted identifier is a silent no-op, not an
    /// error. A `StoreError` would stand only for an engine failure, which
    /// this table cannot suffer, so the result here is always `Ok`.
    pub fn save(&mut self, db: &mut Store) -> (r: Result<(), StoreError>)
        requires
            old(db).wf(),
            old(self).id is None ==> old(db).next_id < i64::MAX,
        ensures
            final(db).wf(),
            r is Ok,
            final(self).amount == old(self).amount,
            final(self).status == old(self).status,
            old(self).id is None ==> ({
                let row = Row { id: old(db).next_id, amount: old(self).amount, status: old(self).status };
                &&& final(self).id == Some(old(db).next_id)
                &&& !contains_id(old(db).rows@, old(db).next_id)
                &&& final(db).rows@ == old(db).rows@.push(row)
                &&& final(db).next_id == old(db).next_id + 1
                &&& spec_find(final(db).rows@, old(db).next_id) == Some(row)
            }),
            old(self).id matches Some(id) ==> ({
                let row = Row { id, amount: old(self).amount, status: old(self).status };
                &&& *final(self) == *old(self)
                &&& final(db).next_id == old(db).next_id
                &&& (contains_id(old(db).rows@, id) ==> {
                    &&& final(db).rows@ == old(db).rows@.update(spec_find_index(old(db).rows@, id), row)
                    &&& spec_find(final(db).rows@, id) == Some(row)
                })
                &&& (!contains_id(old(db).rows@, id) ==> final(db).rows@ == old(db).rows@)
            }),
    {
        match self.id {
            None => {
                let row = Row { id: db.next_id, amount: self.amount, status: self.status };
                proof {
                    lemma_fresh_id_unused(db.rows@, db.next_id);
                    lemma_insert_round_trip(db.rows@, db.next_id, self.amount, self.status);
                    lemma_push_preserves_wf(db.rows@, db.next_id, row);
                }
                self.id = Some(db.next_id);
                db.rows.push(row);
                db.next_id = db.next_id + 1;
                Ok(())
            },
            Some(id) => {
                match find_index(&db.rows, id) {
                    Some(i) => {
                        let row = Row { id, amount: self.amount, status: self.status };
                        proof {
                            lemma_find_index_spec(db.rows@, id);
                            lemma_update_preserves_wf(db.rows@, db.next_id, i as int, row);
                            lemma_update_round_trip(db.rows@, id, row);
                        }
                        db.rows[i] = row;
                        Ok(())
                    },
                    None => Ok(()),
                }
            },
        }
    }

    /// Fetch the order persisted under `id`; `None` (not an error) when no
    /// row carries it.
    pub fn get_by_id(db: &Store, id: i64) -> (r: Result<Option<Order>, StoreError>)
        ensures
            r is Ok,
            r->Ok_0 == spec_get_order(db.rows@, id),
    {
        match find_index(&db.rows, id) {
            Some(i) => Ok(Some(db.rows[i].to_order())),
            None => Ok(None),
        }
    }

    /// Fetch every persisted order, in insertion order.
    pub fn get_all(db: &Store) -> (r: Result<Vec<Order>, StoreError>)
        ensures
            r is Ok,
            r->Ok_0@ == spec_orders_of(db.rows@),
    {
        let mut out: Vec<Order> = Vec::new();
        let mut i: usize = 0;
        while i < db.rows.len()
            invariant
                i <= db.rows@.len(),
                out@.len() == i as int,
                forall|j: int| 0 <= j < i ==> out@[j] == (#[trigger] db.rows@[j]).as_order(),
            decreases db.rows@.len() - i,
        {
            out.push(db.rows[i].to_order());
            i += 1;
        }
        proof {
            assert(out@ =~= spec_orders_of(db.rows@));
        }
        Ok(out)
    }

    /// Delete the row carrying `id`. The `bool` says whether a row was
    /// deleted; deleting an absent identifier returns `false`, leaves the
    /// store unchanged, and is not an error.
    pub fn delete_by_id(db: &mut Store, id: i64) -> (r: Result<bool, StoreError>)
        requires
            old(db).wf(),
        ensures
            final(db).wf(),
            r is Ok,
            final(db).next_id == old(db).next_id,
            contains_id(old(db).rows@, id) ==> r->Ok_0 == true
                && final(db).rows@ == old(db).rows@.remove(spec_find_index(old(db).rows@, id)),
            !contains_id(old(db).rows@, id) ==> r->Ok_0 == false && final(db).rows@ == old(db).rows@,
            !contains_id(final(db).rows@, id),
    {
        match find_index(&db.rows, id) {
            Some(i) => {
                proof {
                    lemma_find_index_spec(db.rows@, id);
                    lemma_remove_preserves_wf(db.rows@, db.next_id, i as int);
                    lemma_remove_erases_id(db.rows@, db.next_id, id);
                }
                db.rows.remove(i);
                Ok(true)
            },
            None => Ok(false),
        }
    }
}

} // verus!
