//! Synchronisation of the small reference tables (countries, document
//! types, free-text values): rows are upserted by id, values compared in
//! upper case, and nothing is deleted.
use vstd::prelude::*;
use crate::text::{to_upper, upper_of};

verus! {

/// One row of a reference table.
#[derive(Debug, Clone, PartialEq, Eq)]
pub struct ReferenceRow {
    pub id: i32,
    pub value: String,
}

/// The write that one reference value calls for.
#[derive(Debug, Clone, PartialEq, Eq)]
pub enum ReferenceWrite {
    /// No row with that id: insert this one.
    Insert(ReferenceRow),
    /// The row holds another value: overwrite it with this one.
    Update(ReferenceRow),
    /// The row holds that value already.
    Nothing,
}

/// No two stored rows share an id.
pub open spec fn unique_ids(rows: Seq<ReferenceRow>) -> bool {
    forall|i: int, j: int|
        0 <= i < rows.len() && 0 <= j < rows.len() && i != j ==> rows[i].id != rows[j].id
}

/// Whether some stored row has id `id`.
pub open spec fn has_id(rows: Seq<ReferenceRow>, id: i32) -> bool {
    exists|i: int| 0 <= i < rows.len() && rows[i].id == id
}

/// The stored row with id `id`.
pub open spec fn row_with_id(rows: Seq<ReferenceRow>, id: i32) -> ReferenceRow
    recommends
        has_id(rows, id),
{
    rows[choose|i: int| 0 <= i < rows.len() && rows[i].id == id]
}

/// The write that value `value` (already in upper case) under id `id` calls for.
pub open spec fn reference_write_ok(r: ReferenceWrite, id: i32, value: Seq<char>, rows: Seq<ReferenceRow>) -> bool {
    if !has_id(rows, id) {
        r matches ReferenceWrite::Insert(n) && n.id == id && n.value@ == value
    } else if row_with_id(rows, id).value@ == value {
        r is Nothing
    } else {
        r matches ReferenceWrite::Update(n) && n.id == id && n.value@ == value
    }
}

/// The write that a reference value, already put in upper case, calls for
/// against the stored rows.
pub fn plan_reference_upper(id: i32, value: String, rows: &Vec<ReferenceRow>) -> (r: ReferenceWrite)
    requires
        unique_ids(rows@),
    ensures
        reference_write_ok(r, id, value@, rows@),
{
    let mut i: usize = 0;
    while i < rows.len()
        invariant
            0 <= i <= rows.len(),
            unique_ids(rows@),
            forall|j: int| 0 <= j < i ==> rows@[j].id != id,
        decreases rows.len() - i,
    {
        if rows[i].id == id {
            assert(has_id(rows@, id));
            assert(row_with_id(rows@, id) == rows@[i as int]) by {
                let k = choose|k: int| 0 <= k < rows@.len() && rows@[k].id == id;
                assert(k == i);
            }
            if rows[i].value == value {
                return ReferenceWrite::Nothing;
            }
            return ReferenceWrite::Update(ReferenceRow { id, value });
        }
        i = i + 1;
    }
    ReferenceWrite::Insert(ReferenceRow { id, value })
}

/// The write that a reference value calls for against the stored rows, its
/// text compared in upper case.
pub fn plan_reference(id: i32, value: &str, rows: &Vec<ReferenceRow>) -> (r: ReferenceWrite)
    requires
        unique_ids(rows@),
    ensures
        reference_write_ok(r, id, upper_of(value@), rows@),
{
    let upper = to_upper(value);
    plan_reference_upper(id, upper, rows)
}

} // verus!
