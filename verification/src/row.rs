use vstd::prelude::*;

use crate::statement::{str_eq, Value, ValueV};

verus! {

/// One result row as the decoder receives it: column names and values, in
/// the order the statement projected them.
pub type QueryRow = Vec<(String, Value)>;

/// The view of a result row.
pub open spec fn row_v(row: Seq<(String, Value)>) -> Seq<(Seq<char>, ValueV)> {
    row.map_values(|p: (String, Value)| (p.0@, p.1@))
}

/// The first value under `name` in a row, if any.
pub open spec fn lookup_s(row: Seq<(Seq<char>, ValueV)>, name: Seq<char>) -> Option<ValueV>
    decreases row.len(),
{
    if row.len() == 0 {
        None
    } else if row[0].0 == name {
        Some(row[0].1)
    } else {
        lookup_s(row.skip(1), name)
    }
}

/// Scanning past columns under other names does not change a lookup.
proof fn lemma_lookup_skip(row: Seq<(Seq<char>, ValueV)>, name: Seq<char>, i: int)
    requires
        0 <= i <= row.len(),
        forall|j: int| 0 <= j < i ==> (#[trigger] row[j]).0 != name,
    ensures
        lookup_s(row, name) == lookup_s(row.skip(i), name),
    decreases i,
{
    if i > 0 {
        assert(row[0].0 != name);
        assert forall|j: int| 0 <= j < i - 1 implies (#[trigger] row.skip(1)[j]).0 != name by {
            assert(row.skip(1)[j] == row[j + 1]);
        }
        lemma_lookup_skip(row.skip(1), name, i - 1);
        assert(row.skip(1).skip(i - 1) =~= row.skip(i));
    } else {
        assert(row.skip(0) =~= row);
    }
}

/// The first value under `name` in a result row, if any.
pub fn lookup(row: &QueryRow, name: &str) -> (r: Option<Value>)
    ensures
        match (r, lookup_s(row_v(row@), name@)) {
            (Some(a), Some(b)) => a@ == b,
            (None, None) => true,
            _ => false,
        },
{
    let ghost rv = row_v(row@);
    let mut i: usize = 0;
    while i < row.len()
        invariant
            i <= row.len(),
            rv == row_v(row@),
            forall|j: int| 0 <= j < i ==> (#[trigger] rv[j]).0 != name@,
        decreases row.len() - i,
    {
        let (col, v) = &row[i];
        if str_eq(col, name) {
            proof {
                lemma_lookup_skip(rv, name@, i as int);
                assert(rv.skip(i as int)[0] == rv[i as int]);
            }
            return Some(v.clone());
        }
        proof {
            assert(rv[i as int].0 != name@);
        }
        i += 1;
    }
    proof {
        lemma_lookup_skip(rv, name@, rv.len() as int);
        assert(rv.skip(rv.len() as int) =~= Seq::<(Seq<char>, ValueV)>::empty());
    }
    None
}

} // verus!
