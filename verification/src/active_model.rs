use vstd::prelude::*;

use crate::error::OrmError;
use crate::statement::{
    is_col_eq_value, str_eq, ColRef, ExprV, InsertStmt, SimpleExpr, UpdateStmt, Value,
    ValueV,
};

verus! {

/// One field of an active model: explicitly assigned for writing, holding
/// its loaded value unchanged, or holding nothing.
#[derive(Clone, Debug, PartialEq)]
pub enum ActiveValue<T> {
    Assigned(T),
    Unchanged(T),
    Unset,
}

impl<T: View> View for ActiveValue<T> {
    type V = ActiveValue<T::V>;

    open spec fn view(&self) -> ActiveValue<T::V> {
        match self {
            ActiveValue::Assigned(v) => ActiveValue::Assigned(v@),
            ActiveValue::Unchanged(v) => ActiveValue::Unchanged(v@),
            ActiveValue::Unset => ActiveValue::Unset,
        }
    }
}

/// The view of a named field list.
pub open spec fn fields_v(fields: Seq<(String, ActiveValue<Value>)>) -> Seq<
    (Seq<char>, ActiveValue<ValueV>),
> {
    fields.map_values(|p: (String, ActiveValue<Value>)| (p.0@, p.1@))
}

/// The SET assignments an insert writes: the explicitly set fields, in
/// declaration order.
pub open spec fn insert_values_s(fields: Seq<(Seq<char>, ActiveValue<ValueV>)>) -> Seq<
    (Seq<char>, ValueV),
>
    decreases fields.len(),
{
    if fields.len() == 0 {
        Seq::empty()
    } else {
        let rest = insert_values_s(fields.drop_last());
        let f = fields.last();
        if f.1 is Assigned {
            rest.push((f.0, f.1->Assigned_0))
        } else {
            rest
        }
    }
}

/// The SET assignments an update writes: the explicitly set fields other
/// than the primary key, in declaration order.
pub open spec fn set_values_s(
    fields: Seq<(Seq<char>, ActiveValue<ValueV>)>,
    pk: Seq<char>,
) -> Seq<(Seq<char>, ValueV)>
    decreases fields.len(),
{
    if fields.len() == 0 {
        Seq::empty()
    } else {
        let rest = set_values_s(fields.drop_last(), pk);
        let f = fields.last();
        if f.1 is Assigned && f.0 != pk {
            rest.push((f.0, f.1->Assigned_0))
        } else {
            rest
        }
    }
}

/// The value the primary-key field holds, set or unchanged: the first field
/// named `pk`, or nothing when it is absent or unset.
pub open spec fn pk_value_s(
    fields: Seq<(Seq<char>, ActiveValue<ValueV>)>,
    pk: Seq<char>,
) -> Option<ValueV>
    decreases fields.len(),
{
    if fields.len() == 0 {
        None
    } else if fields[0].0 == pk {
        match fields[0].1 {
            ActiveValue::Assigned(v) => Some(v),
            ActiveValue::Unchanged(v) => Some(v),
            ActiveValue::Unset => None,
        }
    } else {
        pk_value_s(fields.skip(1), pk)
    }
}

/// Scanning past fields not named `pk` does not change the key lookup.
proof fn lemma_pk_value_skip(
    fields: Seq<(Seq<char>, ActiveValue<ValueV>)>,
    pk: Seq<char>,
    i: int,
)
    requires
        0 <= i <= fields.len(),
        forall|j: int| 0 <= j < i ==> (#[trigger] fields[j]).0 != pk,
    ensures
        pk_value_s(fields, pk) == pk_value_s(fields.skip(i), pk),
    decreases i,
{
    if i > 0 {
        assert(fields[0].0 != pk);
        assert forall|j: int| 0 <= j < i - 1 implies (#[trigger] fields.skip(1)[j]).0 != pk by {
            assert(fields.skip(1)[j] == fields[j + 1]);
        }
        lemma_pk_value_skip(fields.skip(1), pk, i - 1);
        assert(fields.skip(1).skip(i - 1) =~= fields.skip(i));
    } else {
        assert(fields.skip(0) =~= fields);
    }
}

/// Collects the SET assignments of an update or insert: the explicitly set
/// fields in order, leaving out the one named `skip_col` when given.
fn collect_set_values(
    fields: &Vec<(String, ActiveValue<Value>)>,
    skip_col: Option<&str>,
) -> (r: Vec<(String, Value)>)
    ensures
        match skip_col {
            Some(pk) => r@.map_values(|p: (String, Value)| (p.0@, p.1@)) == set_values_s(
                fields_v(fields@),
                pk@,
            ),
            None => r@.map_values(|p: (String, Value)| (p.0@, p.1@)) == insert_values_s(
                fields_v(fields@),
            ),
        },
{
    let mut out: Vec<(String, Value)> = Vec::new();
    let mut i: usize = 0;
    while i < fields.len()
        invariant
            i <= fields.len(),
            match skip_col {
                Some(pk) => out@.map_values(|p: (String, Value)| (p.0@, p.1@)) == set_values_s(
                    fields_v(fields@.take(i as int)),
                    pk@,
                ),
                None => out@.map_values(|p: (String, Value)| (p.0@, p.1@)) == insert_values_s(
                    fields_v(fields@.take(i as int)),
                ),
            },
        decreases fields.len() - i,
    {
        let (name, av) = &fields[i];
        let keep: bool = match av {
            ActiveValue::Assigned(_) => match skip_col {
                Some(pk) => !str_eq(name, pk),
                None => true,
            },
            ActiveValue::Unchanged(_) => false,
            ActiveValue::Unset => false,
        };
        if keep {
            let v = match av {
                ActiveValue::Assigned(v) => v.clone(),
                ActiveValue::Unchanged(v) => v.clone(),
                ActiveValue::Unset => Value::Null,
            };
            out.push((name.clone(), v));
        }
        proof {
            let fv = fields_v(fields@.take(i + 1 as int));
            assert(fields_v(fields@.take(i + 1)).drop_last() =~= fields_v(
                fields@.take(i as int),
            ));
            assert(fv.last() == (fields@[i as int].0@, fields@[i as int].1@));
            assert(out@.map_values(|p: (String, Value)| (p.0@, p.1@)) =~= match skip_col {
                Some(pk) => set_values_s(fields_v(fields@.take(i + 1)), pk@),
                None => insert_values_s(fields_v(fields@.take(i + 1))),
            });
        }
        i += 1;
    }
    proof {
        assert(fields@.take(fields@.len() as int) =~= fields@);
    }
    out
}

/// Looks up the primary key's held value among the fields.
fn find_pk_value(fields: &Vec<(String, ActiveValue<Value>)>, pk_col: &str) -> (r: Option<Value>)
    ensures
        match (r, pk_value_s(fields_v(fields@), pk_col@)) {
            (Some(a), Some(b)) => a@ == b,
            (None, None) => true,
            _ => false,
        },
{
    let ghost fv = fields_v(fields@);
    let mut i: usize = 0;
    while i < fields.len()
        invariant
            i <= fields.len(),
            fv == fields_v(fields@),
            forall|j: int| 0 <= j < i ==> (#[trigger] fv[j]).0 != pk_col@,
        decreases fields.len() - i,
    {
        let (name, av) = &fields[i];
        if str_eq(name, pk_col) {
            proof {
                lemma_pk_value_skip(fv, pk_col@, i as int);
                assert(fv.skip(i as int)[0] == fv[i as int]);
            }
            match av {
                ActiveValue::Assigned(v) => {
                    return Some(v.clone());
                },
                ActiveValue::Unchanged(v) => {
                    return Some(v.clone());
                },
                ActiveValue::Unset => {
                    return None;
                },
            }
        }
        proof {
            assert(fv[i as int].0 != pk_col@);
        }
        i += 1;
    }
    proof {
        lemma_pk_value_skip(fv, pk_col@, fv.len() as int);
        assert(fv.skip(fv.len() as int) =~= Seq::<(Seq<char>, ActiveValue<ValueV>)>::empty());
    }
    None
}

/// Builds the UPDATE an active model stands for: SET every explicitly set
/// non-key field, WHERE the primary key equals its held value. An active
/// model whose primary key holds no value cannot address a row: that is a
/// fault, not a statement.
pub fn build_update(
    table: &str,
    fields: &Vec<(String, ActiveValue<Value>)>,
    pk_col: &str,
) -> (r: Result<UpdateStmt, OrmError>)
    ensures
        match r {
            Ok(u) => {
                &&& pk_value_s(fields_v(fields@), pk_col@) is Some
                &&& u@.table == table@
                &&& u@.values == set_values_s(fields_v(fields@), pk_col@)
                &&& u@.wheres.len() == 1
                &&& is_col_eq_value(
                    u@.wheres[0],
                    table@,
                    pk_col@,
                    pk_value_s(fields_v(fields@), pk_col@)->Some_0,
                )
            },
            Err(e) => {
                &&& pk_value_s(fields_v(fields@), pk_col@) is None
                &&& e == OrmError::PrimaryKeyNotSet
            },
        },
{
    let pk_value = match find_pk_value(fields, pk_col) {
        Some(v) => v,
        None => {
            return Err(OrmError::PrimaryKeyNotSet);
        },
    };
    let values = collect_set_values(fields, Some(pk_col));
    let lhs = SimpleExpr::Column(ColRef { table: table.to_owned(), name: pk_col.to_owned() });
    let rhs = SimpleExpr::Value(pk_value);
    proof {
        assert(lhs@ is Column);
        assert(rhs@ is Value);
    }
    let cond = SimpleExpr::Eq(Box::new(lhs), Box::new(rhs));
    let mut wheres: Vec<SimpleExpr> = Vec::new();
    wheres.push(cond);
    let u = UpdateStmt { table: table.to_owned(), values, wheres };
    proof {
        assert(u@.wheres =~= seq![cond@]);
        assert(u@.values =~= set_values_s(fields_v(fields@), pk_col@));
    }
    Ok(u)
}

/// Builds the INSERT an active model stands for: it writes every explicitly
/// set field and no other; omitted fields take database defaults.
pub fn build_insert(table: &str, fields: &Vec<(String, ActiveValue<Value>)>) -> (r:
    InsertStmt)
    ensures
        r@.table == table@,
        r@.values == insert_values_s(fields_v(fields@)),
{
    let values = collect_set_values(fields, None);
    let r = InsertStmt { table: table.to_owned(), values };
    proof {
        assert(r@.values =~= insert_values_s(fields_v(fields@)));
    }
    r
}

} // verus!
