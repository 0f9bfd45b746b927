use vstd::prelude::*;

use crate::statement::{ExprV, ValueV};

verus! {

/// A row as predicates see it: a value for each table-qualified column.
pub type RowV = Map<(Seq<char>, Seq<char>), ValueV>;

/// The value of expression `e` over `row`, where defined: a column lookup
/// needs the column present, a comparison yields a boolean, a conjunction
/// needs boolean operands.
pub open spec fn eval_expr(e: ExprV, row: RowV) -> Option<ValueV>
    decreases e,
{
    match e {
        ExprV::Column(c) => if row.dom().contains((c.table, c.name)) {
            Some(row[(c.table, c.name)])
        } else {
            None
        },
        ExprV::Value(v) => Some(v),
        ExprV::Eq(a, b) => match (eval_expr(*a, row), eval_expr(*b, row)) {
            (Some(x), Some(y)) => Some(ValueV::Bool(x == y)),
            _ => None,
        },
        ExprV::And(a, b) => match (eval_expr(*a, row), eval_expr(*b, row)) {
            (Some(ValueV::Bool(x)), Some(ValueV::Bool(y))) => Some(ValueV::Bool(x && y)),
            _ => None,
        },
        ExprV::CountAll => None,
    }
}

/// Whether predicate `e` holds of `row`: it evaluates to true.
pub open spec fn holds_on(e: ExprV, row: RowV) -> bool {
    eval_expr(e, row) == Some(ValueV::Bool(true))
}

/// What the accumulated WHERE list means: every conjunct holds.
pub open spec fn wheres_hold(ws: Seq<ExprV>, row: RowV) -> bool {
    forall|i: int| 0 <= i < ws.len() ==> holds_on(#[trigger] ws[i], row)
}

/// One more conjunct means: the list so far holds, and so does the new one.
pub proof fn lemma_wheres_push(ws: Seq<ExprV>, a: ExprV, row: RowV)
    ensures
        wheres_hold(ws.push(a), row) == (wheres_hold(ws, row) && holds_on(a, row)),
{
    if wheres_hold(ws.push(a), row) {
        assert forall|i: int| 0 <= i < ws.len() implies holds_on(#[trigger] ws[i], row) by {
            assert(ws.push(a)[i] == ws[i]);
            assert(holds_on(ws.push(a)[i], row));
        }
        assert(ws.push(a)[ws.len() as int] == a);
        assert(holds_on(a, row));
    }
    if wheres_hold(ws, row) && holds_on(a, row) {
        assert forall|i: int| 0 <= i < ws.push(a).len() implies holds_on(
            #[trigger] ws.push(a)[i],
            row,
        ) by {
            if i < ws.len() {
                assert(ws.push(a)[i] == ws[i]);
            } else {
                assert(ws.push(a)[i] == a);
            }
        }
    }
}

/// Appending two filters means exactly AND-ing their conjunction onto what
/// was there: WHERE grows by `a AND b`.
pub proof fn lemma_filters_are_conjunction(ws: Seq<ExprV>, a: ExprV, b: ExprV, row: RowV)
    ensures
        wheres_hold(ws.push(a).push(b), row) == (wheres_hold(ws, row) && holds_on(
            ExprV::And(Box::new(a), Box::new(b)),
            row,
        )),
{
    lemma_wheres_push(ws, a, row);
    lemma_wheres_push(ws.push(a), b, row);
    let both = ExprV::And(Box::new(a), Box::new(b));
    if holds_on(a, row) && holds_on(b, row) {
        assert(eval_expr(both, row) == Some(ValueV::Bool(true)));
    }
    if holds_on(both, row) {
        assert(eval_expr(a, row) is Some);
        assert(eval_expr(b, row) is Some);
    }
}

/// Two filters appended in either order mean the same predicate, though the
/// clause lists keep their textual order.
pub proof fn lemma_filter_order_irrelevant(ws: Seq<ExprV>, a: ExprV, b: ExprV, row: RowV)
    ensures
        wheres_hold(ws.push(a).push(b), row) == wheres_hold(ws.push(b).push(a), row),
{
    lemma_wheres_push(ws, a, row);
    lemma_wheres_push(ws.push(a), b, row);
    lemma_wheres_push(ws, b, row);
    lemma_wheres_push(ws.push(b), a, row);
}

} // verus!
