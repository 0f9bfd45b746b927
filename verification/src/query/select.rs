use core::marker::PhantomData;
use vstd::prelude::*;

use crate::entity::{
    arity, ColumnTrait, EntityName, EntityTrait, Iden, Identity, IdentityV, Iterable, ModelTrait,
    PrimaryKeyTrait, RelationDef, RelationDefV, RelationTrait,
};
use crate::error::OrmError;
use crate::statement::{
    is_col_eq_col, is_col_eq_value, str_eq, ColRef, ColRefV, ExprV, JoinExpr, JoinExprV,
    JoinType, Order, OrderExpr, OrderExprV, SelectExpr, SelectExprV, SelectStmt,
    SimpleExpr, StmtV,
};

verus! {

/// A query builder over one root entity. It owns the statement in progress;
/// every operation consumes the builder and returns the extended one.
pub struct Select<E> where E: EntityTrait {
    pub query: SelectStmt,
    pub entity: PhantomData<E>,
}

/// A query builder whose rows pair two entities, built by joining a second
/// entity onto a [`Select`] and appending its projection.
pub struct SelectTwo<E, F> where E: EntityTrait, F: EntityTrait {
    pub query: SelectStmt,
    pub entity: PhantomData<(E, F)>,
}

/// Anything that stands for a simple expression: a column reference or an
/// already-built expression.
pub trait IntoSimpleExpr: Sized {
    /// The expression at spec level.
    spec fn into_simple_expr_s(self) -> ExprV;

    /// Turns the value into the expression it stands for.
    fn into_simple_expr(self) -> (r: SimpleExpr)
        ensures
            r@ == self.into_simple_expr_s(),
    ;
}

impl<C> IntoSimpleExpr for C where C: ColumnTrait {
    open spec fn into_simple_expr_s(self) -> ExprV {
        ExprV::Column(
            ColRefV { table: <C::EntityName as EntityName>::table_name_s(), name: self.name_s() },
        )
    }

    fn into_simple_expr(self) -> (r: SimpleExpr) {
        SimpleExpr::Column(self.as_column_ref())
    }
}

impl IntoSimpleExpr for SimpleExpr {
    open spec fn into_simple_expr_s(self) -> ExprV {
        self@
    }

    fn into_simple_expr(self) -> (r: SimpleExpr) {
        self
    }
}

/// The projected expression standing for one column: table-qualified, no alias.
pub open spec fn col_select<C: ColumnTrait>(c: C) -> SelectExprV {
    SelectExprV {
        expr: ExprV::Column(
            ColRefV { table: <C::EntityName as EntityName>::table_name_s(), name: c.name_s() },
        ),
        alias: None,
    }
}

/// The default projection of an entity: its columns in declaration order.
pub open spec fn projection_of<C: ColumnTrait>() -> Seq<SelectExprV> {
    C::variants().map_values(|c: C| col_select(c))
}

/// Holds when `q` is the statement [`find`] starts from: FROM the entity's
/// table, the default projection, and every other clause empty.
pub open spec fn fresh_select<E: EntityTrait>(q: StmtV) -> bool {
    &&& q.selects == projection_of::<E::Column>()
    &&& q.from == Some(E::table_name_s())
    &&& q.joins =~= Seq::<JoinExprV>::empty()
    &&& q.wheres =~= Seq::<ExprV>::empty()
    &&& q.groups =~= Seq::<ExprV>::empty()
    &&& q.orders =~= Seq::<OrderExprV>::empty()
    &&& q.limit is None
    &&& q.offset is None
}

/// Everything but the projection agrees.
pub open spec fn same_but_selects(a: StmtV, b: StmtV) -> bool {
    b == StmtV { selects: b.selects, ..a }
}

/// Everything but the WHERE conjuncts agrees.
pub open spec fn same_but_wheres(a: StmtV, b: StmtV) -> bool {
    b == StmtV { wheres: b.wheres, ..a }
}

/// Everything but the JOIN clauses agrees.
pub open spec fn same_but_joins(a: StmtV, b: StmtV) -> bool {
    b == StmtV { joins: b.joins, ..a }
}

/// Everything but the GROUP BY keys agrees.
pub open spec fn same_but_groups(a: StmtV, b: StmtV) -> bool {
    b == StmtV { groups: b.groups, ..a }
}

/// Everything but the ORDER BY keys agrees.
pub open spec fn same_but_orders(a: StmtV, b: StmtV) -> bool {
    b == StmtV { orders: b.orders, ..a }
}

/// The relation read in the opposite direction: sides swapped.
pub open spec fn rev_def(d: RelationDefV) -> RelationDefV {
    RelationDefV {
        rel_type: d.rel_type,
        from_tbl: d.to_tbl,
        to_tbl: d.from_tbl,
        from_col: d.to_col,
        to_col: d.from_col,
    }
}

/// Holds when `post` extends `pre` with one JOIN clause derived from `d`:
/// the requested kind, the target table, and ON pairing the owning-side
/// column with the target-side column.
pub open spec fn join_ok(pre: StmtV, post: StmtV, kind: JoinType, d: RelationDefV) -> bool {
    &&& arity(d.from_col) == 1
    &&& arity(d.to_col) == 1
    &&& post.joins.len() == pre.joins.len() + 1
    &&& post.joins.take(pre.joins.len() as int) == pre.joins
    &&& post.joins.last().kind == kind
    &&& post.joins.last().table == d.to_tbl
    &&& is_col_eq_col(
        post.joins.last().on,
        d.from_tbl,
        d.from_col->Unary_0,
        d.to_tbl,
        d.to_col->Unary_0,
    )
    &&& same_but_joins(pre, post)
}

/// The fault reported for a relation whose identities admit no ON condition.
pub open spec fn join_err(d: RelationDefV) -> OrmError {
    if arity(d.from_col) != arity(d.to_col) {
        OrmError::RelationArityMismatch
    } else {
        OrmError::CompositeKeyUnsupported
    }
}

/// The first relation among `rels` whose target table is `t`.
pub open spec fn first_rel_to<R: RelationTrait>(rels: Seq<R>, t: Seq<char>) -> Option<R>
    decreases rels.len(),
{
    if rels.len() == 0 {
        None
    } else if rels[0].def_s().to_tbl == t {
        Some(rels[0])
    } else {
        first_rel_to(rels.skip(1), t)
    }
}

/// Scanning past a prefix without a match does not change the result.
proof fn lemma_first_rel_skip<R: RelationTrait>(rels: Seq<R>, t: Seq<char>, i: int)
    requires
        0 <= i <= rels.len(),
        forall|j: int| 0 <= j < i ==> (#[trigger] rels[j]).def_s().to_tbl != t,
    ensures
        first_rel_to(rels, t) == first_rel_to(rels.skip(i), t),
    decreases i,
{
    if i > 0 {
        assert(rels[0].def_s().to_tbl != t);
        assert forall|j: int| 0 <= j < i - 1 implies (#[trigger] rels.skip(1)[j]).def_s().to_tbl
            != t by {
            assert(rels.skip(1)[j] == rels[j + 1]);
        }
        lemma_first_rel_skip(rels.skip(1), t, i - 1);
        assert(rels.skip(1).skip(i - 1) =~= rels.skip(i));
    } else {
        assert(rels.skip(0) =~= rels);
    }
}

/// Starts a query over `E`: FROM its table, projecting its columns in
/// declaration order, table-qualified.
pub fn find<E: EntityTrait>() -> (r: Select<E>)
    ensures
        fresh_select::<E>(r.query@),
{
    Select::new()
}

impl<E> Select<E> where E: EntityTrait {
    pub(crate) fn new() -> (r: Self)
        ensures
            fresh_select::<E>(r.query@),
    {
        let mut stmt = SelectStmt::new();
        stmt.from = Some(E::table_name().to_owned());
        let cols = <E::Column as Iterable>::iter();
        let ghost all: Seq<E::Column> = <E::Column as Iterable>::variants();
        let mut i: usize = 0;
        while i < cols.len()
            invariant
                i <= cols.len(),
                cols@ == all,
                all == <E::Column as Iterable>::variants(),
                stmt@.selects.len() == i,
                forall|j: int| 0 <= j < i ==> #[trigger] stmt@.selects[j] == col_select(all[j]),
                stmt@.from == Some(E::table_name_s()),
                stmt@.joins =~= Seq::<JoinExprV>::empty(),
                stmt@.wheres =~= Seq::<ExprV>::empty(),
                stmt@.groups =~= Seq::<ExprV>::empty(),
                stmt@.orders =~= Seq::<OrderExprV>::empty(),
                stmt@.limit is None,
                stmt@.offset is None,
            decreases cols.len() - i,
        {
            let ghost snap = stmt@.selects;
            let c = cols[i];
            let cr = c.as_column_ref();
            let e = SimpleExpr::Column(cr);
            proof {
                assert(e@ is Column);
            }
            let sel = SelectExpr { expr: e, alias: None };
            proof {
                assert(sel@ == col_select(all[i as int]));
            }
            stmt.selects.push(sel);
            proof {
                assert(stmt@.selects =~= snap.push(sel@));
                assert forall|j: int| 0 <= j < i + 1 implies #[trigger] stmt@.selects[j]
                    == col_select(all[j]) by {
                    if j < i {
                        assert(snap[j] == col_select(all[j]));
                    }
                }
            }
            i += 1;
        }
        proof {
            assert forall|j: int| 0 <= j < all.len() implies #[trigger] projection_of::<
                E::Column,
            >()[j] == stmt@.selects[j] by {
                assert(projection_of::<E::Column>()[j] == col_select(all[j]));
            }
            assert(stmt@.selects =~= projection_of::<E::Column>());
        }
        Select { query: stmt, entity: PhantomData }
    }

    /// Clears the projection, so later `column` / `column_as` calls control it
    /// fully.
    pub fn select_only(self) -> (r: Self)
        ensures
            r.query@.selects =~= Seq::<SelectExprV>::empty(),
            same_but_selects(self.query@, r.query@),
    {
        let mut s = self;
        s.query.selects = Vec::new();
        proof {
            assert(s.query@.selects =~= Seq::<SelectExprV>::empty());
        }
        s
    }

    /// Appends one projected expression, unaliased.
    pub fn column<C: IntoSimpleExpr>(self, col: C) -> (r: Self)
        ensures
            r.query@.selects == self.query@.selects.push(
                SelectExprV { expr: col.into_simple_expr_s(), alias: None },
            ),
            same_but_selects(self.query@, r.query@),
    {
        let mut s = self;
        let e = col.into_simple_expr();
        s.query.selects.push(SelectExpr { expr: e, alias: None });
        proof {
            assert(s.query@.selects =~= self.query@.selects.push(
                SelectExprV { expr: col.into_simple_expr_s(), alias: None },
            ));
        }
        s
    }

    /// Appends one projected expression under an alias.
    pub fn column_as<C: IntoSimpleExpr>(self, col: C, alias: &str) -> (r: Self)
        ensures
            r.query@.selects == self.query@.selects.push(
                SelectExprV { expr: col.into_simple_expr_s(), alias: Some(alias@) },
            ),
            same_but_selects(self.query@, r.query@),
    {
        let mut s = self;
        let e = col.into_simple_expr();
        s.query.selects.push(SelectExpr { expr: e, alias: Some(alias.to_owned()) });
        proof {
            assert(s.query@.selects =~= self.query@.selects.push(
                SelectExprV { expr: col.into_simple_expr_s(), alias: Some(alias@) },
            ));
        }
        s
    }

    /// Appends one WHERE conjunct; conjuncts accumulate with AND in call
    /// order.
    pub fn filter<C: IntoSimpleExpr>(self, expr: C) -> (r: Self)
        ensures
            r.query@.wheres == self.query@.wheres.push(expr.into_simple_expr_s()),
            same_but_wheres(self.query@, r.query@),
    {
        let mut s = self;
        let e = expr.into_simple_expr();
        s.query.wheres.push(e);
        proof {
            assert(s.query@.wheres =~= self.query@.wheres.push(expr.into_simple_expr_s()));
        }
        s
    }

    /// Appends one GROUP BY key.
    pub fn group_by<C: IntoSimpleExpr>(self, expr: C) -> (r: Self)
        ensures
            r.query@.groups == self.query@.groups.push(expr.into_simple_expr_s()),
            same_but_groups(self.query@, r.query@),
    {
        let mut s = self;
        let e = expr.into_simple_expr();
        s.query.groups.push(e);
        proof {
            assert(s.query@.groups =~= self.query@.groups.push(expr.into_simple_expr_s()));
        }
        s
    }

    /// Appends one ascending ORDER BY key; earlier keys stay primary.
    pub fn order_by<C: IntoSimpleExpr>(self, expr: C) -> (r: Self)
        ensures
            r.query@.orders == self.query@.orders.push(
                OrderExprV { expr: expr.into_simple_expr_s(), order: Order::Asc },
            ),
            same_but_orders(self.query@, r.query@),
    {
        self.order_by_with(expr, Order::Asc)
    }

    /// Appends one descending ORDER BY key; earlier keys stay primary.
    pub fn order_by_desc<C: IntoSimpleExpr>(self, expr: C) -> (r: Self)
        ensures
            r.query@.orders == self.query@.orders.push(
                OrderExprV { expr: expr.into_simple_expr_s(), order: Order::Desc },
            ),
            same_but_orders(self.query@, r.query@),
    {
        self.order_by_with(expr, Order::Desc)
    }

    fn order_by_with<C: IntoSimpleExpr>(self, expr: C, order: Order) -> (r: Self)
        ensures
            r.query@.orders == self.query@.orders.push(
                OrderExprV { expr: expr.into_simple_expr_s(), order: order },
            ),
            same_but_orders(self.query@, r.query@),
    {
        let mut s = self;
        let e = expr.into_simple_expr();
        s.query.orders.push(OrderExpr { expr: e, order });
        proof {
            assert(s.query@.orders =~= self.query@.orders.push(
                OrderExprV { expr: expr.into_simple_expr_s(), order: order },
            ));
        }
        s
    }

    /// Appends one JOIN clause derived from `d`, pairing the owning-side and
    /// target-side columns positionally. Only single-column identities admit
    /// an ON condition; anything else is a declaration fault.
    pub fn join(self, kind: JoinType, d: RelationDef) -> (r: Result<Self, OrmError>)
        ensures
            match r {
                Ok(s) => join_ok(self.query@, s.query@, kind, d@),
                Err(e) => {
                    &&& !(arity(d@.from_col) == 1 && arity(d@.to_col) == 1)
                    &&& e == join_err(d@)
                },
            },
    {
        let RelationDef { rel_type: _, from_tbl, to_tbl, from_col, to_col } = d;
        match (from_col, to_col) {
            (Identity::Unary(fc), Identity::Unary(tc)) => {
                let mut s = self;
                let table = to_tbl.clone();
                let lhs = SimpleExpr::Column(ColRef { table: from_tbl, name: fc });
                let rhs = SimpleExpr::Column(ColRef { table: to_tbl, name: tc });
                proof {
                    assert(lhs@ is Column);
                    assert(rhs@ is Column);
                }
                let on = SimpleExpr::Eq(Box::new(lhs), Box::new(rhs));
                s.query.joins.push(JoinExpr { kind, table, on });
                proof {
                    assert(s.query@.joins.take(self.query@.joins.len() as int) =~= self.query@.joins);
                }
                Ok(s)
            },
            (Identity::Unary(_), Identity::Binary(_, _)) => Err(OrmError::RelationArityMismatch),
            (Identity::Binary(_, _), Identity::Unary(_)) => Err(OrmError::RelationArityMismatch),
            (Identity::Binary(_, _), Identity::Binary(_, _)) => Err(
                OrmError::CompositeKeyUnsupported,
            ),
        }
    }

    /// LEFT JOIN along the given relation of the root entity.
    pub fn left_join(self, rel: E::Relation) -> (r: Result<Self, OrmError>)
        ensures
            match r {
                Ok(s) => join_ok(self.query@, s.query@, JoinType::Left, rel.def_s()),
                Err(e) => {
                    &&& !(arity(rel.def_s().from_col) == 1 && arity(rel.def_s().to_col) == 1)
                    &&& e == join_err(rel.def_s())
                },
            },
    {
        self.join(JoinType::Left, rel.def())
    }

    /// RIGHT JOIN along the given relation of the root entity.
    pub fn right_join(self, rel: E::Relation) -> (r: Result<Self, OrmError>)
        ensures
            match r {
                Ok(s) => join_ok(self.query@, s.query@, JoinType::Right, rel.def_s()),
                Err(e) => {
                    &&& !(arity(rel.def_s().from_col) == 1 && arity(rel.def_s().to_col) == 1)
                    &&& e == join_err(rel.def_s())
                },
            },
    {
        self.join(JoinType::Right, rel.def())
    }

    /// INNER JOIN along the given relation of the root entity.
    pub fn inner_join(self, rel: E::Relation) -> (r: Result<Self, OrmError>)
        ensures
            match r {
                Ok(s) => join_ok(self.query@, s.query@, JoinType::Inner, rel.def_s()),
                Err(e) => {
                    &&& !(arity(rel.def_s().from_col) == 1 && arity(rel.def_s().to_col) == 1)
                    &&& e == join_err(rel.def_s())
                },
            },
    {
        self.join(JoinType::Inner, rel.def())
    }

    /// INNER JOIN along a relation that another entity `O` declares towards
    /// this one, read in reverse: the joined table is `O`'s, and the ON
    /// condition is the relation's, sides swapped.
    pub fn reverse_join<O: EntityTrait>(self, rel: O::Relation) -> (r: Result<Self, OrmError>)
        ensures
            match r {
                Ok(s) => {
                    &&& rel.def_s().to_tbl == E::table_name_s()
                    &&& join_ok(self.query@, s.query@, JoinType::Inner, rev_def(rel.def_s()))
                },
                Err(e) => if rel.def_s().to_tbl != E::table_name_s() {
                    e == OrmError::RelationNotFound
                } else {
                    &&& !(arity(rel.def_s().from_col) == 1 && arity(rel.def_s().to_col) == 1)
                    &&& e == join_err(rev_def(rel.def_s()))
                },
            },
    {
        let d = rel.def();
        if !str_eq(&d.to_tbl, E::table_name()) {
            return Err(OrmError::RelationNotFound);
        }
        let rev = RelationDef {
            rel_type: d.rel_type,
            from_tbl: d.to_tbl,
            to_tbl: d.from_tbl,
            from_col: d.to_col,
            to_col: d.from_col,
        };
        self.join(JoinType::Inner, rev)
    }

    /// Filters this query down to the rows related to one loaded `R` model:
    /// appends WHERE `own_column = model's primary-key value`, where
    /// `own_column` is the target-side column of the first relation `R`
    /// declares towards this entity. `R` must have exactly one primary-key
    /// column, and the target-side identity must be single-column.
    pub fn belongs_to<R: EntityTrait>(self, model: &R::Model) -> (r: Result<Self, OrmError>)
        ensures
            ({
                let pks = <R::PrimaryKey as Iterable>::variants();
                let rel = first_rel_to(<R::Relation as Iterable>::variants(), E::table_name_s());
                match r {
                    Ok(s) => {
                        &&& pks.len() == 1
                        &&& rel is Some
                        &&& rel->Some_0.def_s().to_col is Unary
                        &&& s.query@.wheres.len() == self.query@.wheres.len() + 1
                        &&& s.query@.wheres.take(self.query@.wheres.len() as int)
                            == self.query@.wheres
                        &&& is_col_eq_value(
                            s.query@.wheres.last(),
                            E::table_name_s(),
                            rel->Some_0.def_s().to_col->Unary_0,
                            model.get_s(pks[0].into_column_s()),
                        )
                        &&& same_but_wheres(self.query@, s.query@)
                    },
                    Err(e) => if pks.len() == 0 {
                        e == OrmError::PrimaryKeyNotSet
                    } else if pks.len() > 1 {
                        e == OrmError::CompositeKeyUnsupported
                    } else if rel is None {
                        e == OrmError::RelationNotFound
                    } else {
                        &&& !(rel->Some_0.def_s().to_col is Unary)
                        &&& e == OrmError::CompositeKeyUnsupported
                    },
                }
            }),
    {
        let pks = <R::PrimaryKey as Iterable>::iter();
        if pks.len() == 0 {
            return Err(OrmError::PrimaryKeyNotSet);
        }
        if pks.len() > 1 {
            return Err(OrmError::CompositeKeyUnsupported);
        }
        proof {
            assert(pks@ == <R::PrimaryKey as Iterable>::variants());
            assert(<R::PrimaryKey as Iterable>::variants().len() == 1);
        }
        let pk_col = pks[0].into_column();
        let rels = <R::Relation as Iterable>::iter();
        let ghost all: Seq<R::Relation> = <R::Relation as Iterable>::variants();
        let table = E::table_name();
        let mut i: usize = 0;
        while i < rels.len()
            invariant
                i <= rels.len(),
                rels@ == all,
                all == <R::Relation as Iterable>::variants(),
                <R::PrimaryKey as Iterable>::variants().len() == 1,
                pk_col == <R::PrimaryKey as Iterable>::variants()[0].into_column_s(),
                forall|j: int| 0 <= j < i ==> (#[trigger] all[j]).def_s().to_tbl
                    != E::table_name_s(),
                table@ == E::table_name_s(),
            decreases rels.len() - i,
        {
            let d = rels[i].def();
            if str_eq(&d.to_tbl, table) {
                proof {
                    lemma_first_rel_skip(all, E::table_name_s(), i as int);
                    assert(all.skip(i as int)[0] == all[i as int]);
                    assert(first_rel_to(all.skip(i as int), E::table_name_s())
                        == Some(all[i as int]));
                    assert(first_rel_to(all, E::table_name_s()) == Some(all[i as int]));
                }
                match d.to_col {
                    Identity::Unary(own) => {
                        proof {
                            assert(all[i as int].def_s().to_col == IdentityV::Unary(own@));
                        }
                        let v = model.get(pk_col);
                        let lhs = SimpleExpr::Column(ColRef { table: table.to_owned(), name: own });
                        let rhs = SimpleExpr::Value(v);
                        proof {
                            assert(lhs@ is Column);
                            assert(rhs@ == ExprV::Value(v@));
                        }
                        let on = SimpleExpr::Eq(Box::new(lhs), Box::new(rhs));
                        let mut s = self;
                        s.query.wheres.push(on);
                        proof {
                            assert(s.query@.wheres.take(self.query@.wheres.len() as int)
                                =~= self.query@.wheres);
                            assert(s.query@.wheres.last() == on@);
                            assert(is_col_eq_value(
                                on@,
                                E::table_name_s(),
                                all[i as int].def_s().to_col->Unary_0,
                                v@,
                            ));
                        }
                        return Ok(s);
                    },
                    Identity::Binary(_, _) => {
                        return Err(OrmError::CompositeKeyUnsupported);
                    },
                }
            }
            proof {
                assert(all[i as int].def_s().to_tbl != E::table_name_s());
            }
            i += 1;
        }
        proof {
            lemma_first_rel_skip(all, E::table_name_s(), all.len() as int);
            assert(all.skip(all.len() as int) =~= Seq::<R::Relation>::empty());
        }
        Err(OrmError::RelationNotFound)
    }

    /// Joins a second entity's default projection onto this query, pairing
    /// the two entities in the result rows.
    pub fn select_also<F: EntityTrait>(self) -> (r: SelectTwo<E, F>)
        ensures
            r.query@.selects == self.query@.selects + projection_of::<F::Column>(),
            same_but_selects(self.query@, r.query@),
    {
        let mut s = self;
        let cols = <F::Column as Iterable>::iter();
        let ghost all: Seq<F::Column> = <F::Column as Iterable>::variants();
        let ghost pre: Seq<SelectExprV> = s.query@.selects;
        let mut i: usize = 0;
        while i < cols.len()
            invariant
                i <= cols.len(),
                cols@ == all,
                all == <F::Column as Iterable>::variants(),
                pre == self.query@.selects,
                s.query@.selects.len() == pre.len() + i,
                s.query@.selects.take(pre.len() as int) == pre,
                forall|j: int| 0 <= j < i ==> #[trigger] s.query@.selects[pre.len() + j]
                    == col_select(all[j]),
                same_but_selects(self.query@, s.query@),
            decreases cols.len() - i,
        {
            let ghost snap = s.query@.selects;
            let c = cols[i];
            let cr = c.as_column_ref();
            let e = SimpleExpr::Column(cr);
            proof {
                assert(e@ is Column);
            }
            let sel = SelectExpr { expr: e, alias: None };
            proof {
                assert(sel@ == col_select(all[i as int]));
            }
            s.query.selects.push(sel);
            proof {
                assert(s.query@.selects =~= snap.push(sel@));
                assert(s.query@.selects.take(pre.len() as int) =~= pre);
                assert forall|j: int| 0 <= j < i + 1 implies #[trigger] s.query@.selects[pre.len()
                    + j] == col_select(all[j]) by {
                    if j < i {
                        assert(snap[pre.len() + j] == col_select(all[j]));
                    }
                }
            }
            i += 1;
        }
        proof {
            assert forall|j: int| 0 <= j < (pre + projection_of::<F::Column>()).len() implies (pre
                + projection_of::<F::Column>())[j] == #[trigger] s.query@.selects[j] by {
                if j < pre.len() {
                    assert(s.query@.selects.take(pre.len() as int)[j] == s.query@.selects[j]);
                } else {
                    let jj: int = j - pre.len();
                    assert(s.query@.selects[pre.len() + jj] == col_select(all[jj]));
                    assert(projection_of::<F::Column>()[jj] == col_select(all[jj]));
                }
            }
            assert(s.query@.selects =~= pre + projection_of::<F::Column>());
        }
        SelectTwo { query: s.query, entity: PhantomData }
    }

    /// Mutable access to the statement in progress.
    pub fn query(&mut self) -> (r: &mut SelectStmt)
        ensures
            *r == old(self).query,
            final(self).query == *final(r),
    {
        &mut self.query
    }

    /// A view of the statement in progress.
    pub fn as_query(&self) -> (r: &SelectStmt)
        ensures
            *r == self.query,
    {
        &self.query
    }

    /// Finalizes the builder into its statement.
    pub fn into_query(self) -> (r: SelectStmt)
        ensures
            r == self.query,
    {
        self.query
    }
}

impl<E, F> SelectTwo<E, F> where E: EntityTrait, F: EntityTrait {
    /// Mutable access to the statement in progress.
    pub fn query(&mut self) -> (r: &mut SelectStmt)
        ensures
            *r == old(self).query,
            final(self).query == *final(r),
    {
        &mut self.query
    }

    /// A view of the statement in progress.
    pub fn as_query(&self) -> (r: &SelectStmt)
        ensures
            *r == self.query,
    {
        &self.query
    }

    /// Finalizes the builder into its statement.
    pub fn into_query(self) -> (r: SelectStmt)
        ensures
            r == self.query,
    {
        self.query
    }
}

} // verus!
