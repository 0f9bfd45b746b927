use vstd::prelude::*;

verus! {

/// A plain SQL value carried through statements and result rows.
#[derive(Debug, PartialEq)]
pub enum Value {
    Int(i64),
    Text(String),
    Bool(bool),
    Null,
}

/// Spec-level mirror of [`Value`].
pub enum ValueV {
    Int(i64),
    Text(Seq<char>),
    Bool(bool),
    Null,
}

impl View for Value {
    type V = ValueV;

    open spec fn view(&self) -> ValueV {
        match self {
            Value::Int(i) => ValueV::Int(*i),
            Value::Text(s) => ValueV::Text(s@),
            Value::Bool(b) => ValueV::Bool(*b),
            Value::Null => ValueV::Null,
        }
    }
}

impl Clone for Value {
    fn clone(&self) -> (r: Self)
        ensures
            r@ == self@,
    {
        match self {
            Value::Int(i) => Value::Int(*i),
            Value::Text(s) => Value::Text(s.clone()),
            Value::Bool(b) => Value::Bool(*b),
            Value::Null => Value::Null,
        }
    }
}

/// A table-qualified column reference.
#[derive(Debug, PartialEq)]
pub struct ColRef {
    pub table: String,
    pub name: String,
}

/// Spec-level mirror of [`ColRef`].
pub struct ColRefV {
    pub table: Seq<char>,
    pub name: Seq<char>,
}

impl View for ColRef {
    type V = ColRefV;

    open spec fn view(&self) -> ColRefV {
        ColRefV { table: self.table@, name: self.name@ }
    }
}

impl Clone for ColRef {
    fn clone(&self) -> (r: Self)
        ensures
            r@ == self@,
    {
        ColRef { table: self.table.clone(), name: self.name.clone() }
    }
}

/// A dialect-agnostic expression: column references, literal values,
/// equality comparisons, conjunctions, and the row-count aggregate.
#[derive(Debug, PartialEq)]
pub enum SimpleExpr {
    Column(ColRef),
    Value(Value),
    Eq(Box<SimpleExpr>, Box<SimpleExpr>),
    And(Box<SimpleExpr>, Box<SimpleExpr>),
    CountAll,
}

/// Spec-level mirror of [`SimpleExpr`].
pub enum ExprV {
    Column(ColRefV),
    Value(ValueV),
    Eq(Box<ExprV>, Box<ExprV>),
    And(Box<ExprV>, Box<ExprV>),
    CountAll,
}

impl View for SimpleExpr {
    type V = ExprV;

    open spec fn view(&self) -> ExprV
        decreases self,
    {
        match self {
            SimpleExpr::Column(c) => ExprV::Column(c@),
            SimpleExpr::Value(v) => ExprV::Value(v@),
            SimpleExpr::Eq(a, b) => ExprV::Eq(Box::new((**a)@), Box::new((**b)@)),
            SimpleExpr::And(a, b) => ExprV::And(Box::new((**a)@), Box::new((**b)@)),
            SimpleExpr::CountAll => ExprV::CountAll,
        }
    }
}

impl Clone for SimpleExpr {
    fn clone(&self) -> (r: Self)
        ensures
            r@ == self@,
        decreases self,
    {
        match self {
            SimpleExpr::Column(c) => SimpleExpr::Column(c.clone()),
            SimpleExpr::Value(v) => SimpleExpr::Value(v.clone()),
            SimpleExpr::Eq(a, b) => SimpleExpr::Eq(Box::new((**a).clone()), Box::new((**b).clone())),
            SimpleExpr::And(a, b) => SimpleExpr::And(
                Box::new((**a).clone()),
                Box::new((**b).clone()),
            ),
            SimpleExpr::CountAll => SimpleExpr::CountAll,
        }
    }
}

impl SimpleExpr {
    /// The comparison `self = other`.
    pub fn eq(self, other: SimpleExpr) -> (r: SimpleExpr)
        ensures
            r@ == ExprV::Eq(Box::new(self@), Box::new(other@)),
    {
        SimpleExpr::Eq(Box::new(self), Box::new(other))
    }

    /// The comparison `self = v` with a literal value.
    pub fn eq_val(self, v: Value) -> (r: SimpleExpr)
        ensures
            r@ == ExprV::Eq(Box::new(self@), Box::new(ExprV::Value(v@))),
    {
        let inner = SimpleExpr::Value(v);
        proof {
            assert(inner@ == ExprV::Value(inner->Value_0@));
        }
        SimpleExpr::Eq(Box::new(self), Box::new(inner))
    }

    /// The conjunction `self AND other`.
    pub fn and(self, other: SimpleExpr) -> (r: SimpleExpr)
        ensures
            r@ == ExprV::And(Box::new(self@), Box::new(other@)),
    {
        SimpleExpr::And(Box::new(self), Box::new(other))
    }
}

/// Sort direction of one ORDER BY key.
#[derive(Clone, Copy, Debug, PartialEq, Eq, Structural)]
pub enum Order {
    Asc,
    Desc,
}

/// The kind of a JOIN clause.
#[derive(Clone, Copy, Debug, PartialEq, Eq, Structural)]
pub enum JoinType {
    Left,
    Right,
    Inner,
}

/// One projected expression, optionally aliased.
#[derive(Debug, PartialEq)]
pub struct SelectExpr {
    pub expr: SimpleExpr,
    pub alias: Option<String>,
}

/// Spec-level mirror of [`SelectExpr`].
pub struct SelectExprV {
    pub expr: ExprV,
    pub alias: Option<Seq<char>>,
}

impl View for SelectExpr {
    type V = SelectExprV;

    open spec fn view(&self) -> SelectExprV {
        SelectExprV {
            expr: self.expr@,
            alias: match &self.alias {
                Some(a) => Some(a@),
                None => None,
            },
        }
    }
}

impl Clone for SelectExpr {
    fn clone(&self) -> (r: Self)
        ensures
            r@ == self@,
    {
        SelectExpr {
            expr: self.expr.clone(),
            alias: match &self.alias {
                Some(a) => Some(a.clone()),
                None => None,
            },
        }
    }
}

/// One ORDER BY key.
#[derive(Debug, PartialEq)]
pub struct OrderExpr {
    pub expr: SimpleExpr,
    pub order: Order,
}

/// Spec-level mirror of [`OrderExpr`].
pub struct OrderExprV {
    pub expr: ExprV,
    pub order: Order,
}

impl View for OrderExpr {
    type V = OrderExprV;

    open spec fn view(&self) -> OrderExprV {
        OrderExprV { expr: self.expr@, order: self.order }
    }
}

impl Clone for OrderExpr {
    fn clone(&self) -> (r: Self)
        ensures
            r@ == self@,
    {
        OrderExpr { expr: self.expr.clone(), order: self.order }
    }
}

/// One JOIN clause: kind, joined table, and ON condition.
#[derive(Debug, PartialEq)]
pub struct JoinExpr {
    pub kind: JoinType,
    pub table: String,
    pub on: SimpleExpr,
}

/// Spec-level mirror of [`JoinExpr`].
pub struct JoinExprV {
    pub kind: JoinType,
    pub table: Seq<char>,
    pub on: ExprV,
}

impl View for JoinExpr {
    type V = JoinExprV;

    open spec fn view(&self) -> JoinExprV {
        JoinExprV { kind: self.kind, table: self.table@, on: self.on@ }
    }
}

impl Clone for JoinExpr {
    fn clone(&self) -> (r: Self)
        ensures
            r@ == self@,
    {
        JoinExpr { kind: self.kind, table: self.table.clone(), on: self.on.clone() }
    }
}

/// A SELECT in progress: every clause list keeps call order.
#[derive(Debug, PartialEq)]
pub struct SelectStmt {
    pub selects: Vec<SelectExpr>,
    pub from: Option<String>,
    pub joins: Vec<JoinExpr>,
    pub wheres: Vec<SimpleExpr>,
    pub groups: Vec<SimpleExpr>,
    pub orders: Vec<OrderExpr>,
    pub limit: Option<u64>,
    pub offset: Option<u64>,
}

/// Spec-level mirror of [`SelectStmt`].
pub struct StmtV {
    pub selects: Seq<SelectExprV>,
    pub from: Option<Seq<char>>,
    pub joins: Seq<JoinExprV>,
    pub wheres: Seq<ExprV>,
    pub groups: Seq<ExprV>,
    pub orders: Seq<OrderExprV>,
    pub limit: Option<u64>,
    pub offset: Option<u64>,
}

impl View for SelectStmt {
    type V = StmtV;

    open spec fn view(&self) -> StmtV {
        StmtV {
            selects: self.selects@.map_values(|e: SelectExpr| e@),
            from: match &self.from {
                Some(t) => Some(t@),
                None => None,
            },
            joins: self.joins@.map_values(|e: JoinExpr| e@),
            wheres: self.wheres@.map_values(|e: SimpleExpr| e@),
            groups: self.groups@.map_values(|e: SimpleExpr| e@),
            orders: self.orders@.map_values(|e: OrderExpr| e@),
            limit: self.limit,
            offset: self.offset,
        }
    }
}

impl SelectStmt {
    /// The empty statement: no projection, no source, no clauses.
    pub fn new() -> (r: SelectStmt)
        ensures
            r@.selects =~= Seq::<SelectExprV>::empty(),
            r@.from is None,
            r@.joins =~= Seq::<JoinExprV>::empty(),
            r@.wheres =~= Seq::<ExprV>::empty(),
            r@.groups =~= Seq::<ExprV>::empty(),
            r@.orders =~= Seq::<OrderExprV>::empty(),
            r@.limit is None,
            r@.offset is None,
    {
        SelectStmt {
            selects: Vec::new(),
            from: None,
            joins: Vec::new(),
            wheres: Vec::new(),
            groups: Vec::new(),
            orders: Vec::new(),
            limit: None,
            offset: None,
        }
    }
}

impl Clone for SelectStmt {
    fn clone(&self) -> (r: Self)
        ensures
            r@ == self@,
    {
        let r = SelectStmt {
            selects: self.selects.clone(),
            from: match &self.from {
                Some(t) => Some(t.clone()),
                None => None,
            },
            joins: self.joins.clone(),
            wheres: self.wheres.clone(),
            groups: self.groups.clone(),
            orders: self.orders.clone(),
            limit: self.limit,
            offset: self.offset,
        };
        proof {
            assert(r@.selects =~= self@.selects);
            assert(r@.joins =~= self@.joins);
            assert(r@.wheres =~= self@.wheres);
            assert(r@.groups =~= self@.groups);
            assert(r@.orders =~= self@.orders);
        }
        r
    }
}

/// An UPDATE: target table, SET assignments, WHERE conjuncts.
#[derive(Debug, PartialEq)]
pub struct UpdateStmt {
    pub table: String,
    pub values: Vec<(String, Value)>,
    pub wheres: Vec<SimpleExpr>,
}

/// Spec-level mirror of [`UpdateStmt`].
pub struct UpdateV {
    pub table: Seq<char>,
    pub values: Seq<(Seq<char>, ValueV)>,
    pub wheres: Seq<ExprV>,
}

impl View for UpdateStmt {
    type V = UpdateV;

    open spec fn view(&self) -> UpdateV {
        UpdateV {
            table: self.table@,
            values: self.values@.map_values(|p: (String, Value)| (p.0@, p.1@)),
            wheres: self.wheres@.map_values(|e: SimpleExpr| e@),
        }
    }
}

/// An INSERT: target table and the column/value pairs to write.
#[derive(Debug, PartialEq)]
pub struct InsertStmt {
    pub table: String,
    pub values: Vec<(String, Value)>,
}

/// Spec-level mirror of [`InsertStmt`].
pub struct InsertV {
    pub table: Seq<char>,
    pub values: Seq<(Seq<char>, ValueV)>,
}

impl View for InsertStmt {
    type V = InsertV;

    open spec fn view(&self) -> InsertV {
        InsertV {
            table: self.table@,
            values: self.values@.map_values(|p: (String, Value)| (p.0@, p.1@)),
        }
    }
}

/// Compares a held name with a static one.
pub fn str_eq(a: &String, b: &str) -> (r: bool)
    ensures
        r == (a@ == b@),
{
    *a == b.to_owned()
}

/// Holds when `e` is a plain reference to column `c` of table `t`.
pub open spec fn is_col(e: ExprV, t: Seq<char>, c: Seq<char>) -> bool {
    &&& e is Column
    &&& e->Column_0.table == t
    &&& e->Column_0.name == c
}

/// Holds when `e` compares column `c` of table `t` with the literal `v`.
pub open spec fn is_col_eq_value(e: ExprV, t: Seq<char>, c: Seq<char>, v: ValueV) -> bool {
    &&& e is Eq
    &&& is_col(*e->Eq_0, t, c)
    &&& *e->Eq_1 == ExprV::Value(v)
}

/// Holds when `e` equates `ft.fc` with `tt.tc` (a join's ON condition).
pub open spec fn is_col_eq_col(
    e: ExprV,
    ft: Seq<char>,
    fc: Seq<char>,
    tt: Seq<char>,
    tc: Seq<char>,
) -> bool {
    &&& e is Eq
    &&& is_col(*e->Eq_0, ft, fc)
    &&& is_col(*e->Eq_1, tt, tc)
}

} // verus!
