use vstd::prelude::*;

use crate::entity::EntityTrait;
use crate::query::select::Select;
use crate::statement::{JoinType, Order, SimpleExpr, Value};

verus! {

/// The SQL dialect a statement is rendered for.
#[derive(Clone, Copy, Debug, PartialEq, Eq, Structural)]
pub enum DbBackend {
    MySql,
    Postgres,
}

/// `sea_query`'s SELECT statement, carried opaquely while it is assembled.
#[verifier::external_type_specification]
#[verifier::external_body]
pub struct ExSelectStmt(sea_query::SelectStatement);

/// `sea_query`'s UPDATE statement, carried opaquely while it is assembled.
#[verifier::external_type_specification]
#[verifier::external_body]
pub struct ExUpdateStmt(sea_query::UpdateStatement);

/// `sea_query`'s expression tree, carried opaquely between calls.
#[verifier::external_type_specification]
#[verifier::external_body]
pub struct ExExpr(sea_query::Expr);

/// Relies on `sea_query::Expr::col`: the table-qualified column reference.
#[verifier::external_body]
fn sq_col(t: &str, c: &str) -> sea_query::Expr {
    sea_query::Expr::col((sea_query::Alias::new(t), sea_query::Alias::new(c)))
}

/// Relies on `sea_query::Expr::value` for each literal, and on
/// `sea_query::Keyword::Null` for the null literal: one arm per variant.
#[verifier::external_body]
fn sq_val(v: &Value) -> sea_query::Expr {
    match v {
        Value::Int(i) => sea_query::Expr::value(*i),
        Value::Text(s) => sea_query::Expr::value(s.clone()),
        Value::Bool(b) => sea_query::Expr::value(*b),
        Value::Null => sea_query::Expr::Keyword(sea_query::Keyword::Null),
    }
}

/// Relies on `sea_query::ExprTrait::eq`: the `=` comparison of two
/// expressions.
#[verifier::external_body]
fn sq_eq(a: sea_query::Expr, b: sea_query::Expr) -> sea_query::Expr {
    sea_query::ExprTrait::eq(a, b)
}

/// Relies on `sea_query::ExprTrait::and`: the conjunction of two
/// expressions.
#[verifier::external_body]
fn sq_and(a: sea_query::Expr, b: sea_query::Expr) -> sea_query::Expr {
    sea_query::ExprTrait::and(a, b)
}

/// Relies on `sea_query::Expr::cust`: the bare `COUNT(*)` aggregate.
#[verifier::external_body]
fn sq_count_star() -> sea_query::Expr {
    sea_query::Expr::cust("COUNT(*)")
}

/// Relies on `sea_query::SelectStatement::new`: the empty SELECT.
#[verifier::external_body]
fn sq_select_new() -> sea_query::SelectStatement {
    sea_query::SelectStatement::new()
}

/// Relies on `sea_query::SelectStatement::from`: sets the FROM table.
#[verifier::external_body]
fn sq_from(s: &mut sea_query::SelectStatement, t: &str) {
    s.from(sea_query::Alias::new(t));
}

/// Relies on `sea_query::SelectStatement::expr`: appends one projected
/// expression.
#[verifier::external_body]
fn sq_select_expr(s: &mut sea_query::SelectStatement, e: sea_query::Expr) {
    s.expr(e);
}

/// Relies on `sea_query::SelectStatement::expr_as`: appends one projected
/// expression under an alias.
#[verifier::external_body]
fn sq_select_expr_as(s: &mut sea_query::SelectStatement, e: sea_query::Expr, alias: &str) {
    s.expr_as(e, sea_query::Alias::new(alias));
}

/// Relies on `sea_query::SelectStatement::and_where`: appends one AND-joined
/// WHERE condition.
#[verifier::external_body]
fn sq_and_where(s: &mut sea_query::SelectStatement, e: sea_query::Expr) {
    s.and_where(e);
}

/// Relies on `sea_query::SelectStatement::join`: appends one JOIN clause
/// with its ON condition; the join kind maps one arm per variant.
#[verifier::external_body]
fn sq_join(s: &mut sea_query::SelectStatement, kind: JoinType, t: &str, on: sea_query::Expr) {
    let jt = match kind {
        JoinType::Left => sea_query::JoinType::LeftJoin,
        JoinType::Right => sea_query::JoinType::RightJoin,
        JoinType::Inner => sea_query::JoinType::InnerJoin,
    };
    s.join(jt, sea_query::Alias::new(t), on);
}

/// Relies on `sea_query::SelectStatement::add_group_by`: appends one GROUP
/// BY key.
#[verifier::external_body]
fn sq_group_by(s: &mut sea_query::SelectStatement, e: sea_query::Expr) {
    s.add_group_by([e]);
}

/// Relies on `sea_query::SelectStatement::order_by_expr`: appends one ORDER
/// BY key; the direction maps one arm per variant.
#[verifier::external_body]
fn sq_order_by(s: &mut sea_query::SelectStatement, e: sea_query::Expr, o: Order) {
    let so = match o {
        Order::Asc => sea_query::Order::Asc,
        Order::Desc => sea_query::Order::Desc,
    };
    s.order_by_expr(e, so);
}

/// Relies on `sea_query::SelectStatement::limit`: sets the LIMIT bound.
#[verifier::external_body]
fn sq_limit(s: &mut sea_query::SelectStatement, n: u64) {
    s.limit(n);
}

/// Relies on `sea_query::SelectStatement::offset`: sets the OFFSET bound.
#[verifier::external_body]
fn sq_offset(s: &mut sea_query::SelectStatement, n: u64) {
    s.offset(n);
}

/// Relies on `sea_query::SelectStatement::to_string` with
/// `MysqlQueryBuilder`: renders the statement as MySQL text.
#[verifier::external_body]
fn sq_select_sql_mysql(s: &sea_query::SelectStatement) -> String {
    s.to_string(sea_query::MysqlQueryBuilder)
}

/// Relies on `sea_query::SelectStatement::to_string` with
/// `PostgresQueryBuilder`: renders the statement as Postgres text.
#[verifier::external_body]
fn sq_select_sql_postgres(s: &sea_query::SelectStatement) -> String {
    s.to_string(sea_query::PostgresQueryBuilder)
}

/// Relies on `sea_query::UpdateStatement::new`: the empty UPDATE.
#[verifier::external_body]
fn sq_update_new() -> sea_query::UpdateStatement {
    sea_query::UpdateStatement::new()
}

/// Relies on `sea_query::UpdateStatement::table`: sets the target table.
#[verifier::external_body]
fn sq_update_table(s: &mut sea_query::UpdateStatement, t: &str) {
    s.table(sea_query::Alias::new(t));
}

/// Relies on `sea_query::UpdateStatement::value`: appends one SET
/// assignment; the value maps one arm per variant.
#[verifier::external_body]
fn sq_update_value(s: &mut sea_query::UpdateStatement, c: &str, v: &Value) {
    match v {
        Value::Int(i) => s.value(sea_query::Alias::new(c), *i),
        Value::Text(t) => s.value(sea_query::Alias::new(c), t.clone()),
        Value::Bool(b) => s.value(sea_query::Alias::new(c), *b),
        Value::Null => s.value(
            sea_query::Alias::new(c),
            sea_query::Expr::Keyword(sea_query::Keyword::Null),
        ),
    };
}

/// Relies on `sea_query::UpdateStatement::and_where`: appends one AND-joined
/// WHERE condition.
#[verifier::external_body]
fn sq_update_and_where(s: &mut sea_query::UpdateStatement, e: sea_query::Expr) {
    s.and_where(e);
}

/// Relies on `sea_query::UpdateStatement::to_string` with
/// `MysqlQueryBuilder`: renders the statement as MySQL text.
#[verifier::external_body]
fn sq_update_sql_mysql(s: &sea_query::UpdateStatement) -> String {
    s.to_string(sea_query::MysqlQueryBuilder)
}

/// Relies on `sea_query::UpdateStatement::to_string` with
/// `PostgresQueryBuilder`: renders the statement as Postgres text.
#[verifier::external_body]
fn sq_update_sql_postgres(s: &sea_query::UpdateStatement) -> String {
    s.to_string(sea_query::PostgresQueryBuilder)
}

/// Hands one expression to the backend, node by node.
fn expr_to_sea(e: &SimpleExpr) -> sea_query::Expr
    decreases *e,
{
    match e {
        SimpleExpr::Column(c) => sq_col(c.table.as_str(), c.name.as_str()),
        SimpleExpr::Value(v) => sq_val(v),
        SimpleExpr::Eq(a, b) => sq_eq(expr_to_sea(&*a), expr_to_sea(&*b)),
        SimpleExpr::And(a, b) => sq_and(expr_to_sea(&*a), expr_to_sea(&*b)),
        SimpleExpr::CountAll => sq_count_star(),
    }
}

/// Hands a built SELECT to the backend clause by clause and renders it for
/// the dialect. What the text looks like is the backend's responsibility;
/// the statement's content is what the builder's contracts pin down.
pub fn select_to_sql(stmt: &crate::statement::SelectStmt, db: DbBackend) -> String {
    let mut q = sq_select_new();
    let mut i: usize = 0;
    while i < stmt.selects.len()
        invariant
            i <= stmt.selects.len(),
        decreases stmt.selects.len() - i,
    {
        let sel = &stmt.selects[i];
        let e = expr_to_sea(&sel.expr);
        match &sel.alias {
            Some(a) => sq_select_expr_as(&mut q, e, a.as_str()),
            None => sq_select_expr(&mut q, e),
        }
        i += 1;
    }
    match &stmt.from {
        Some(t) => sq_from(&mut q, t.as_str()),
        None => {},
    }
    let mut i: usize = 0;
    while i < stmt.joins.len()
        invariant
            i <= stmt.joins.len(),
        decreases stmt.joins.len() - i,
    {
        let j = &stmt.joins[i];
        let on = expr_to_sea(&j.on);
        sq_join(&mut q, j.kind, j.table.as_str(), on);
        i += 1;
    }
    let mut i: usize = 0;
    while i < stmt.wheres.len()
        invariant
            i <= stmt.wheres.len(),
        decreases stmt.wheres.len() - i,
    {
        let e = expr_to_sea(&stmt.wheres[i]);
        sq_and_where(&mut q, e);
        i += 1;
    }
    let mut i: usize = 0;
    while i < stmt.groups.len()
        invariant
            i <= stmt.groups.len(),
        decreases stmt.groups.len() - i,
    {
        let e = expr_to_sea(&stmt.groups[i]);
        sq_group_by(&mut q, e);
        i += 1;
    }
    let mut i: usize = 0;
    while i < stmt.orders.len()
        invariant
            i <= stmt.orders.len(),
        decreases stmt.orders.len() - i,
    {
        let o = &stmt.orders[i];
        let e = expr_to_sea(&o.expr);
        sq_order_by(&mut q, e, o.order);
        i += 1;
    }
    match stmt.limit {
        Some(n) => sq_limit(&mut q, n),
        None => {},
    }
    match stmt.offset {
        Some(n) => sq_offset(&mut q, n),
        None => {},
    }
    match db {
        DbBackend::MySql => sq_select_sql_mysql(&q),
        DbBackend::Postgres => sq_select_sql_postgres(&q),
    }
}

/// Hands a built UPDATE to the backend clause by clause and renders it for
/// the dialect.
pub fn update_to_sql(stmt: &crate::statement::UpdateStmt, db: DbBackend) -> String {
    let mut q = sq_update_new();
    sq_update_table(&mut q, stmt.table.as_str());
    let mut i: usize = 0;
    while i < stmt.values.len()
        invariant
            i <= stmt.values.len(),
        decreases stmt.values.len() - i,
    {
        let p = &stmt.values[i];
        sq_update_value(&mut q, p.0.as_str(), &p.1);
        i += 1;
    }
    let mut i: usize = 0;
    while i < stmt.wheres.len()
        invariant
            i <= stmt.wheres.len(),
        decreases stmt.wheres.len() - i,
    {
        let e = expr_to_sea(&stmt.wheres[i]);
        sq_update_and_where(&mut q, e);
        i += 1;
    }
    match db {
        DbBackend::MySql => sq_update_sql_mysql(&q),
        DbBackend::Postgres => sq_update_sql_postgres(&q),
    }
}

impl<E> Select<E> where E: EntityTrait {
    /// Finalizes the builder and renders it as SQL text for the dialect.
    /// The builder's own contracts pin down the statement's content; the
    /// text is the rendering backend's work.
    pub fn build(self, db: DbBackend) -> String {
        select_to_sql(&self.query, db)
    }
}

} // verus!
