use sea_orm::backend::{update_to_sql, DbBackend};
use sea_orm::query::select::{find, IntoSimpleExpr};
use sea_orm::tests_cfg::fruit;
use sea_orm::{OrmError, SimpleExpr, Value};

#[test]
fn zero_page_size_is_rejected() {
    let r = find::<fruit::Entity>().paginate(0);
    assert_eq!(r.err(), Some(OrmError::InvalidPageSize));
}

#[test]
fn num_pages_rounds_up() {
    let p = find::<fruit::Entity>().paginate(3).unwrap();
    assert_eq!(p.num_pages(0), 0);
    assert_eq!(p.num_pages(10), 4);
    assert_eq!(p.num_pages(9), 3);
    assert_eq!(p.num_pages(1), 1);
}

#[test]
fn rows_on_each_page_of_ten_by_three() {
    let p = find::<fruit::Entity>().paginate(3).unwrap();
    assert_eq!(p.rows_on_page(10, 0), 3);
    assert_eq!(p.rows_on_page(10, 2), 3);
    assert_eq!(p.rows_on_page(10, 3), 1);
    assert_eq!(p.rows_on_page(10, 4), 0);
    assert_eq!(p.rows_on_page(0, 0), 0);
}

#[test]
fn fetch_page_applies_offset_and_limit() {
    let p = find::<fruit::Entity>().paginate(3).unwrap();
    let q = p.fetch_page(3);
    assert_eq!(q.limit, Some(3));
    assert_eq!(q.offset, Some(9));
    assert_eq!(q.selects.len(), 3);
    let q = p.fetch_page(0);
    assert_eq!(q.offset, Some(0));
    let beyond = p.fetch_page(4);
    assert_eq!(beyond.offset, Some(12));
    assert_eq!(p.rows_on_page(10, 4), 0);
}

#[test]
fn count_query_keeps_source_and_filters_only() {
    let sel = find::<fruit::Entity>()
        .filter(fruit::Column::CakeId.into_simple_expr().eq_val(Value::Int(1)))
        .order_by(fruit::Column::Id);
    let p = sel.paginate(2).unwrap();
    let c = p.count_query();
    assert_eq!(c.selects.len(), 1);
    assert_eq!(c.selects[0].expr, SimpleExpr::CountAll);
    assert_eq!(c.from.as_deref(), Some("fruit"));
    assert_eq!(c.wheres.len(), 1);
    assert!(c.orders.is_empty());
    assert_eq!(c.limit, None);
    assert_eq!(c.offset, None);
}

#[test]
fn count_query_renders_count_star() {
    let p = find::<fruit::Entity>().paginate(2).unwrap();
    let c = p.count_query();
    let sql = sea_orm::backend::select_to_sql(&c, DbBackend::MySql);
    assert_eq!(sql, "SELECT COUNT(*) FROM `fruit`");
}

#[test]
fn update_sql_renders_set_and_where() {
    let m = fruit::Model {
        id: 1,
        name: "apple".to_owned(),
        cake_id: None,
    };
    let am = m.into_active_model().set_name("pear".to_owned());
    let u = am.update_statement().unwrap();
    let sql = update_to_sql(&u, DbBackend::MySql);
    assert_eq!(sql, "UPDATE `fruit` SET `name` = 'pear' WHERE `fruit`.`id` = 1");
}
