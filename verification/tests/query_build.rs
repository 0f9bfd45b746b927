use sea_orm::backend::DbBackend;
use sea_orm::entity::{ColumnTrait, Iden, Identity, Iterable, PrimaryKeyTrait, RelationDef, RelationTrait};
use sea_orm::entity::{ColumnType, RelationType};
use sea_orm::query::select::{find, IntoSimpleExpr, Select};
use sea_orm::tests_cfg::{cake, fruit};
use sea_orm::{ColRef, JoinType, Order, OrmError, SimpleExpr, Value};

fn col(table: &str, name: &str) -> SimpleExpr {
    SimpleExpr::Column(ColRef {
        table: table.to_owned(),
        name: name.to_owned(),
    })
}

#[test]
fn find_projects_all_columns_in_declaration_order() {
    let q = find::<fruit::Entity>().into_query();
    assert_eq!(q.from.as_deref(), Some("fruit"));
    assert_eq!(q.selects.len(), 3);
    assert_eq!(q.selects[0].expr, col("fruit", "id"));
    assert_eq!(q.selects[1].expr, col("fruit", "name"));
    assert_eq!(q.selects[2].expr, col("fruit", "cake_id"));
    assert!(q.selects.iter().all(|s| s.alias.is_none()));
    assert!(q.wheres.is_empty());
    assert!(q.joins.is_empty());
    assert!(q.orders.is_empty());
    assert!(q.groups.is_empty());
    assert_eq!(q.limit, None);
    assert_eq!(q.offset, None);
}

#[test]
fn select_only_clears_projection() {
    let q = find::<cake::Entity>()
        .select_only()
        .column(cake::Column::Name)
        .into_query();
    assert_eq!(q.selects.len(), 1);
    assert_eq!(q.selects[0].expr, col("cake", "name"));
}

#[test]
fn column_as_records_alias() {
    let q = find::<cake::Entity>()
        .select_only()
        .column_as(cake::Column::Name, "n")
        .into_query();
    assert_eq!(q.selects.len(), 1);
    assert_eq!(q.selects[0].alias.as_deref(), Some("n"));
}

#[test]
fn filters_accumulate_in_call_order() {
    let a = fruit::Column::Name
        .into_simple_expr()
        .eq_val(Value::Text("apple".to_owned()));
    let b = fruit::Column::CakeId
        .into_simple_expr()
        .eq_val(Value::Int(7));
    let q = find::<fruit::Entity>()
        .filter(a.clone())
        .filter(b.clone())
        .into_query();
    assert_eq!(q.wheres, vec![a, b]);
}

#[test]
fn filters_render_as_and_conjunction() {
    let sql = find::<fruit::Entity>()
        .filter(
            fruit::Column::Name
                .into_simple_expr()
                .eq_val(Value::Text("apple".to_owned())),
        )
        .filter(fruit::Column::CakeId.into_simple_expr().eq_val(Value::Int(7)))
        .build(DbBackend::MySql);
    assert!(sql.contains("WHERE"));
    assert!(sql.contains("AND"));
    assert!(sql.contains("`fruit`.`name` = 'apple'"));
    assert!(sql.contains("`fruit`.`cake_id` = 7"));
}

#[test]
fn order_by_keys_stack_in_call_order() {
    let q = find::<fruit::Entity>()
        .order_by(fruit::Column::Id)
        .order_by_desc(fruit::Column::Name)
        .into_query();
    assert_eq!(q.orders.len(), 2);
    assert_eq!(q.orders[0].expr, col("fruit", "id"));
    assert_eq!(q.orders[0].order, Order::Asc);
    assert_eq!(q.orders[1].expr, col("fruit", "name"));
    assert_eq!(q.orders[1].order, Order::Desc);
}

#[test]
fn group_by_appends_keys() {
    let q = find::<fruit::Entity>()
        .group_by(fruit::Column::CakeId)
        .into_query();
    assert_eq!(q.groups, vec![col("fruit", "cake_id")]);
}

#[test]
fn left_join_derives_on_condition() {
    let q = find::<cake::Entity>()
        .left_join(cake::Relation::Fruit)
        .unwrap()
        .into_query();
    assert_eq!(q.joins.len(), 1);
    assert_eq!(q.joins[0].kind, JoinType::Left);
    assert_eq!(q.joins[0].table, "fruit");
    let expected_on = SimpleExpr::Eq(
        Box::new(col("cake", "id")),
        Box::new(col("fruit", "cake_id")),
    );
    assert_eq!(q.joins[0].on, expected_on);
}

#[test]
fn inner_and_right_joins_set_their_kind() {
    let q = find::<cake::Entity>()
        .inner_join(cake::Relation::Fruit)
        .unwrap()
        .into_query();
    assert_eq!(q.joins[0].kind, JoinType::Inner);
    let q = find::<cake::Entity>()
        .right_join(cake::Relation::Fruit)
        .unwrap()
        .into_query();
    assert_eq!(q.joins[0].kind, JoinType::Right);
}

#[test]
fn reverse_join_swaps_the_relation() {
    let q = find::<fruit::Entity>()
        .reverse_join::<cake::Entity>(cake::Relation::Fruit)
        .unwrap()
        .into_query();
    assert_eq!(q.joins.len(), 1);
    assert_eq!(q.joins[0].kind, JoinType::Inner);
    assert_eq!(q.joins[0].table, "cake");
    let expected_on = SimpleExpr::Eq(
        Box::new(col("fruit", "cake_id")),
        Box::new(col("cake", "id")),
    );
    assert_eq!(q.joins[0].on, expected_on);
}

#[test]
fn mismatched_arity_is_a_fault_not_a_malformed_clause() {
    let lopsided = RelationDef {
        rel_type: RelationType::HasMany,
        from_tbl: "cake".to_owned(),
        to_tbl: "fruit".to_owned(),
        from_col: Identity::Unary("id".to_owned()),
        to_col: Identity::Binary("cake_id".to_owned(), "kind".to_owned()),
    };
    let r = find::<cake::Entity>().join(JoinType::Left, lopsided);
    assert_eq!(r.err(), Some(OrmError::RelationArityMismatch));
    let composite = RelationDef {
        rel_type: RelationType::HasMany,
        from_tbl: "cake".to_owned(),
        to_tbl: "fruit".to_owned(),
        from_col: Identity::Binary("a".to_owned(), "b".to_owned()),
        to_col: Identity::Binary("c".to_owned(), "d".to_owned()),
    };
    let r = find::<cake::Entity>().join(JoinType::Left, composite);
    assert_eq!(r.err(), Some(OrmError::CompositeKeyUnsupported));
}

#[test]
fn reverse_join_needs_a_relation_pointing_here() {
    let r = find::<cake::Entity>().reverse_join::<cake::Entity>(cake::Relation::Fruit);
    assert_eq!(r.err(), Some(OrmError::RelationNotFound));
}

#[test]
fn belongs_to_filters_by_the_models_key() {
    let cake_model = cake::Model {
        id: 11,
        name: "chocolate".to_owned(),
    };
    let q = find::<fruit::Entity>()
        .belongs_to::<cake::Entity>(&cake_model)
        .unwrap()
        .into_query();
    assert_eq!(q.wheres.len(), 1);
    let expected = SimpleExpr::Eq(
        Box::new(col("fruit", "cake_id")),
        Box::new(SimpleExpr::Value(Value::Int(11))),
    );
    assert_eq!(q.wheres[0], expected);
    let sql = find::<fruit::Entity>()
        .belongs_to::<cake::Entity>(&cake_model)
        .unwrap()
        .build(DbBackend::MySql);
    assert!(sql.contains("`fruit`.`cake_id` = 11"));
}

#[test]
fn cake_left_join_fruit_end_to_end() {
    let sql = find::<cake::Entity>()
        .left_join(cake::Relation::Fruit)
        .unwrap()
        .build(DbBackend::MySql);
    assert_eq!(
        sql,
        "SELECT `cake`.`id`, `cake`.`name` FROM `cake` LEFT JOIN `fruit` ON `cake`.`id` = `fruit`.`cake_id`"
    );
    let sql = find::<cake::Entity>()
        .left_join(cake::Relation::Fruit)
        .unwrap()
        .build(DbBackend::Postgres);
    assert_eq!(
        sql,
        "SELECT \"cake\".\"id\", \"cake\".\"name\" FROM \"cake\" LEFT JOIN \"fruit\" ON \"cake\".\"id\" = \"fruit\".\"cake_id\""
    );
}

#[test]
fn select_also_appends_the_other_projection() {
    let two = find::<cake::Entity>()
        .left_join(cake::Relation::Fruit)
        .unwrap()
        .select_also::<fruit::Entity>();
    let q = two.into_query();
    assert_eq!(q.selects.len(), 5);
    assert_eq!(q.selects[2].expr, col("fruit", "id"));
    assert_eq!(q.selects[4].expr, col("fruit", "cake_id"));
}

#[test]
fn query_access_points_agree() {
    let mut s: Select<fruit::Entity> = find::<fruit::Entity>();
    assert_eq!(s.as_query().selects.len(), 3);
    s.query().limit = Some(5);
    assert_eq!(s.as_query().limit, Some(5));
    let q = s.into_query();
    assert_eq!(q.limit, Some(5));
}

#[test]
fn descriptors_expose_their_metadata() {
    assert_eq!(fruit::Column::CakeId.as_str(), "cake_id");
    assert_eq!(
        fruit::Column::iter(),
        vec![fruit::Column::Id, fruit::Column::Name, fruit::Column::CakeId]
    );
    assert_eq!(fruit::Column::Id.def().col_type, ColumnType::Integer);
    assert_eq!(fruit::Column::Name.def().col_type, ColumnType::Text);
    assert!(fruit::PrimaryKey::auto_increment());
    assert_eq!(fruit::PrimaryKey::Id.into_column(), fruit::Column::Id);
    let d = fruit::Relation::Cake.def();
    assert_eq!(d.rel_type, RelationType::BelongsTo);
    assert_eq!(d.from_tbl, "fruit");
    assert_eq!(d.to_tbl, "cake");
}
