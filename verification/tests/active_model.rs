use sea_orm::active_model::ActiveValue;
use sea_orm::entity::ModelTrait;
use sea_orm::tests_cfg::fruit;
use sea_orm::{OrmError, SimpleExpr, Value};

#[test]
fn into_active_model_carries_fields_unchanged() {
    let m = fruit::Model {
        id: 1,
        name: "apple".to_owned(),
        cake_id: Some(2),
    };
    let am = m.into_active_model();
    assert_eq!(am.id, ActiveValue::Unchanged(1));
    assert_eq!(am.name, ActiveValue::Unchanged("apple".to_owned()));
    assert_eq!(am.cake_id, ActiveValue::Unchanged(Some(2)));
}

#[test]
fn update_writes_only_the_set_field() {
    let m = fruit::Model {
        id: 1,
        name: "apple".to_owned(),
        cake_id: Some(2),
    };
    let am = m.into_active_model().set_name("pear".to_owned());
    let u = am.update_statement().unwrap();
    assert_eq!(u.table, "fruit");
    assert_eq!(
        u.values,
        vec![("name".to_owned(), Value::Text("pear".to_owned()))]
    );
    assert_eq!(u.wheres.len(), 1);
    let expected = SimpleExpr::Eq(
        Box::new(SimpleExpr::Column(sea_orm::ColRef {
            table: "fruit".to_owned(),
            name: "id".to_owned(),
        })),
        Box::new(SimpleExpr::Value(Value::Int(1))),
    );
    assert_eq!(u.wheres[0], expected);
}

#[test]
fn update_without_a_key_value_is_a_fault() {
    let am = fruit::ActiveModel::default().set_name("pear".to_owned());
    assert_eq!(
        am.update_statement().err(),
        Some(OrmError::PrimaryKeyNotSet)
    );
}

#[test]
fn update_excludes_the_key_from_set_even_when_assigned() {
    let am = fruit::ActiveModel::default()
        .set_id(4)
        .set_name("fig".to_owned());
    let u = am.update_statement().unwrap();
    assert_eq!(
        u.values,
        vec![("name".to_owned(), Value::Text("fig".to_owned()))]
    );
}

#[test]
fn insert_writes_only_set_fields() {
    let am = fruit::ActiveModel::default()
        .set_name("apple".to_owned())
        .set_cake_id(None);
    let ins = am.insert_statement();
    assert_eq!(ins.table, "fruit");
    assert_eq!(
        ins.values,
        vec![
            ("name".to_owned(), Value::Text("apple".to_owned())),
            ("cake_id".to_owned(), Value::Null),
        ]
    );
}

#[test]
fn insert_from_blank_model_writes_nothing() {
    let ins = fruit::ActiveModel::default().insert_statement();
    assert!(ins.values.is_empty());
}

#[test]
fn decode_reads_columns_by_name() {
    let row: Vec<(String, Value)> = vec![
        ("id".to_owned(), Value::Int(7)),
        ("name".to_owned(), Value::Text("apple".to_owned())),
        ("cake_id".to_owned(), Value::Null),
    ];
    let m = fruit::Model::from_query_result(&row).unwrap();
    assert_eq!(
        m,
        fruit::Model {
            id: 7,
            name: "apple".to_owned(),
            cake_id: None,
        }
    );
    let row: Vec<(String, Value)> = vec![
        ("name".to_owned(), Value::Text("fig".to_owned())),
        ("id".to_owned(), Value::Int(3)),
        ("cake_id".to_owned(), Value::Int(9)),
    ];
    let m = fruit::Model::from_query_result(&row).unwrap();
    assert_eq!(m.id, 3);
    assert_eq!(m.cake_id, Some(9));
}

#[test]
fn decode_missing_column_is_an_error() {
    let row: Vec<(String, Value)> = vec![("id".to_owned(), Value::Int(7))];
    assert_eq!(
        fruit::Model::from_query_result(&row).err(),
        Some(OrmError::ColumnMissing)
    );
}

#[test]
fn decode_wrong_shape_is_an_error() {
    let row: Vec<(String, Value)> = vec![
        ("id".to_owned(), Value::Text("seven".to_owned())),
        ("name".to_owned(), Value::Text("apple".to_owned())),
        ("cake_id".to_owned(), Value::Null),
    ];
    assert_eq!(
        fruit::Model::from_query_result(&row).err(),
        Some(OrmError::TypeMismatch)
    );
    let row: Vec<(String, Value)> = vec![
        ("id".to_owned(), Value::Int(1 << 40)),
        ("name".to_owned(), Value::Text("apple".to_owned())),
        ("cake_id".to_owned(), Value::Null),
    ];
    assert_eq!(
        fruit::Model::from_query_result(&row).err(),
        Some(OrmError::TypeMismatch)
    );
}

#[test]
fn model_values_round_through_get() {
    let m = fruit::Model {
        id: 5,
        name: "kiwi".to_owned(),
        cake_id: Some(8),
    };
    assert_eq!(m.get(fruit::Column::Id), Value::Int(5));
    assert_eq!(m.get(fruit::Column::Name), Value::Text("kiwi".to_owned()));
    assert_eq!(m.get(fruit::Column::CakeId), Value::Int(8));
}
