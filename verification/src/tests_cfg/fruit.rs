use vstd::prelude::*;

use crate::active_model::{
    build_insert, build_update, fields_v, insert_values_s, pk_value_s, set_values_s, ActiveValue,
};
use crate::entity::{
    ColumnDef, ColumnTrait, ColumnType, EntityName, EntityTrait, Iden, Identity, IdentityV,
    Iterable, ModelTrait, PrimaryKeyTrait, RelationDef, RelationDefV, RelationTrait,
    RelationType,
};
use crate::error::OrmError;
use crate::row::{lookup, lookup_s, row_v, QueryRow};
use crate::statement::{is_col_eq_value, InsertStmt, UpdateStmt, Value, ValueV};

verus! {

/// The `fruit` table.
#[derive(Clone, Copy, Debug, Default)]
pub struct Entity;

impl EntityName for Entity {
    open spec fn table_name_s() -> Seq<char> {
        "fruit"@
    }

    fn table_name() -> (r: &'static str) {
        "fruit"
    }
}

/// The columns of `fruit`, in declaration order.
#[derive(Clone, Copy, Debug, PartialEq, Eq, Structural)]
pub enum Column {
    Id,
    Name,
    CakeId,
}

impl Iden for Column {
    open spec fn name_s(&self) -> Seq<char> {
        match self {
            Column::Id => "id"@,
            Column::Name => "name"@,
            Column::CakeId => "cake_id"@,
        }
    }

    fn as_str(&self) -> (r: &'static str) {
        match self {
            Column::Id => "id",
            Column::Name => "name",
            Column::CakeId => "cake_id",
        }
    }
}

impl Iterable for Column {
    open spec fn variants() -> Seq<Column> {
        seq![Column::Id, Column::Name, Column::CakeId]
    }

    fn iter() -> (r: Vec<Column>) {
        let mut v: Vec<Column> = Vec::new();
        v.push(Column::Id);
        v.push(Column::Name);
        v.push(Column::CakeId);
        proof {
            assert(v@ =~= Self::variants());
        }
        v
    }
}

impl ColumnTrait for Column {
    type EntityName = Entity;

    open spec fn def_s(&self) -> ColumnDef {
        match self {
            Column::Id => ColumnDef { col_type: ColumnType::Integer, null: false, unique: false },
            Column::Name => ColumnDef { col_type: ColumnType::Text, null: false, unique: false },
            Column::CakeId => ColumnDef {
                col_type: ColumnType::Integer,
                null: false,
                unique: false,
            },
        }
    }

    fn def(&self) -> (r: ColumnDef) {
        match self {
            Column::Id => ColumnDef::from(ColumnType::Integer),
            Column::Name => ColumnDef::from(ColumnType::Text),
            Column::CakeId => ColumnDef::from(ColumnType::Integer),
        }
    }
}

/// The primary key of `fruit`: its `id` column, database-generated.
#[derive(Clone, Copy, Debug)]
pub enum PrimaryKey {
    Id,
}

impl Iden for PrimaryKey {
    open spec fn name_s(&self) -> Seq<char> {
        "id"@
    }

    fn as_str(&self) -> (r: &'static str) {
        "id"
    }
}

impl Iterable for PrimaryKey {
    open spec fn variants() -> Seq<PrimaryKey> {
        seq![PrimaryKey::Id]
    }

    fn iter() -> (r: Vec<PrimaryKey>) {
        let mut v: Vec<PrimaryKey> = Vec::new();
        v.push(PrimaryKey::Id);
        proof {
            assert(v@ =~= Self::variants());
        }
        v
    }
}

impl PrimaryKeyTrait for PrimaryKey {
    type Column = Column;

    open spec fn auto_increment_s() -> bool {
        true
    }

    fn auto_increment() -> (r: bool) {
        true
    }

    open spec fn into_column_s(self) -> Column {
        Column::Id
    }

    fn into_column(self) -> (r: Column) {
        Column::Id
    }
}

/// The associations of `fruit`: each row belongs to the `cake` row its
/// `cake_id` names.
#[derive(Clone, Copy, Debug)]
pub enum Relation {
    Cake,
}

impl Iterable for Relation {
    open spec fn variants() -> Seq<Relation> {
        seq![Relation::Cake]
    }

    fn iter() -> (r: Vec<Relation>) {
        let mut v: Vec<Relation> = Vec::new();
        v.push(Relation::Cake);
        proof {
            assert(v@ =~= Self::variants());
        }
        v
    }
}

impl RelationTrait for Relation {
    open spec fn def_s(&self) -> RelationDefV {
        RelationDefV {
            rel_type: RelationType::BelongsTo,
            from_tbl: "fruit"@,
            to_tbl: "cake"@,
            from_col: IdentityV::Unary("cake_id"@),
            to_col: IdentityV::Unary("id"@),
        }
    }

    fn def(&self) -> (r: RelationDef) {
        RelationDef {
            rel_type: RelationType::BelongsTo,
            from_tbl: "fruit".to_owned(),
            to_tbl: "cake".to_owned(),
            from_col: Identity::Unary("cake_id".to_owned()),
            to_col: Identity::Unary("id".to_owned()),
        }
    }
}

/// One `fruit` row.
#[derive(Debug, PartialEq)]
pub struct Model {
    pub id: i32,
    pub name: String,
    pub cake_id: Option<i32>,
}

/// Spec-level mirror of [`Model`].
pub struct ModelV {
    pub id: i32,
    pub name: Seq<char>,
    pub cake_id: Option<i32>,
}

impl View for Model {
    type V = ModelV;

    open spec fn view(&self) -> ModelV {
        ModelV { id: self.id, name: self.name@, cake_id: self.cake_id }
    }
}

impl Clone for Model {
    fn clone(&self) -> (r: Self)
        ensures
            r@ == self@,
    {
        Model { id: self.id, name: self.name.clone(), cake_id: self.cake_id }
    }
}

impl ModelTrait for Model {
    type Column = Column;

    open spec fn get_s(&self, c: Column) -> ValueV {
        match c {
            Column::Id => ValueV::Int(self.id as i64),
            Column::Name => ValueV::Text(self.name@),
            Column::CakeId => match self.cake_id {
                Some(v) => ValueV::Int(v as i64),
                None => ValueV::Null,
            },
        }
    }

    fn get(&self, c: Column) -> (r: Value) {
        match c {
            Column::Id => Value::Int(self.id as i64),
            Column::Name => Value::Text(self.name.clone()),
            Column::CakeId => match self.cake_id {
                Some(v) => Value::Int(v as i64),
                None => Value::Null,
            },
        }
    }
}

impl EntityTrait for Entity {
    type Column = Column;

    type PrimaryKey = PrimaryKey;

    type Relation = Relation;

    type Model = Model;
}

/// Whether an integer value fits the 32-bit field it should fill.
pub open spec fn in_i32(v: i64) -> bool {
    i32::MIN as i64 <= v <= i32::MAX as i64
}

/// What decoding a result row into a `fruit` model yields: each column by
/// name, a missing column or an incompatible value being an error.
pub open spec fn decode_s(row: Seq<(Seq<char>, ValueV)>) -> Result<ModelV, OrmError> {
    match lookup_s(row, "id"@) {
        Some(ValueV::Int(i)) => if !in_i32(i) {
            Err(OrmError::TypeMismatch)
        } else {
            match lookup_s(row, "name"@) {
                Some(ValueV::Text(n)) => match lookup_s(row, "cake_id"@) {
                    Some(ValueV::Int(c)) => if in_i32(c) {
                        Ok(ModelV { id: i as i32, name: n, cake_id: Some(c as i32) })
                    } else {
                        Err(OrmError::TypeMismatch)
                    },
                    Some(ValueV::Null) => Ok(ModelV { id: i as i32, name: n, cake_id: None }),
                    Some(_) => Err(OrmError::TypeMismatch),
                    None => Err(OrmError::ColumnMissing),
                },
                Some(_) => Err(OrmError::TypeMismatch),
                None => Err(OrmError::ColumnMissing),
            }
        },
        Some(_) => Err(OrmError::TypeMismatch),
        None => Err(OrmError::ColumnMissing),
    }
}

impl Model {
    /// Decodes one result row into a model: each returned column by name
    /// into its typed field, failing on a missing column or a value of the
    /// wrong shape.
    pub fn from_query_result(row: &QueryRow) -> (r: Result<Model, OrmError>)
        ensures
            match (r, decode_s(row_v(row@))) {
                (Ok(m), Ok(mv)) => m@ == mv,
                (Err(a), Err(b)) => a == b,
                _ => false,
            },
    {
        let id: i32 = match lookup(row, "id") {
            Some(Value::Int(i)) => {
                if i < i32::MIN as i64 || i > i32::MAX as i64 {
                    return Err(OrmError::TypeMismatch);
                }
                i as i32
            },
            Some(_) => {
                return Err(OrmError::TypeMismatch);
            },
            None => {
                return Err(OrmError::ColumnMissing);
            },
        };
        let name: String = match lookup(row, "name") {
            Some(Value::Text(n)) => n,
            Some(_) => {
                return Err(OrmError::TypeMismatch);
            },
            None => {
                return Err(OrmError::ColumnMissing);
            },
        };
        let cake_id: Option<i32> = match lookup(row, "cake_id") {
            Some(Value::Int(c)) => {
                if c < i32::MIN as i64 || c > i32::MAX as i64 {
                    return Err(OrmError::TypeMismatch);
                }
                Some(c as i32)
            },
            Some(Value::Null) => None,
            Some(_) => {
                return Err(OrmError::TypeMismatch);
            },
            None => {
                return Err(OrmError::ColumnMissing);
            },
        };
        Ok(Model { id, name, cake_id })
    }

    /// Snapshots this row for writing: every field is carried over as
    /// unchanged, so nothing is written until a field is set.
    pub fn into_active_model(self) -> (r: ActiveModel)
        ensures
            r@ == (ActiveModelV {
                id: ActiveValue::Unchanged(self.id),
                name: ActiveValue::Unchanged(self.name@),
                cake_id: ActiveValue::Unchanged(self.cake_id),
            }),
    {
        ActiveModel {
            id: ActiveValue::Unchanged(self.id),
            name: ActiveValue::Unchanged(self.name),
            cake_id: ActiveValue::Unchanged(self.cake_id),
        }
    }
}

/// A partial write of one `fruit` row: only explicitly set fields reach an
/// INSERT or the SET clause of an UPDATE.
#[derive(Clone, Debug, PartialEq)]
pub struct ActiveModel {
    pub id: ActiveValue<i32>,
    pub name: ActiveValue<String>,
    pub cake_id: ActiveValue<Option<i32>>,
}

/// Spec-level mirror of [`ActiveModel`].
pub struct ActiveModelV {
    pub id: ActiveValue<i32>,
    pub name: ActiveValue<Seq<char>>,
    pub cake_id: ActiveValue<Option<i32>>,
}

impl View for ActiveModel {
    type V = ActiveModelV;

    open spec fn view(&self) -> ActiveModelV {
        ActiveModelV { id: self.id@, name: self.name@, cake_id: self.cake_id@ }
    }
}

impl Default for ActiveModel {
    /// The blank write: every field unset.
    fn default() -> (r: Self)
        ensures
            r@ == (ActiveModelV {
                id: ActiveValue::Unset,
                name: ActiveValue::Unset,
                cake_id: ActiveValue::Unset,
            }),
    {
        ActiveModel {
            id: ActiveValue::Unset,
            name: ActiveValue::Unset,
            cake_id: ActiveValue::Unset,
        }
    }
}

/// Maps an integer field's state onto plain values.
pub open spec fn av_int_v(a: ActiveValue<i32>) -> ActiveValue<ValueV> {
    match a {
        ActiveValue::Assigned(v) => ActiveValue::Assigned(ValueV::Int(v as i64)),
        ActiveValue::Unchanged(v) => ActiveValue::Unchanged(ValueV::Int(v as i64)),
        ActiveValue::Unset => ActiveValue::Unset,
    }
}

/// Maps a text field's state onto plain values.
pub open spec fn av_text_v(a: ActiveValue<Seq<char>>) -> ActiveValue<ValueV> {
    match a {
        ActiveValue::Assigned(v) => ActiveValue::Assigned(ValueV::Text(v)),
        ActiveValue::Unchanged(v) => ActiveValue::Unchanged(ValueV::Text(v)),
        ActiveValue::Unset => ActiveValue::Unset,
    }
}

/// Maps a nullable integer field's state onto plain values.
pub open spec fn av_opt_int_v(a: ActiveValue<Option<i32>>) -> ActiveValue<ValueV> {
    match a {
        ActiveValue::Assigned(Some(v)) => ActiveValue::Assigned(ValueV::Int(v as i64)),
        ActiveValue::Assigned(None) => ActiveValue::Assigned(ValueV::Null),
        ActiveValue::Unchanged(Some(v)) => ActiveValue::Unchanged(ValueV::Int(v as i64)),
        ActiveValue::Unchanged(None) => ActiveValue::Unchanged(ValueV::Null),
        ActiveValue::Unset => ActiveValue::Unset,
    }
}

/// The named field list an active model stands for, in declaration order.
pub open spec fn fields_of(m: ActiveModelV) -> Seq<(Seq<char>, ActiveValue<ValueV>)> {
    seq![
        ("id"@, av_int_v(m.id)),
        ("name"@, av_text_v(m.name)),
        ("cake_id"@, av_opt_int_v(m.cake_id)),
    ]
}

impl ActiveModel {
    /// Sets the `id` field for writing.
    pub fn set_id(self, v: i32) -> (r: Self)
        ensures
            r@ == (ActiveModelV { id: ActiveValue::Assigned(v), ..self@ }),
    {
        ActiveModel { id: ActiveValue::Assigned(v), ..self }
    }

    /// Sets the `name` field for writing.
    pub fn set_name(self, v: String) -> (r: Self)
        ensures
            r@ == (ActiveModelV { name: ActiveValue::Assigned(v@), ..self@ }),
    {
        ActiveModel { name: ActiveValue::Assigned(v), ..self }
    }

    /// Sets the `cake_id` field for writing.
    pub fn set_cake_id(self, v: Option<i32>) -> (r: Self)
        ensures
            r@ == (ActiveModelV { cake_id: ActiveValue::Assigned(v), ..self@ }),
    {
        ActiveModel { cake_id: ActiveValue::Assigned(v), ..self }
    }

    /// The columns and field states this write stands for, in declaration
    /// order.
    pub fn field_list(&self) -> (r: Vec<(String, ActiveValue<Value>)>)
        ensures
            fields_v(r@) == fields_of(self@),
    {
        let mut v: Vec<(String, ActiveValue<Value>)> = Vec::new();
        let id_av: ActiveValue<Value> = match &self.id {
            ActiveValue::Assigned(x) => ActiveValue::Assigned(Value::Int(*x as i64)),
            ActiveValue::Unchanged(x) => ActiveValue::Unchanged(Value::Int(*x as i64)),
            ActiveValue::Unset => ActiveValue::Unset,
        };
        v.push(("id".to_owned(), id_av));
        let name_av: ActiveValue<Value> = match &self.name {
            ActiveValue::Assigned(x) => ActiveValue::Assigned(Value::Text(x.clone())),
            ActiveValue::Unchanged(x) => ActiveValue::Unchanged(Value::Text(x.clone())),
            ActiveValue::Unset => ActiveValue::Unset,
        };
        v.push(("name".to_owned(), name_av));
        let cake_av: ActiveValue<Value> = match &self.cake_id {
            ActiveValue::Assigned(Some(x)) => ActiveValue::Assigned(Value::Int(*x as i64)),
            ActiveValue::Assigned(None) => ActiveValue::Assigned(Value::Null),
            ActiveValue::Unchanged(Some(x)) => ActiveValue::Unchanged(Value::Int(*x as i64)),
            ActiveValue::Unchanged(None) => ActiveValue::Unchanged(Value::Null),
            ActiveValue::Unset => ActiveValue::Unset,
        };
        v.push(("cake_id".to_owned(), cake_av));
        proof {
            assert(fields_v(v@) =~= fields_of(self@));
        }
        v
    }

    /// The UPDATE this write stands for: SET only the explicitly set
    /// non-key fields, WHERE `id` equals its held value; a write whose key
    /// holds no value is a fault.
    pub fn update_statement(&self) -> (r: Result<UpdateStmt, OrmError>)
        ensures
            match r {
                Ok(u) => {
                    &&& pk_value_s(fields_of(self@), "id"@) is Some
                    &&& u@.table == "fruit"@
                    &&& u@.values == set_values_s(fields_of(self@), "id"@)
                    &&& u@.wheres.len() == 1
                    &&& is_col_eq_value(
                        u@.wheres[0],
                        "fruit"@,
                        "id"@,
                        pk_value_s(fields_of(self@), "id"@)->Some_0,
                    )
                },
                Err(e) => {
                    &&& pk_value_s(fields_of(self@), "id"@) is None
                    &&& e == OrmError::PrimaryKeyNotSet
                },
            },
    {
        let fields = self.field_list();
        build_update(Entity::table_name(), &fields, "id")
    }

    /// The INSERT this write stands for: it writes only the explicitly set
    /// fields; the rest take database defaults.
    pub fn insert_statement(&self) -> (r: InsertStmt)
        ensures
            r@.table == "fruit"@,
            r@.values == insert_values_s(fields_of(self@)),
    {
        let fields = self.field_list();
        build_insert(Entity::table_name(), &fields)
    }
}

} // verus!
