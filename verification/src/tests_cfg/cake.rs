use vstd::prelude::*;

use crate::entity::{
    ColumnDef, ColumnTrait, ColumnType, EntityName, EntityTrait, Iden, Identity, IdentityV,
    Iterable, ModelTrait, PrimaryKeyTrait, RelationDef, RelationDefV, RelationTrait,
    RelationType,
};
use crate::statement::{Value, ValueV};

verus! {

/// The `cake` table.
#[derive(Clone, Copy, Debug, Default)]
pub struct Entity;

impl EntityName for Entity {
    open spec fn table_name_s() -> Seq<char> {
        "cake"@
    }

    fn table_name() -> (r: &'static str) {
        "cake"
    }
}

/// The columns of `cake`, in declaration order.
#[derive(Clone, Copy, Debug, PartialEq, Eq, Structural)]
pub enum Column {
    Id,
    Name,
}

impl Iden for Column {
    open spec fn name_s(&self) -> Seq<char> {
        match self {
            Column::Id => "id"@,
            Column::Name => "name"@,
        }
    }

    fn as_str(&self) -> (r: &'static str) {
        match self {
            Column::Id => "id",
            Column::Name => "name",
        }
    }
}

impl Iterable for Column {
    open spec fn variants() -> Seq<Column> {
        seq![Column::Id, Column::Name]
    }

    fn iter() -> (r: Vec<Column>) {
        let mut v: Vec<Column> = Vec::new();
        v.push(Column::Id);
        v.push(Column::Name);
        proof {
            assert(v@ =~= Self::variants());
        }
        v
    }
}

impl ColumnTrait for Column {
    type EntityName = Entity;

    open spec fn def_s(&self) -> ColumnDef {
        match self {
            Column::Id => ColumnDef { col_type: ColumnType::Integer, null: false, unique: false },
            Column::Name => ColumnDef { col_type: ColumnType::Text, null: false, unique: false },
        }
    }

    fn def(&self) -> (r: ColumnDef) {
        match self {
            Column::Id => ColumnDef::from(ColumnType::Integer),
            Column::Name => ColumnDef::from(ColumnType::Text),
        }
    }
}

/// The primary key of `cake`: its `id` column, database-generated.
#[derive(Clone, Copy, Debug)]
pub enum PrimaryKey {
    Id,
}

impl Iden for PrimaryKey {
    open spec fn name_s(&self) -> Seq<char> {
        "id"@
    }

    fn as_str(&self) -> (r: &'static str) {
        "id"
    }
}

impl Iterable for PrimaryKey {
    open spec fn variants() -> Seq<PrimaryKey> {
        seq![PrimaryKey::Id]
    }

    fn iter() -> (r: Vec<PrimaryKey>) {
        let mut v: Vec<PrimaryKey> = Vec::new();
        v.push(PrimaryKey::Id);
        proof {
            assert(v@ =~= Self::variants());
        }
        v
    }
}

impl PrimaryKeyTrait for PrimaryKey {
    type Column = Column;

    open spec fn auto_increment_s() -> bool {
        true
    }

    fn auto_increment() -> (r: bool) {
        true
    }

    open spec fn into_column_s(self) -> Column {
        Column::Id
    }

    fn into_column(self) -> (r: Column) {
        Column::Id
    }
}

/// The associations of `cake`: it owns many `fruit` rows through their
/// `cake_id` column.
#[derive(Clone, Copy, Debug)]
pub enum Relation {
    Fruit,
}

impl Iterable for Relation {
    open spec fn variants() -> Seq<Relation> {
        seq![Relation::Fruit]
    }

    fn iter() -> (r: Vec<Relation>) {
        let mut v: Vec<Relation> = Vec::new();
        v.push(Relation::Fruit);
        proof {
            assert(v@ =~= Self::variants());
        }
        v
    }
}

impl RelationTrait for Relation {
    open spec fn def_s(&self) -> RelationDefV {
        RelationDefV {
            rel_type: RelationType::HasMany,
            from_tbl: "cake"@,
            to_tbl: "fruit"@,
            from_col: IdentityV::Unary("id"@),
            to_col: IdentityV::Unary("cake_id"@),
        }
    }

    fn def(&self) -> (r: RelationDef) {
        RelationDef {
            rel_type: RelationType::HasMany,
            from_tbl: "cake".to_owned(),
            to_tbl: "fruit".to_owned(),
            from_col: Identity::Unary("id".to_owned()),
            to_col: Identity::Unary("cake_id".to_owned()),
        }
    }
}

/// One `cake` row.
#[derive(Debug, PartialEq)]
pub struct Model {
    pub id: i32,
    pub name: String,
}

/// Spec-level mirror of [`Model`].
pub struct ModelV {
    pub id: i32,
    pub name: Seq<char>,
}

impl View for Model {
    type V = ModelV;

    open spec fn view(&self) -> ModelV {
        ModelV { id: self.id, name: self.name@ }
    }
}

impl Clone for Model {
    fn clone(&self) -> (r: Self)
        ensures
            r@ == self@,
    {
        Model { id: self.id, name: self.name.clone() }
    }
}

impl ModelTrait for Model {
    type Column = Column;

    open spec fn get_s(&self, c: Column) -> ValueV {
        match c {
            Column::Id => ValueV::Int(self.id as i64),
            Column::Name => ValueV::Text(self.name@),
        }
    }

    fn get(&self, c: Column) -> (r: Value) {
        match c {
            Column::Id => Value::Int(self.id as i64),
            Column::Name => Value::Text(self.name.clone()),
        }
    }
}

impl EntityTrait for Entity {
    type Column = Column;

    type PrimaryKey = PrimaryKey;

    type Relation = Relation;

    type Model = Model;
}

} // verus!
