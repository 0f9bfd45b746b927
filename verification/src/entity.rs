use vstd::prelude::*;

use crate::statement::{ColRef, ColRefV, Value, ValueV};

verus! {

/// An identifier in the schema: a column or table name.
pub trait Iden {
    /// The identifier's text at spec level.
    spec fn name_s(&self) -> Seq<char>;

    /// The identifier's text.
    fn as_str(&self) -> (r: &'static str)
        ensures
            r@ == self.name_s(),
    ;
}

/// A closed enumeration whose variants can be listed, always in declaration
/// order. Order stability is what ties projected columns to result fields.
pub trait Iterable: Sized {
    /// The variants in declaration order.
    spec fn variants() -> Seq<Self>;

    /// Lists the variants in declaration order.
    fn iter() -> (r: Vec<Self>)
        ensures
            r@ == Self::variants(),
    ;
}

/// Ties an entity to its table name.
pub trait EntityName {
    /// The table name at spec level.
    spec fn table_name_s() -> Seq<char>;

    /// The table name.
    fn table_name() -> (r: &'static str)
        ensures
            r@ == Self::table_name_s(),
    ;
}

/// The logical SQL type of a column.
#[derive(Clone, Copy, Debug, PartialEq, Eq, Structural)]
pub enum ColumnType {
    Integer,
    Text,
    Boolean,
}

/// A column's definition: logical type and constraints.
#[derive(Clone, Copy, Debug, PartialEq, Eq, Structural)]
pub struct ColumnDef {
    pub col_type: ColumnType,
    pub null: bool,
    pub unique: bool,
}

impl From<ColumnType> for ColumnDef {
    /// A plain definition of the given type: not nullable, not unique.
    fn from(t: ColumnType) -> (r: ColumnDef) {
        ColumnDef { col_type: t, null: false, unique: false }
    }
}

impl vstd::std_specs::convert::FromSpecImpl<ColumnType> for ColumnDef {
    open spec fn obeys_from_spec() -> bool {
        true
    }

    open spec fn from_spec(t: ColumnType) -> ColumnDef {
        ColumnDef { col_type: t, null: false, unique: false }
    }
}

/// One column of an entity: a named, typed table attribute.
pub trait ColumnTrait: Iden + Iterable + Copy {
    /// The entity the column belongs to.
    type EntityName: EntityName;

    /// The column's definition at spec level.
    spec fn def_s(&self) -> ColumnDef;

    /// The column's definition: logical type and constraints.
    fn def(&self) -> (r: ColumnDef)
        ensures
            r == self.def_s(),
    ;

    /// The table-qualified reference to this column.
    fn as_column_ref(&self) -> (r: ColRef)
        ensures
            r@ == (ColRefV {
                table: <Self::EntityName as EntityName>::table_name_s(),
                name: self.name_s(),
            }),
    {
        ColRef {
            table: <Self::EntityName as EntityName>::table_name().to_owned(),
            name: self.as_str().to_owned(),
        }
    }
}

/// The distinguished key of an entity. Each variant stands for one key
/// column; whether the key is database-generated is a per-entity flag.
pub trait PrimaryKeyTrait: Iden + Iterable + Copy {
    /// The column type of the owning entity.
    type Column: ColumnTrait;

    /// Whether the database generates this key, at spec level.
    spec fn auto_increment_s() -> bool;

    /// Whether the database generates this key.
    fn auto_increment() -> (r: bool)
        ensures
            r == Self::auto_increment_s(),
    ;

    /// The column this key variant stands for, at spec level.
    spec fn into_column_s(self) -> Self::Column;

    /// The column this key variant stands for.
    fn into_column(self) -> (r: Self::Column)
        ensures
            r == self.into_column_s(),
    ;
}

/// The column(s) on one side of a relation: single or two-column.
#[derive(Debug, PartialEq)]
pub enum Identity {
    Unary(String),
    Binary(String, String),
}

/// Spec-level mirror of [`Identity`].
pub enum IdentityV {
    Unary(Seq<char>),
    Binary(Seq<char>, Seq<char>),
}

impl View for Identity {
    type V = IdentityV;

    open spec fn view(&self) -> IdentityV {
        match self {
            Identity::Unary(a) => IdentityV::Unary(a@),
            Identity::Binary(a, b) => IdentityV::Binary(a@, b@),
        }
    }
}

impl Clone for Identity {
    fn clone(&self) -> (r: Self)
        ensures
            r@ == self@,
    {
        match self {
            Identity::Unary(a) => Identity::Unary(a.clone()),
            Identity::Binary(a, b) => Identity::Binary(a.clone(), b.clone()),
        }
    }
}

/// How many columns an identity names.
pub open spec fn arity(i: IdentityV) -> int {
    match i {
        IdentityV::Unary(_) => 1,
        IdentityV::Binary(_, _) => 2,
    }
}

/// Which side of the association owns the foreign key.
#[derive(Clone, Copy, Debug, PartialEq, Eq, Structural)]
pub enum RelationType {
    HasMany,
    BelongsTo,
}

/// A directed edge between two entities: the owning-side and target-side
/// columns named by `from_col` / `to_col` must be equal for the join.
#[derive(Debug, PartialEq)]
pub struct RelationDef {
    pub rel_type: RelationType,
    pub from_tbl: String,
    pub to_tbl: String,
    pub from_col: Identity,
    pub to_col: Identity,
}

/// Spec-level mirror of [`RelationDef`].
pub struct RelationDefV {
    pub rel_type: RelationType,
    pub from_tbl: Seq<char>,
    pub to_tbl: Seq<char>,
    pub from_col: IdentityV,
    pub to_col: IdentityV,
}

impl View for RelationDef {
    type V = RelationDefV;

    open spec fn view(&self) -> RelationDefV {
        RelationDefV {
            rel_type: self.rel_type,
            from_tbl: self.from_tbl@,
            to_tbl: self.to_tbl@,
            from_col: self.from_col@,
            to_col: self.to_col@,
        }
    }
}

impl Clone for RelationDef {
    fn clone(&self) -> (r: Self)
        ensures
            r@ == self@,
    {
        RelationDef {
            rel_type: self.rel_type,
            from_tbl: self.from_tbl.clone(),
            to_tbl: self.to_tbl.clone(),
            from_col: self.from_col.clone(),
            to_col: self.to_col.clone(),
        }
    }
}

/// An entity's closed set of associations, one variant per edge.
pub trait RelationTrait: Iterable + Copy {
    /// The edge a variant stands for, at spec level.
    spec fn def_s(&self) -> RelationDefV;

    /// The edge a variant stands for.
    fn def(&self) -> (r: RelationDef)
        ensures
            r@ == self.def_s(),
    ;
}

/// A typed snapshot of one row: every column has a value.
pub trait ModelTrait {
    /// The column type of the owning entity.
    type Column: ColumnTrait;

    /// The value held for a column, at spec level.
    spec fn get_s(&self, c: Self::Column) -> ValueV;

    /// The value held for a column.
    fn get(&self, c: Self::Column) -> (r: Value)
        ensures
            r@ == self.get_s(c),
    ;
}

/// One table: its name, columns, key, relations and row type.
pub trait EntityTrait: EntityName + Copy + Sized {
    type Column: ColumnTrait;

    type PrimaryKey: PrimaryKeyTrait<Column = Self::Column>;

    type Relation: RelationTrait;

    type Model: ModelTrait<Column = Self::Column>;
}

} // verus!
