use vstd::prelude::*;

verus! {

/// Faults that the query-building and mapping layer reports.
///
/// Descriptor faults (`RelationArityMismatch`, `CompositeKeyUnsupported`,
/// `RelationNotFound`, `PrimaryKeyNotSet`) are programmer errors in entity
/// declarations surfaced at build time; `InvalidPageSize` is builder misuse;
/// `ColumnMissing` and `TypeMismatch` are recoverable row-decoding errors.
#[derive(Clone, Copy, Debug, PartialEq, Eq, Structural)]
pub enum OrmError {
    /// A relation's owning-side and target-side identities have different
    /// arities, so no ON condition can be derived.
    RelationArityMismatch,
    /// A composite (multi-column) key or identity was met where only the
    /// single-column case is supported.
    CompositeKeyUnsupported,
    /// No declared relation connects the two entities as requested.
    RelationNotFound,
    /// An update was requested from an active model whose primary-key field
    /// holds no value.
    PrimaryKeyNotSet,
    /// A paginator was requested with a page size of zero.
    InvalidPageSize,
    /// A required column is absent from a result row.
    ColumnMissing,
    /// A result-row value does not fit the typed field it should fill.
    TypeMismatch,
}

} // verus!
