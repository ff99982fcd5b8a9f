use vstd::prelude::*;

verus! {

/// How a field is projected.
#[derive(Debug, Clone, PartialEq, Eq)]
pub enum ProjectionKind {
    /// The field is projected under its own name.
    PlainName,
    /// The field is read from a differently named source property.
    Alias(String),
    /// The field is computed by an arbitrary expression.
    Expression(String),
}

/// Mathematical value of a [`ProjectionKind`].
pub enum KindView {
    PlainName,
    Alias(Seq<char>),
    Expression(Seq<char>),
}

impl View for ProjectionKind {
    type V = KindView;

    open spec fn view(&self) -> KindView {
        match self {
            ProjectionKind::PlainName => KindView::PlainName,
            ProjectionKind::Alias(a) => KindView::Alias(a@),
            ProjectionKind::Expression(e) => KindView::Expression(e@),
        }
    }
}

/// One field of a record type, ready for shape compilation.
///
/// `nested` holds the name of the record type whose shape is composed into
/// this field's projection. Together with `ProjectionKind::Expression` the
/// nested record is ignored: an expression is emitted as it stands.
#[derive(Debug, Clone, PartialEq, Eq)]
pub struct FieldSpec {
    pub name: String,
    pub kind: ProjectionKind,
    pub nested: Option<String>,
}

pub struct FieldView {
    pub name: Seq<char>,
    pub kind: KindView,
    pub nested: Option<Seq<char>>,
}

impl FieldView {
    /// An alias or an expression is never empty.
    pub open spec fn well_formed(self) -> bool {
        match self.kind {
            KindView::Alias(a) => a.len() > 0,
            KindView::Expression(e) => e.len() > 0,
            KindView::PlainName => true,
        }
    }
}

pub open spec fn opt_view(o: Option<String>) -> Option<Seq<char>> {
    match o {
        Some(s) => Some(s@),
        None => None,
    }
}

impl View for FieldSpec {
    type V = FieldView;

    open spec fn view(&self) -> FieldView {
        FieldView { name: self.name@, kind: self.kind@, nested: opt_view(self.nested) }
    }
}

/// A named record type with its fields in declaration order.
#[derive(Debug, Clone, PartialEq, Eq)]
pub struct RecordType {
    pub name: String,
    pub fields: Vec<FieldSpec>,
}

pub struct RecordView {
    pub name: Seq<char>,
    pub fields: Seq<FieldView>,
}

impl View for RecordType {
    type V = RecordView;

    open spec fn view(&self) -> RecordView {
        RecordView { name: self.name@, fields: self.fields@.map_values(|f: FieldSpec| f@) }
    }
}

/// The declared type of a field, as far as nested resolution needs it.
#[derive(Debug, PartialEq, Eq)]
pub enum DeclaredType {
    /// A path type, given by its last segment (`Organization`, `crate::Org`).
    Named(String),
    /// `Vec<T>`: a collection of `T`.
    Collection(Box<DeclaredType>),
    /// `Option<T>`: an optional `T`.
    Optional(Box<DeclaredType>),
    /// Any type that is not a named type reference (tuple, reference, array).
    Other,
}

/// One entry of a field's annotation: `key = "value"` or a bare `key`.
#[derive(Debug, Clone, PartialEq, Eq)]
pub struct AnnotationEntry {
    pub key: String,
    pub value: Option<String>,
}

pub struct EntryView {
    pub key: Seq<char>,
    pub value: Option<Seq<char>>,
}

impl View for AnnotationEntry {
    type V = EntryView;

    open spec fn view(&self) -> EntryView {
        EntryView { key: self.key@, value: opt_view(self.value) }
    }
}

/// A field as written in a record definition: its name, its declared type and
/// its annotation entries in the order written.
#[derive(Debug, PartialEq, Eq)]
pub struct FieldDefinition {
    pub name: String,
    pub declared_type: DeclaredType,
    pub annotations: Vec<AnnotationEntry>,
}

/// A structural error in a record definition or a query template.
#[derive(Debug, Clone, PartialEq, Eq)]
pub enum DefinitionError {
    /// The field carries more than one of `alias` and `exp`.
    ConflictingProjection { field: String },
    /// The field's `alias` is the empty string.
    EmptyAlias { field: String },
    /// The field's `exp` is the empty string.
    EmptyExpression { field: String },
    /// The field carries an annotation key that is not recognised.
    UnknownAnnotation { field: String, key: String },
    /// `alias` or `exp` was given without a value.
    MissingValue { field: String, key: String },
    /// `nested` was given a value.
    UnexpectedValue { field: String, key: String },
    /// The field is `nested` but its type is not a bare or singly wrapped named type.
    NestedNotTypeReference { field: String },
    /// No record type of this name is registered.
    UnknownRecord { name: String },
    /// Resolving nested shapes went deeper than there are record types: the
    /// nesting holds a cycle that reaches this record type.
    NestingCycle { name: String },
}

pub enum ErrorView {
    ConflictingProjection { field: Seq<char> },
    EmptyAlias { field: Seq<char> },
    EmptyExpression { field: Seq<char> },
    UnknownAnnotation { field: Seq<char>, key: Seq<char> },
    MissingValue { field: Seq<char>, key: Seq<char> },
    UnexpectedValue { field: Seq<char>, key: Seq<char> },
    NestedNotTypeReference { field: Seq<char> },
    UnknownRecord { name: Seq<char> },
    NestingCycle { name: Seq<char> },
}

impl View for DefinitionError {
    type V = ErrorView;

    open spec fn view(&self) -> ErrorView {
        match self {
            DefinitionError::ConflictingProjection { field } => ErrorView::ConflictingProjection {
                field: field@,
            },
            DefinitionError::EmptyAlias { field } => ErrorView::EmptyAlias { field: field@ },
            DefinitionError::EmptyExpression { field } => ErrorView::EmptyExpression {
                field: field@,
            },
            DefinitionError::UnknownAnnotation { field, key } => ErrorView::UnknownAnnotation {
                field: field@,
                key: key@,
            },
            DefinitionError::MissingValue { field, key } => ErrorView::MissingValue {
                field: field@,
                key: key@,
            },
            DefinitionError::UnexpectedValue { field, key } => ErrorView::UnexpectedValue {
                field: field@,
                key: key@,
            },
            DefinitionError::NestedNotTypeReference { field } => ErrorView::NestedNotTypeReference {
                field: field@,
            },
            DefinitionError::UnknownRecord { name } => ErrorView::UnknownRecord { name: name@ },
            DefinitionError::NestingCycle { name } => ErrorView::NestingCycle { name: name@ },
        }
    }
}

/// The mathematical value of a text result.
pub open spec fn text_result(r: Result<String, DefinitionError>) -> Result<Seq<char>, ErrorView> {
    match r {
        Ok(s) => Ok(s@),
        Err(e) => Err(e@),
    }
}

} // verus!
