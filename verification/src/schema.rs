//! Input side of the compiler: the abstract declaration tree that a schema
//! is written in, and the structural errors that analysis can raise.
//!
//! A schema arrives already parsed into this tree: a schema name, a body,
//! and the schema-level link directives. Only a body that is a closed list
//! of tagged stage declarations is a valid schema; any other structural
//! shape is rejected with `ShapeError` before any further analysis runs.

use vstd::prelude::*;

verus! {

/// The structural errors that halt schema analysis. The first one
/// encountered is surfaced and no partial output is produced.
#[derive(Clone, Copy, Debug, PartialEq, Eq, Structural)]
pub enum SchemaError {
    /// The top-level declaration tree is not a closed list of tagged stages.
    ShapeError,
    /// A decorator that mandates a literal kind was given another kind:
    /// a non-string literal on `name`, or a non-integer (or out-of-range)
    /// literal on `count`.
    DecoratorValueTypeError,
    /// A link directive holds fewer than two identifier tokens.
    CountError,
}

/// A literal value as written in a decorator, before classification.
/// Integer and float literals carry their base-10 text: classification
/// decides whether the text denotes a representable value.
#[derive(Clone, Debug, PartialEq, Eq)]
pub enum LiteralValue {
    StrLit(String),
    CharLit(char),
    IntLit(String),
    FloatLit(String),
    BoolLit(bool),
    OtherLit,
}

/// The key of one `key = literal` assignment inside a `property` decorator.
/// Only a bare identifier key produces a set-operation; any other key form
/// drops the assignment silently.
#[derive(Clone, Debug, PartialEq, Eq)]
pub enum PropertyKey {
    BareKey(String),
    NonIdentKey,
}

/// One `key = literal` assignment inside a `property` decorator.
#[derive(Clone, Debug, PartialEq, Eq)]
pub struct PropertyEntry {
    pub key: PropertyKey,
    pub value: LiteralValue,
}

/// A decorator attached to one stage declaration, in written order.
#[derive(Clone, Debug, PartialEq, Eq)]
pub enum RawDecorator {
    /// `name = <literal>`: a display-name override (must be a string).
    NameDec(LiteralValue),
    /// `count = <literal>`: a multiplicity count (must be an integer).
    CountDec(LiteralValue),
    /// `property(key = literal, ...)`: typed configuration assignments.
    PropertyDec(Vec<PropertyEntry>),
    /// A decorator of no recognized kind; ignored by every analysis.
    OtherDec,
}

/// One declared stage: its raw identifier as written, and its ordered
/// decorator list.
#[derive(Clone, Debug, PartialEq, Eq)]
pub struct StageDecl {
    pub raw: String,
    pub decorators: Vec<RawDecorator>,
}

/// One schema-level link directive: the identifier tokens in written order.
#[derive(Clone, Debug, PartialEq, Eq)]
pub struct LinkChain {
    pub tokens: Vec<String>,
}

/// The body of the declaration tree. Only `TaggedStages` is a valid
/// schema body; the other shapes exist so that the parser can reject them.
#[derive(Clone, Debug, PartialEq, Eq)]
pub enum TreeBody {
    /// A closed, ordered set of tagged stage declarations.
    TaggedStages(Vec<StageDecl>),
    /// A record of named fields: not a schema.
    FieldRecord,
    /// An untagged overlay of fields: not a schema.
    UntaggedUnion,
}

/// The whole declaration tree handed to the compiler.
#[derive(Clone, Debug, PartialEq, Eq)]
pub struct DeclarationTree {
    pub name: String,
    pub body: TreeBody,
    pub links: Vec<LinkChain>,
}

/// The validated schema: what the parser extracts from a well-shaped tree.
#[derive(Clone, Debug, PartialEq, Eq)]
pub struct PipelineSchema {
    pub name: String,
    pub stages: Vec<StageDecl>,
    pub links: Vec<LinkChain>,
}

/// The sequence of views of a sequence of strings.
pub open spec fn seq_views(v: Seq<String>) -> Seq<Seq<char>> {
    v.map_values(|s: String| s@)
}

/// What parsing extracts from a declaration tree: the schema when the
/// body is the closed tagged stage list, `ShapeError` for any other
/// structural shape.
pub open spec fn parse_spec(t: DeclarationTree) -> Result<PipelineSchema, SchemaError> {
    match t.body {
        TreeBody::TaggedStages(stages) => Ok(
            PipelineSchema { name: t.name, stages: stages, links: t.links },
        ),
        _ => Err(SchemaError::ShapeError),
    }
}

/// Validates the top-level shape of the declaration tree and extracts
/// the schema, as `parse_spec` states: only a closed tagged stage list
/// is accepted, and any other shape fails with `ShapeError` before any
/// later analysis runs.
pub fn parse_schema(t: DeclarationTree) -> (r: Result<PipelineSchema, SchemaError>)
    ensures
        (r matches Ok(s) ==> parse_spec(t) == Ok::<PipelineSchema, SchemaError>(s)),
        (r matches Err(e) ==> parse_spec(t) == Err::<PipelineSchema, SchemaError>(e)),
{
    let DeclarationTree { name, body, links } = t;
    match body {
        TreeBody::TaggedStages(stages) => Ok(PipelineSchema { name, stages, links }),
        TreeBody::FieldRecord => Err(SchemaError::ShapeError),
        TreeBody::UntaggedUnion => Err(SchemaError::ShapeError),
    }
}

} // verus!
