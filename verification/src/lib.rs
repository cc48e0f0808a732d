//! A schema-to-plan compiler for directed processing pipelines.
//!
//! A declarative schema — an ordered set of named stage declarations with
//! naming, multiplicity, property and linking decorators — is analyzed into
//! a deterministic `ConstructionPlan`: ordered creation, registration,
//! wiring and configuration instructions plus a lifecycle-managed handle
//! description. The analysis validates shape, resolves canonical
//! identifiers, expands multiplicity counts, turns link directives into
//! pairwise wiring operations, and dispatches property literals to typed
//! setters, surfacing the first structural error with no partial output.

use vstd::prelude::*;

pub mod handle;
pub mod links;
pub mod numerals;
pub mod plan;
pub mod props;
pub mod resolve;
pub mod schema;
pub mod trusted;

use crate::links::{analyze_links, lemma_short_chain_rejected, links_spec};
use crate::plan::{build_plan, build_plan_spec, creation_ids, ConstructionPlan, SpecPlan};
use crate::props::{assign_properties, props_spec};
use crate::resolve::{
    canonical_ids, distinct_seq, expanded_ids, lemma_resolved_ids_are_expanded, resolve_spec,
    resolve_stages, resolved_ids,
};
use crate::schema::{
    parse_schema, parse_spec, DeclarationTree, PipelineSchema, SchemaError, StageDecl, TreeBody,
};

verus! {

/// The stage declarations of a tree (empty for a tree of another shape).
pub open spec fn tree_stages(t: DeclarationTree) -> Seq<StageDecl> {
    match t.body {
        TreeBody::TaggedStages(s) => s@,
        _ => Seq::empty(),
    }
}

/// What a declaration tree compiles to: the construction plan of its
/// schema, or the first structural error in analysis order — shape
/// validation, then name resolution, then link analysis (property
/// classification raises no error: malformed assignments are dropped).
pub open spec fn compile_spec(t: DeclarationTree) -> Result<SpecPlan, SchemaError> {
    match parse_spec(t) {
        Err(e) => Err(e),
        Ok(schema) => match resolve_spec(schema.stages@) {
            Err(e) => Err(e),
            Ok(res) => match links_spec(schema.links@, resolved_ids(res)) {
                Err(e) => Err(e),
                Ok(ls) => Ok(
                    build_plan_spec(schema.name@, res, ls, props_spec(schema.stages@, res)),
                ),
            },
        },
    }
}

/// Runs the whole analysis in strict sequence — shape validation, name
/// resolution, link analysis, property assignment, plan assembly — and
/// surfaces the first structural error with no partial output, as
/// `compile_spec` states.
pub fn compile(t: DeclarationTree) -> (r: Result<ConstructionPlan, SchemaError>)
    ensures
        (r matches Ok(p) ==> compile_spec(t) == Ok::<SpecPlan, SchemaError>(p@)),
        (r matches Err(e) ==> compile_spec(t) == Err::<SpecPlan, SchemaError>(e)),
{
    let schema = match parse_schema(t) {
        Ok(s) => s,
        Err(e) => {
            return Err(e);
        },
    };
    let PipelineSchema { name, stages, links: chains } = schema;
    let resolved = match resolve_stages(&stages) {
        Ok(v) => v,
        Err(e) => {
            return Err(e);
        },
    };
    let ids = canonical_ids(&resolved);
    let wiring = match analyze_links(&chains, &ids) {
        Ok(v) => v,
        Err(e) => {
            return Err(e);
        },
    };
    let properties = assign_properties(&stages, &resolved);
    Ok(build_plan(name, resolved, wiring, properties))
}

/// For every valid schema — one whose expanded canonical identifiers are
/// pairwise distinct — the canonical identifiers of the emitted creation
/// instructions are exactly the case-normalized, multiplicity-expanded
/// stage identifiers, in declaration order and without duplicates, and
/// the registrations carry the same identifiers.
pub proof fn lemma_creation_identifiers(t: DeclarationTree)
    requires
        compile_spec(t) is Ok,
        distinct_seq(expanded_ids(tree_stages(t))),
    ensures
        creation_ids(compile_spec(t)->Ok_0.creations) == expanded_ids(tree_stages(t)),
        distinct_seq(creation_ids(compile_spec(t)->Ok_0.creations)),
        compile_spec(t)->Ok_0.registrations == creation_ids(compile_spec(t)->Ok_0.creations),
{
    let schema = parse_spec(t)->Ok_0;
    let res = resolve_spec(schema.stages@)->Ok_0;
    lemma_resolved_ids_are_expanded(schema.stages@, 0);
    assert(creation_ids(compile_spec(t)->Ok_0.creations) =~= resolved_ids(res));
    assert(compile_spec(t)->Ok_0.registrations == resolved_ids(res));
}

/// A link directive of fewer than two tokens is never silently accepted:
/// whenever shape validation and name resolution succeed and some
/// directive is short, compilation fails with `CountError`.
pub proof fn lemma_short_directive_never_accepted(t: DeclarationTree)
    requires
        parse_spec(t) is Ok,
        resolve_spec(tree_stages(t)) is Ok,
        exists|i: int| 0 <= i < t.links@.len() && (#[trigger] t.links@[i].tokens@.len()) < 2,
    ensures
        compile_spec(t) == Err::<SpecPlan, SchemaError>(SchemaError::CountError),
{
    let schema = parse_spec(t)->Ok_0;
    let res = resolve_spec(schema.stages@)->Ok_0;
    lemma_short_chain_rejected(schema.links@, resolved_ids(res), 0);
}

/// Re-running the full analysis on the same declaration tree produces an
/// identical construction plan: compilation is a pure function of the
/// tree, so re-analysis is deterministic and idempotent.
pub proof fn lemma_compile_deterministic(a: DeclarationTree, b: DeclarationTree)
    requires
        a == b,
    ensures
        compile_spec(a) == compile_spec(b),
{
}

} // verus!
