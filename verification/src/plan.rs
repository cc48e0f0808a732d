//! The construction plan: the fully resolved, ordered instruction
//! sequence that a schema compiles to. In fixed phase order it holds one
//! creation instruction per resolved stage, one container-creation
//! instruction named after the schema, one registration per stage into
//! the container, the ordered link-wiring operations, and the ordered
//! property set-operations (applied per stage at creation time, before
//! container wiring), plus the description of the generated handle that
//! exposes every stage and the container.

use vstd::prelude::*;
use crate::links::{link_views, LinkInstruction, SpecLink};
use crate::props::{prop_views, PropertyInstruction, SpecProp};
use crate::resolve::{resolved_ids, rs_views, ResolvedStage, SpecResolved};
use crate::schema::seq_views;

verus! {

/// One creation instruction, in the model.
pub struct SpecCreate {
    pub id: Seq<char>,
    pub factory: Seq<char>,
    pub display: Seq<char>,
}

/// One creation instruction: canonical identifier, factory key, display
/// name.
#[derive(Clone, Debug, PartialEq, Eq)]
pub struct CreateInstruction {
    pub id: String,
    pub factory: String,
    pub display: String,
}

impl View for CreateInstruction {
    type V = SpecCreate;

    open spec fn view(&self) -> SpecCreate {
        SpecCreate { id: self.id@, factory: self.factory@, display: self.display@ }
    }
}

/// The sequence of models of a sequence of creation instructions.
pub open spec fn create_views(v: Seq<CreateInstruction>) -> Seq<SpecCreate> {
    v.map_values(|c: CreateInstruction| c@)
}

/// The canonical identifiers of a creation sequence, in order.
pub open spec fn creation_ids(cs: Seq<SpecCreate>) -> Seq<Seq<char>> {
    cs.map_values(|c: SpecCreate| c.id)
}

/// The generated handle, in the model: one field per resolved stage plus
/// the container field.
pub struct SpecHandle {
    pub stage_fields: Seq<Seq<char>>,
    pub container_field: Seq<char>,
}

/// The generated handle description: one field per resolved stage, for
/// inspection, plus the container field. Its two lifecycle operations
/// transition the container to the active and to the idle state.
#[derive(Clone, Debug, PartialEq, Eq)]
pub struct HandleShape {
    pub stage_fields: Vec<String>,
    pub container_field: String,
}

impl View for HandleShape {
    type V = SpecHandle;

    open spec fn view(&self) -> SpecHandle {
        SpecHandle {
            stage_fields: seq_views(self.stage_fields@),
            container_field: self.container_field@,
        }
    }
}

/// A whole construction plan, in the model.
pub struct SpecPlan {
    pub creations: Seq<SpecCreate>,
    pub container: Seq<char>,
    pub registrations: Seq<Seq<char>>,
    pub links: Seq<SpecLink>,
    pub properties: Seq<SpecProp>,
    pub handle: SpecHandle,
}

/// A whole construction plan, ready for code emission.
#[derive(Clone, Debug, PartialEq, Eq)]
pub struct ConstructionPlan {
    pub creations: Vec<CreateInstruction>,
    pub container: String,
    pub registrations: Vec<String>,
    pub links: Vec<LinkInstruction>,
    pub properties: Vec<PropertyInstruction>,
    pub handle: HandleShape,
}

impl View for ConstructionPlan {
    type V = SpecPlan;

    open spec fn view(&self) -> SpecPlan {
        SpecPlan {
            creations: create_views(self.creations@),
            container: self.container@,
            registrations: seq_views(self.registrations@),
            links: link_views(self.links@),
            properties: prop_views(self.properties@),
            handle: self.handle@,
        }
    }
}

/// The plan that a resolved schema assembles to: creations in resolved
/// order, the container named after the schema, registrations in the same
/// order, the given wiring and property operations, and the handle over
/// every stage plus the container.
pub open spec fn build_plan_spec(
    name: Seq<char>,
    resolved: Seq<SpecResolved>,
    links: Seq<SpecLink>,
    props: Seq<SpecProp>,
) -> SpecPlan {
    SpecPlan {
        creations: resolved.map_values(
            |r: SpecResolved| SpecCreate { id: r.id, factory: r.factory, display: r.display },
        ),
        container: name,
        registrations: resolved_ids(resolved),
        links: links,
        properties: props,
        handle: SpecHandle { stage_fields: resolved_ids(resolved), container_field: name },
    }
}

/// Assembles the construction plan, as `build_plan_spec` states.
pub fn build_plan(
    name: String,
    resolved: Vec<ResolvedStage>,
    links: Vec<LinkInstruction>,
    props: Vec<PropertyInstruction>,
) -> (p: ConstructionPlan)
    ensures
        p@ == build_plan_spec(name@, rs_views(resolved@), link_views(links@), prop_views(props@)),
{
    let ghost rsv = rs_views(resolved@);
    let mut creations: Vec<CreateInstruction> = Vec::new();
    let mut registrations: Vec<String> = Vec::new();
    let mut handle_fields: Vec<String> = Vec::new();
    let mut i: usize = 0;
    while i < resolved.len()
        invariant
            i <= resolved@.len(),
            rsv == rs_views(resolved@),
            creations@.len() == i as int,
            registrations@.len() == i as int,
            handle_fields@.len() == i as int,
            forall|j: int|
                0 <= j < i as int ==> (#[trigger] creations@[j])@ == (SpecCreate {
                    id: rsv[j].id,
                    factory: rsv[j].factory,
                    display: rsv[j].display,
                }),
            forall|j: int| 0 <= j < i as int ==> (#[trigger] registrations@[j])@ == rsv[j].id,
            forall|j: int| 0 <= j < i as int ==> (#[trigger] handle_fields@[j])@ == rsv[j].id,
        decreases resolved@.len() - i,
    {
        let r = &resolved[i];
        creations.push(
            CreateInstruction {
                id: r.id.clone(),
                factory: r.factory.clone(),
                display: r.display.clone(),
            },
        );
        registrations.push(r.id.clone());
        handle_fields.push(r.id.clone());
        i = i + 1;
    }
    let container_field = name.clone();
    let container = name;
    let p = ConstructionPlan {
        creations,
        container,
        registrations,
        links,
        properties: props,
        handle: HandleShape { stage_fields: handle_fields, container_field },
    };
    proof {
        assert(create_views(p.creations@) =~= rsv.map_values(
            |r: SpecResolved| SpecCreate { id: r.id, factory: r.factory, display: r.display },
        ));
        assert(seq_views(p.registrations@) =~= resolved_ids(rsv));
        assert(seq_views(p.handle.stage_fields@) =~= resolved_ids(rsv));
    }
    p
}

} // verus!
