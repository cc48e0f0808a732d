//! Name resolution: each stage declaration is turned into its resolved
//! instances. The canonical identifier is the snake-case form of the raw
//! identifier and the factory key its lowercase form. Decorator scanning
//! stops at the first decorator of a recognized kind (`name` or `count`):
//! a `name` decorator carrying a string literal overrides the display
//! name; a `count` decorator carrying an integer literal N replaces the
//! declaration with N suffixed instances and removes the unsuffixed
//! identifier from the active set. A wrong literal kind on either
//! decorator raises `DecoratorValueTypeError`.

use vstd::prelude::*;
use crate::schema::{seq_views, LiteralValue, RawDecorator, SchemaError, StageDecl};
use crate::numerals::{digits_in_bound, digits_val, suffixed_id_spec, parse_count, suffixed_id};
use crate::trusted::{lower_of, snake_of, lower_ident, snake_ident};

verus! {

/// One resolved stage instance, in the model: canonical identifier,
/// factory key, display name, and the index of the declaration it came
/// from.
pub struct SpecResolved {
    pub id: Seq<char>,
    pub factory: Seq<char>,
    pub display: Seq<char>,
    pub decl: int,
}

/// One resolved stage instance: canonical identifier, factory key,
/// display name, and the index of the declaration it came from.
#[derive(Clone, Debug, PartialEq, Eq)]
pub struct ResolvedStage {
    pub id: String,
    pub factory: String,
    pub display: String,
    pub decl: usize,
}

impl View for ResolvedStage {
    type V = SpecResolved;

    open spec fn view(&self) -> SpecResolved {
        SpecResolved {
            id: self.id@,
            factory: self.factory@,
            display: self.display@,
            decl: self.decl as int,
        }
    }
}

/// The sequence of models of a sequence of resolved stages.
pub open spec fn rs_views(v: Seq<ResolvedStage>) -> Seq<SpecResolved> {
    v.map_values(|r: ResolvedStage| r@)
}

/// The canonical identifiers of a resolved sequence, in order.
pub open spec fn resolved_ids(rs: Seq<SpecResolved>) -> Seq<Seq<char>> {
    rs.map_values(|r: SpecResolved| r.id)
}

/// The directive that governs a stage's resolution, if any.
pub enum NamingDirective {
    NoDirective,
    NameOf(LiteralValue),
    CountOf(LiteralValue),
}

/// Whether the resolver recognizes this decorator kind.
pub open spec fn is_recognized(d: RawDecorator) -> bool {
    d matches RawDecorator::NameDec(_) || d matches RawDecorator::CountDec(_)
}

/// The directive carried by one recognized decorator.
pub open spec fn directive_of(d: RawDecorator) -> NamingDirective {
    match d {
        RawDecorator::NameDec(l) => NamingDirective::NameOf(l),
        RawDecorator::CountDec(l) => NamingDirective::CountOf(l),
        _ => NamingDirective::NoDirective,
    }
}

/// The first recognized directive at or after position `j`, scanning in
/// written order.
pub open spec fn first_directive_from(decs: Seq<RawDecorator>, j: int) -> NamingDirective
    decreases decs.len() - j,
{
    if j < 0 || j >= decs.len() {
        NamingDirective::NoDirective
    } else if is_recognized(decs[j]) {
        directive_of(decs[j])
    } else {
        first_directive_from(decs, j + 1)
    }
}

/// The canonical identifier of a declaration: the snake-case form of its
/// raw identifier.
pub open spec fn stage_canon(s: StageDecl) -> Seq<char> {
    snake_of(s.raw@)
}

/// The factory key of a declaration: the lowercase form of its raw
/// identifier.
pub open spec fn stage_factory(s: StageDecl) -> Seq<char> {
    lower_of(s.raw@)
}

/// The `n` independent instances that multiplicity expansion produces
/// from one declaration: suffixed `_0 … _(n-1)`, each its own display
/// name.
pub open spec fn expanded_instances(canon: Seq<char>, factory: Seq<char>, n: nat, idx: int) -> Seq<
    SpecResolved,
> {
    Seq::new(
        n,
        |k: int| SpecResolved {
            id: suffixed_id_spec(canon, k as nat),
            factory: factory,
            display: suffixed_id_spec(canon, k as nat),
            decl: idx,
        },
    )
}

/// The resolution of one declaration at index `idx`: its instances, or
/// the structural error its decorators raise.
pub open spec fn resolve_stage_spec(s: StageDecl, idx: int) -> Result<
    Seq<SpecResolved>,
    SchemaError,
> {
    let canon = stage_canon(s);
    let fact = stage_factory(s);
    match first_directive_from(s.decorators@, 0) {
        NamingDirective::NoDirective => Ok(
            seq![SpecResolved { id: canon, factory: fact, display: canon, decl: idx }],
        ),
        NamingDirective::NameOf(lit) => match lit {
            LiteralValue::StrLit(n) => Ok(
                seq![SpecResolved { id: canon, factory: fact, display: n@, decl: idx }],
            ),
            _ => Err(SchemaError::DecoratorValueTypeError),
        },
        NamingDirective::CountOf(lit) => match lit {
            LiteralValue::IntLit(t) => if digits_in_bound(t@, 65535) {
                Ok(expanded_instances(canon, fact, digits_val(t@), idx))
            } else {
                Err(SchemaError::DecoratorValueTypeError)
            },
            _ => Err(SchemaError::DecoratorValueTypeError),
        },
    }
}

/// The resolution of the declarations at or after index `i`, in order,
/// surfacing the first error.
pub open spec fn resolve_from(stages: Seq<StageDecl>, i: int) -> Result<
    Seq<SpecResolved>,
    SchemaError,
>
    decreases stages.len() - i,
{
    if i < 0 || i >= stages.len() {
        Ok(Seq::empty())
    } else {
        match resolve_stage_spec(stages[i], i) {
            Err(e) => Err(e),
            Ok(insts) => match resolve_from(stages, i + 1) {
                Err(e) => Err(e),
                Ok(rest) => Ok(insts + rest),
            },
        }
    }
}

/// The resolution of a whole declaration list.
pub open spec fn resolve_spec(stages: Seq<StageDecl>) -> Result<Seq<SpecResolved>, SchemaError> {
    resolve_from(stages, 0)
}

/// Resolves one declaration into its instances.
fn resolve_stage(s: &StageDecl, idx: usize) -> (r: Result<Vec<ResolvedStage>, SchemaError>)
    ensures
        (r matches Ok(v) ==> resolve_stage_spec(*s, idx as int) == Ok::<_, SchemaError>(
            rs_views(v@),
        )),
        (r matches Err(e) ==> resolve_stage_spec(*s, idx as int) == Err::<Seq<SpecResolved>, _>(
            e,
        )),
{
    let canon = snake_ident(s.raw.as_str());
    let fact = lower_ident(s.raw.as_str());
    let n = s.decorators.len();
    let mut i: usize = 0;
    while i < n
        invariant
            i <= n,
            n == s.decorators@.len(),
            canon@ == stage_canon(*s),
            fact@ == stage_factory(*s),
            first_directive_from(s.decorators@, 0) == first_directive_from(
                s.decorators@,
                i as int,
            ),
        decreases n - i,
    {
        match &s.decorators[i] {
            RawDecorator::NameDec(lit) => {
                match lit {
                    LiteralValue::StrLit(nm) => {
                        let one = ResolvedStage {
                            id: canon,
                            factory: fact,
                            display: nm.clone(),
                            decl: idx,
                        };
                        let out = vec![one];
                        assert(rs_views(out@) =~= seq![
                            SpecResolved {
                                id: stage_canon(*s),
                                factory: stage_factory(*s),
                                display: nm@,
                                decl: idx as int,
                            },
                        ]);
                        return Ok(out);
                    },
                    _ => {
                        return Err(SchemaError::DecoratorValueTypeError);
                    },
                }
            },
            RawDecorator::CountDec(lit) => {
                match lit {
                    LiteralValue::IntLit(t) => {
                        match parse_count(t.as_str()) {
                            Some(cnt) => {
                                let ghost goal = expanded_instances(
                                    stage_canon(*s),
                                    stage_factory(*s),
                                    digits_val(t@),
                                    idx as int,
                                );
                                let mut out: Vec<ResolvedStage> = Vec::new();
                                let mut k: u16 = 0;
                                while k < cnt
                                    invariant
                                        k <= cnt,
                                        cnt as nat == digits_val(t@),
                                        canon@ == stage_canon(*s),
                                        fact@ == stage_factory(*s),
                                        goal == expanded_instances(
                                            stage_canon(*s),
                                            stage_factory(*s),
                                            digits_val(t@),
                                            idx as int,
                                        ),
                                        out@.len() == k as int,
                                        forall|j: int|
                                            0 <= j < k as int ==> #[trigger] out@[j]@ == goal[j],
                                    decreases cnt - k,
                                {
                                    let inst_id = suffixed_id(canon.as_str(), k);
                                    let display_id = inst_id.clone();
                                    out.push(
                                        ResolvedStage {
                                            id: inst_id,
                                            factory: fact.clone(),
                                            display: display_id,
                                            decl: idx,
                                        },
                                    );
                                    k = k + 1;
                                }
                                assert(rs_views(out@) =~= goal);
                                return Ok(out);
                            },
                            None => {
                                return Err(SchemaError::DecoratorValueTypeError);
                            },
                        }
                    },
                    _ => {
                        return Err(SchemaError::DecoratorValueTypeError);
                    },
                }
            },
            _ => {
                i = i + 1;
            },
        }
    }
    let display = canon.clone();
    let one = ResolvedStage { id: canon, factory: fact, display, decl: idx };
    let out = vec![one];
    assert(rs_views(out@) =~= seq![
        SpecResolved {
            id: stage_canon(*s),
            factory: stage_factory(*s),
            display: stage_canon(*s),
            decl: idx as int,
        },
    ]);
    Ok(out)
}

/// Resolves a whole declaration list in order, surfacing the first
/// error, as `resolve_spec` states.
pub fn resolve_stages(stages: &Vec<StageDecl>) -> (r: Result<Vec<ResolvedStage>, SchemaError>)
    ensures
        (r matches Ok(v) ==> resolve_spec(stages@) == Ok::<_, SchemaError>(rs_views(v@))),
        (r matches Err(e) ==> resolve_spec(stages@) == Err::<Seq<SpecResolved>, _>(e)),
{
    let mut out: Vec<ResolvedStage> = Vec::new();
    let mut i: usize = 0;
    while i < stages.len()
        invariant
            i <= stages@.len(),
            resolve_from(stages@, 0) == (match resolve_from(stages@, i as int) {
                Ok(rest) => Ok::<_, SchemaError>(rs_views(out@) + rest),
                Err(e) => Err(e),
            }),
        decreases stages@.len() - i,
    {
        let ghost prev = out@;
        match resolve_stage(&stages[i], i) {
            Ok(mut v) => {
                proof {
                    assert(rs_views(prev + v@) =~= rs_views(prev) + rs_views(v@));
                    let rest_r = resolve_from(stages@, i + 1);
                    match rest_r {
                        Ok(rest) => {
                            assert(rs_views(prev) + (rs_views(v@) + rest) =~= rs_views(prev + v@)
                                + rest);
                        },
                        Err(_) => {},
                    }
                }
                out.append(&mut v);
                i = i + 1;
            },
            Err(e) => {
                return Err(e);
            },
        }
    }
    assert(rs_views(out@) + Seq::<SpecResolved>::empty() =~= rs_views(out@));
    Ok(out)
}

/// Collects the canonical identifiers of a resolved list, in order.
pub fn canonical_ids(resolved: &Vec<ResolvedStage>) -> (r: Vec<String>)
    ensures
        seq_views(r@) == resolved_ids(rs_views(resolved@)),
{
    let mut out: Vec<String> = Vec::new();
    let mut i: usize = 0;
    while i < resolved.len()
        invariant
            i <= resolved@.len(),
            out@.len() == i as int,
            forall|j: int| 0 <= j < i as int ==> (#[trigger] out@[j])@ == rs_views(resolved@)[j].id,
        decreases resolved@.len() - i,
    {
        out.push(resolved[i].id.clone());
        i = i + 1;
    }
    assert(seq_views(out@) =~= resolved_ids(rs_views(resolved@)));
    out
}

/// Whether the identifiers of `s` are pairwise distinct.
pub open spec fn distinct_seq(s: Seq<Seq<char>>) -> bool {
    forall|i: int, j: int| 0 <= i < j < s.len() ==> s[i] != s[j]
}

/// The case-normalized, multiplicity-expanded canonical identifiers that
/// one declaration contributes to the active set: the suffixed family
/// under a well-formed `count` directive (the unsuffixed name absent),
/// the single canonical identifier otherwise.
pub open spec fn stage_expanded_ids(s: StageDecl) -> Seq<Seq<char>> {
    let canon = stage_canon(s);
    match first_directive_from(s.decorators@, 0) {
        NamingDirective::CountOf(lit) => match lit {
            LiteralValue::IntLit(t) => if digits_in_bound(t@, 65535) {
                Seq::new(digits_val(t@), |k: int| suffixed_id_spec(canon, k as nat))
            } else {
                Seq::empty()
            },
            _ => Seq::empty(),
        },
        _ => seq![canon],
    }
}

/// The expanded canonical identifiers of all declarations from index `i`
/// on, in declaration order.
pub open spec fn expanded_ids_from(stages: Seq<StageDecl>, i: int) -> Seq<Seq<char>>
    decreases stages.len() - i,
{
    if i < 0 || i >= stages.len() {
        Seq::empty()
    } else {
        stage_expanded_ids(stages[i]) + expanded_ids_from(stages, i + 1)
    }
}

/// The expanded canonical identifiers of a whole declaration list.
pub open spec fn expanded_ids(stages: Seq<StageDecl>) -> Seq<Seq<char>> {
    expanded_ids_from(stages, 0)
}

/// A successfully resolved declaration carries exactly its expanded
/// canonical identifiers, in order.
proof fn lemma_stage_ids_are_expanded(s: StageDecl, idx: int)
    requires
        resolve_stage_spec(s, idx) is Ok,
    ensures
        resolved_ids(resolve_stage_spec(s, idx)->Ok_0) == stage_expanded_ids(s),
{
    let canon = stage_canon(s);
    match first_directive_from(s.decorators@, 0) {
        NamingDirective::NoDirective => {
            assert(resolved_ids(resolve_stage_spec(s, idx)->Ok_0) =~= seq![canon]);
        },
        NamingDirective::NameOf(lit) => {
            assert(resolved_ids(resolve_stage_spec(s, idx)->Ok_0) =~= seq![canon]);
        },
        NamingDirective::CountOf(lit) => {
            match lit {
                LiteralValue::IntLit(t) => {
                    assert(resolved_ids(resolve_stage_spec(s, idx)->Ok_0) =~= Seq::new(
                        digits_val(t@),
                        |k: int| suffixed_id_spec(canon, k as nat),
                    ));
                },
                _ => {},
            }
        },
    }
}

/// A successfully resolved declaration list carries exactly the
/// case-normalized, multiplicity-expanded identifiers of its
/// declarations, in declaration order.
pub proof fn lemma_resolved_ids_are_expanded(stages: Seq<StageDecl>, i: int)
    requires
        resolve_from(stages, i) is Ok,
    ensures
        resolved_ids(resolve_from(stages, i)->Ok_0) == expanded_ids_from(stages, i),
    decreases stages.len() - i,
{
    if i < 0 || i >= stages.len() {
        assert(resolved_ids(resolve_from(stages, i)->Ok_0)
            =~= expanded_ids_from(stages, i));
    } else {
        lemma_stage_ids_are_expanded(stages[i], i);
        lemma_resolved_ids_are_expanded(stages, i + 1);
        let insts = resolve_stage_spec(stages[i], i)->Ok_0;
        let rest = resolve_from(stages, i + 1)->Ok_0;
        assert(resolved_ids(insts + rest) =~= resolved_ids(insts) + resolved_ids(rest));
    }
}

} // verus!
