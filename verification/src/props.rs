//! Property assignment: each stage's `property` decorators are turned
//! into an ordered list of typed set-operations over the stage's resolved
//! instances. An assignment whose key is not a bare identifier is dropped
//! silently; the literal is classified and dispatched by kind — string
//! and char directly, integers through the signed base-10 parse, floats
//! through the literal grammar check — and an unparseable or unsupported
//! literal is dropped silently, emitting no operation. Output order is
//! declaration order across stages, decorators, entries and instances.

use vstd::prelude::*;
use crate::schema::{seq_views, LiteralValue, PropertyEntry, PropertyKey, RawDecorator, StageDecl};
use crate::numerals::{i64_lit_val, i64_lit_valid, parse_i64};
use crate::resolve::{rs_views, ResolvedStage, SpecResolved};
use crate::trusted::{float_text_accepted, float_text_ok};

verus! {

/// A classified literal, in the model.
pub enum SpecValue {
    VStr(Seq<char>),
    VChar(char),
    VInt(int),
    VFloat(Seq<char>),
    VBool(bool),
}

/// A classified literal, ready for its typed setter. A string dispatches
/// to the coercing textual setter; char, int and bool carry their values;
/// a float carries its validated literal text.
#[derive(Clone, Debug, PartialEq, Eq)]
pub enum TypedValue {
    StrVal(String),
    CharVal(char),
    IntVal(i64),
    FloatVal(String),
    BoolVal(bool),
}

impl View for TypedValue {
    type V = SpecValue;

    open spec fn view(&self) -> SpecValue {
        match self {
            TypedValue::StrVal(s) => SpecValue::VStr(s@),
            TypedValue::CharVal(c) => SpecValue::VChar(*c),
            TypedValue::IntVal(n) => SpecValue::VInt(*n as int),
            TypedValue::FloatVal(t) => SpecValue::VFloat(t@),
            TypedValue::BoolVal(b) => SpecValue::VBool(*b),
        }
    }
}

impl TypedValue {
    /// An equal typed value.
    pub fn duplicate(&self) -> (r: TypedValue)
        ensures
            r@ == self@,
    {
        match self {
            TypedValue::StrVal(s) => TypedValue::StrVal(s.clone()),
            TypedValue::CharVal(c) => TypedValue::CharVal(*c),
            TypedValue::IntVal(n) => TypedValue::IntVal(*n),
            TypedValue::FloatVal(t) => TypedValue::FloatVal(t.clone()),
            TypedValue::BoolVal(b) => TypedValue::BoolVal(*b),
        }
    }
}

/// One property set-operation, in the model.
pub struct SpecProp {
    pub stage: Seq<char>,
    pub key: Seq<char>,
    pub value: SpecValue,
}

/// One property set-operation: owning stage, property key, typed value.
#[derive(Clone, Debug, PartialEq, Eq)]
pub struct PropertyInstruction {
    pub stage: String,
    pub key: String,
    pub value: TypedValue,
}

impl View for PropertyInstruction {
    type V = SpecProp;

    open spec fn view(&self) -> SpecProp {
        SpecProp { stage: self.stage@, key: self.key@, value: self.value@ }
    }
}

/// The sequence of models of a sequence of set-operations.
pub open spec fn prop_views(v: Seq<PropertyInstruction>) -> Seq<SpecProp> {
    v.map_values(|p: PropertyInstruction| p@)
}

/// The classification of a literal: the typed value it dispatches to, or
/// nothing when the literal is dropped.
pub open spec fn classify_spec(l: LiteralValue) -> Option<SpecValue> {
    match l {
        LiteralValue::StrLit(s) => Some(SpecValue::VStr(s@)),
        LiteralValue::CharLit(c) => Some(SpecValue::VChar(c)),
        LiteralValue::IntLit(t) => if i64_lit_valid(t@) {
            Some(SpecValue::VInt(i64_lit_val(t@)))
        } else {
            None
        },
        LiteralValue::FloatLit(t) => if float_text_accepted(t@) {
            Some(SpecValue::VFloat(t@))
        } else {
            None
        },
        LiteralValue::BoolLit(b) => Some(SpecValue::VBool(b)),
        LiteralValue::OtherLit => None,
    }
}

/// Classifies a literal into its typed value, or drops it, as
/// `classify_spec` states.
pub fn classify_value(l: &LiteralValue) -> (r: Option<TypedValue>)
    ensures
        (r matches Some(v) ==> classify_spec(*l) == Some(v@)),
        r is None ==> classify_spec(*l) is None,
{
    match l {
        LiteralValue::StrLit(s) => Some(TypedValue::StrVal(s.clone())),
        LiteralValue::CharLit(c) => Some(TypedValue::CharVal(*c)),
        LiteralValue::IntLit(t) => match parse_i64(t.as_str()) {
            Some(n) => Some(TypedValue::IntVal(n)),
            None => None,
        },
        LiteralValue::FloatLit(t) => if float_text_ok(t.as_str()) {
            Some(TypedValue::FloatVal(t.clone()))
        } else {
            None
        },
        LiteralValue::BoolLit(b) => Some(TypedValue::BoolVal(*b)),
        LiteralValue::OtherLit => None,
    }
}

/// The canonical identifiers, from position `k` on, of the resolved
/// instances that declaration `d` produced, in resolved order.
pub open spec fn insts_from(resolved: Seq<SpecResolved>, d: int, k: int) -> Seq<Seq<char>>
    decreases resolved.len() - k,
{
    if k < 0 || k >= resolved.len() {
        Seq::empty()
    } else {
        (if resolved[k].decl == d {
            seq![resolved[k].id]
        } else {
            Seq::empty()
        }) + insts_from(resolved, d, k + 1)
    }
}

/// The canonical identifiers of the instances of declaration `d`.
pub open spec fn insts_of(resolved: Seq<SpecResolved>, d: int) -> Seq<Seq<char>> {
    insts_from(resolved, d, 0)
}

/// One set-operation per instance from position `k` on, all with the same
/// key and value, in instance order.
pub open spec fn inst_ops_from(ids: Seq<Seq<char>>, k: int, key: Seq<char>, v: SpecValue) -> Seq<
    SpecProp,
>
    decreases ids.len() - k,
{
    if k < 0 || k >= ids.len() {
        Seq::empty()
    } else {
        seq![SpecProp { stage: ids[k], key: key, value: v }] + inst_ops_from(ids, k + 1, key, v)
    }
}

/// The set-operations of one `key = literal` assignment: one per
/// instance when the key is bare and the literal classifies, none
/// otherwise.
pub open spec fn entry_ops(e: PropertyEntry, ids: Seq<Seq<char>>) -> Seq<SpecProp> {
    match e.key {
        PropertyKey::BareKey(k) => match classify_spec(e.value) {
            Some(v) => inst_ops_from(ids, 0, k@, v),
            None => Seq::empty(),
        },
        PropertyKey::NonIdentKey => Seq::empty(),
    }
}

/// The set-operations of the assignments from position `j` on, in
/// written order.
pub open spec fn entries_from(entries: Seq<PropertyEntry>, ids: Seq<Seq<char>>, j: int) -> Seq<
    SpecProp,
>
    decreases entries.len() - j,
{
    if j < 0 || j >= entries.len() {
        Seq::empty()
    } else {
        entry_ops(entries[j], ids) + entries_from(entries, ids, j + 1)
    }
}

/// The set-operations of one decorator: those of its assignments when it
/// is a `property` decorator, none otherwise.
pub open spec fn dec_ops(d: RawDecorator, ids: Seq<Seq<char>>) -> Seq<SpecProp> {
    match d {
        RawDecorator::PropertyDec(entries) => entries_from(entries@, ids, 0),
        _ => Seq::empty(),
    }
}

/// The set-operations of the decorators from position `j` on, in written
/// order.
pub open spec fn decs_from(decs: Seq<RawDecorator>, ids: Seq<Seq<char>>, j: int) -> Seq<SpecProp>
    decreases decs.len() - j,
{
    if j < 0 || j >= decs.len() {
        Seq::empty()
    } else {
        dec_ops(decs[j], ids) + decs_from(decs, ids, j + 1)
    }
}

/// The set-operations of the stages from position `i` on, each over its
/// own resolved instances, in declaration order.
pub open spec fn props_from(stages: Seq<StageDecl>, resolved: Seq<SpecResolved>, i: int) -> Seq<
    SpecProp,
>
    decreases stages.len() - i,
{
    if i < 0 || i >= stages.len() {
        Seq::empty()
    } else {
        decs_from(stages[i].decorators@, insts_of(resolved, i), 0) + props_from(
            stages,
            resolved,
            i + 1,
        )
    }
}

/// The set-operations of a whole schema.
pub open spec fn props_spec(stages: Seq<StageDecl>, resolved: Seq<SpecResolved>) -> Seq<SpecProp> {
    props_from(stages, resolved, 0)
}

/// Collects the canonical identifiers of the instances of declaration
/// `d`, as `insts_of` states.
fn instance_ids(resolved: &Vec<ResolvedStage>, d: usize) -> (r: Vec<String>)
    ensures
        seq_views(r@) == insts_of(rs_views(resolved@), d as int),
{
    let ghost rsv = rs_views(resolved@);
    let mut out: Vec<String> = Vec::new();
    let mut k: usize = 0;
    while k < resolved.len()
        invariant
            k <= resolved@.len(),
            rsv == rs_views(resolved@),
            seq_views(out@) + insts_from(rsv, d as int, k as int) == insts_from(rsv, d as int, 0),
        decreases resolved@.len() - k,
    {
        let ghost before = out@;
        if resolved[k].decl == d {
            out.push(resolved[k].id.clone());
            proof {
                assert(seq_views(out@) =~= seq_views(before) + seq![rsv[k as int].id]);
                assert(seq_views(before) + (seq![rsv[k as int].id] + insts_from(
                    rsv,
                    d as int,
                    k + 1,
                )) =~= (seq_views(before) + seq![rsv[k as int].id]) + insts_from(
                    rsv,
                    d as int,
                    k + 1,
                ));
            }
        } else {
            assert(Seq::<Seq<char>>::empty() + insts_from(rsv, d as int, k + 1) =~= insts_from(
                rsv,
                d as int,
                k + 1,
            ));
        }
        k = k + 1;
    }
    assert(seq_views(out@) + Seq::<Seq<char>>::empty() =~= seq_views(out@));
    out
}

/// Emits all property set-operations of a schema over its resolved
/// instances, as `props_spec` states: declaration order across stages,
/// decorators, assignments and instances, with silently dropped
/// assignments emitting nothing.
pub fn assign_properties(stages: &Vec<StageDecl>, resolved: &Vec<ResolvedStage>) -> (r: Vec<
    PropertyInstruction,
>)
    ensures
        prop_views(r@) == props_spec(stages@, rs_views(resolved@)),
{
    let ghost rsv = rs_views(resolved@);
    let mut out: Vec<PropertyInstruction> = Vec::new();
    let mut i: usize = 0;
    while i < stages.len()
        invariant
            i <= stages@.len(),
            rsv == rs_views(resolved@),
            prop_views(out@) + props_from(stages@, rsv, i as int) == props_from(stages@, rsv, 0),
        decreases stages@.len() - i,
    {
        let stage = &stages[i];
        let ids = instance_ids(resolved, i);
        let ghost idsv = seq_views(ids@);
        let ghost stage_before = out@;
        let decs = &stage.decorators;
        let mut di: usize = 0;
        while di < decs.len()
            invariant
                di <= decs@.len(),
                decs == &stages@[i as int].decorators,
                idsv == seq_views(ids@),
                prop_views(out@) + decs_from(decs@, idsv, di as int) == prop_views(stage_before)
                    + decs_from(decs@, idsv, 0),
            decreases decs@.len() - di,
        {
            match &decs[di] {
                RawDecorator::PropertyDec(entries) => {
                    let ghost dec_before = out@;
                    let mut ei: usize = 0;
                    while ei < entries.len()
                        invariant
                            ei <= entries@.len(),
                            idsv == seq_views(ids@),
                            prop_views(out@) + entries_from(entries@, idsv, ei as int) == prop_views(
                                dec_before,
                            ) + entries_from(entries@, idsv, 0),
                        decreases entries@.len() - ei,
                    {
                        let entry = &entries[ei];
                        match &entry.key {
                            PropertyKey::BareKey(key) => {
                                match classify_value(&entry.value) {
                                    Some(v) => {
                                        let ghost vspec = v@;
                                        let ghost entry_before = out@;
                                        let mut ki: usize = 0;
                                        while ki < ids.len()
                                            invariant
                                                ki <= ids@.len(),
                                                idsv == seq_views(ids@),
                                                vspec == v@,
                                                key == &entries@[ei as int].key->BareKey_0,
                                                prop_views(out@) + inst_ops_from(
                                                    idsv,
                                                    ki as int,
                                                    key@,
                                                    vspec,
                                                ) == prop_views(entry_before) + inst_ops_from(
                                                    idsv,
                                                    0,
                                                    key@,
                                                    vspec,
                                                ),
                                            decreases ids@.len() - ki,
                                        {
                                            let ghost before = out@;
                                            out.push(
                                                PropertyInstruction {
                                                    stage: ids[ki].clone(),
                                                    key: key.clone(),
                                                    value: v.duplicate(),
                                                },
                                            );
                                            proof {
                                                let op = SpecProp {
                                                    stage: idsv[ki as int],
                                                    key: key@,
                                                    value: vspec,
                                                };
                                                assert(prop_views(out@) =~= prop_views(before)
                                                    + seq![op]);
                                                assert(prop_views(before) + (seq![op]
                                                    + inst_ops_from(idsv, ki + 1, key@, vspec))
                                                    =~= (prop_views(before) + seq![op])
                                                    + inst_ops_from(idsv, ki + 1, key@, vspec));
                                            }
                                            ki = ki + 1;
                                        }
                                        proof {
                                            assert(inst_ops_from(idsv, ki as int, key@, vspec)
                                                =~= Seq::<SpecProp>::empty());
                                            assert(prop_views(out@) + Seq::<SpecProp>::empty()
                                                =~= prop_views(out@));
                                            assert(entry_ops(entries@[ei as int], idsv)
                                                == inst_ops_from(idsv, 0, key@, vspec));
                                            assert(prop_views(entry_before) + (entry_ops(
                                                entries@[ei as int],
                                                idsv,
                                            ) + entries_from(entries@, idsv, ei + 1)) =~= (
                                            prop_views(entry_before) + entry_ops(
                                                entries@[ei as int],
                                                idsv,
                                            )) + entries_from(entries@, idsv, ei + 1));
                                        }
                                    },
                                    None => {
                                        assert(entry_ops(entries@[ei as int], idsv)
                                            =~= Seq::<SpecProp>::empty());
                                        assert(Seq::<SpecProp>::empty() + entries_from(
                                            entries@,
                                            idsv,
                                            ei + 1,
                                        ) =~= entries_from(entries@, idsv, ei + 1));
                                    },
                                }
                            },
                            PropertyKey::NonIdentKey => {
                                assert(entry_ops(entries@[ei as int], idsv)
                                    =~= Seq::<SpecProp>::empty());
                                assert(Seq::<SpecProp>::empty() + entries_from(
                                    entries@,
                                    idsv,
                                    ei + 1,
                                ) =~= entries_from(entries@, idsv, ei + 1));
                            },
                        }
                        ei = ei + 1;
                    }
                    proof {
                        assert(entries_from(entries@, idsv, ei as int) =~= Seq::<SpecProp>::empty());
                        assert(prop_views(out@) + Seq::<SpecProp>::empty() =~= prop_views(out@));
                        assert(dec_ops(decs@[di as int], idsv) == entries_from(entries@, idsv, 0));
                        assert(prop_views(dec_before) + (dec_ops(decs@[di as int], idsv)
                            + decs_from(decs@, idsv, di + 1)) =~= (prop_views(dec_before) + dec_ops(
                            decs@[di as int],
                            idsv,
                        )) + decs_from(decs@, idsv, di + 1));
                    }
                },
                _ => {
                    assert(dec_ops(decs@[di as int], idsv) =~= Seq::<SpecProp>::empty());
                    assert(Seq::<SpecProp>::empty() + decs_from(decs@, idsv, di + 1) =~= decs_from(
                        decs@,
                        idsv,
                        di + 1,
                    ));
                },
            }
            di = di + 1;
        }
        proof {
            assert(decs_from(decs@, idsv, di as int) =~= Seq::<SpecProp>::empty());
            assert(prop_views(out@) + Seq::<SpecProp>::empty() =~= prop_views(out@));
            assert(idsv == insts_of(rsv, i as int));
            assert(prop_views(stage_before) + (decs_from(decs@, idsv, 0) + props_from(
                stages@,
                rsv,
                i + 1,
            )) =~= (prop_views(stage_before) + decs_from(decs@, idsv, 0)) + props_from(
                stages@,
                rsv,
                i + 1,
            ));
        }
        i = i + 1;
    }
    assert(prop_views(out@) + Seq::<SpecProp>::empty() =~= prop_views(out@));
    out
}

} // verus!
