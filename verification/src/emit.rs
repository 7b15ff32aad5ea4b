//! The conversion emitter and the meaning of what it emits.
//!
//! For every context type the emitter produces one conversion
//! implementation per target — the container itself (or its declared
//! replacement), plus each additional declared target — all built from a
//! single construction plan: the original fields in declaration order,
//! each receiving the supplied source value, its type's default, or the
//! matching context field pushed through a conversion.  A context without
//! a source field also gets the zero-argument convenience path, and an
//! auto-conversion field gets a direct conversion from its own type.
//!
//! The construction plan has a value-level meaning, [`eval_plan_spec`],
//! over which the round-trip and convenience-path laws are stated.

use vstd::prelude::*;

use crate::ast::FieldDecl;
use crate::ast::Ty;
use crate::classify::Classified;
use crate::classify::FieldRole;
use crate::options::Options;
use crate::synth::data_idxs;

verus! {

/// How a context field's value is converted when the target is built.
#[derive(Clone, Copy, PartialEq, Eq, Structural)]
pub enum ConvKind {
    /// Copied through: the field kept its original type.
    CDirect,
    /// Pushed through the generic into-conversion.
    CInto,
    /// Converted inside its wrapper: the deferred-unwrap path.
    CMapInto,
}

/// A member key of the constructed value: a field name, or a positional
/// index.
#[derive(Clone, Copy)]
pub enum Member<'a> {
    MNamed(&'a String),
    MIndex(usize),
}

/// Where one constructed field's value comes from.
#[derive(Clone, Copy)]
pub enum ArgKind<'a> {
    /// The supplied source value.
    AFromSource,
    /// The default value of the field's type.
    ADefaultOf(&'a Ty),
    /// The context field at `ctx_index`, through `conv`.
    AFromCtx { ctx_index: usize, conv: ConvKind },
}

/// One entry of a construction plan.
#[derive(Clone, Copy)]
pub struct ArgSpec<'a> {
    pub member: Member<'a>,
    pub arg: ArgKind<'a>,
}

/// A conversion target.
#[derive(Clone, Copy)]
pub enum ConvTarget<'a> {
    /// The container itself: the implicit, always-present target.
    TContainer,
    /// An explicitly declared target type.
    TOther(&'a Ty),
}

/// One conversion implementation: context plus source yields the target.
pub struct ConvImpl<'a> {
    pub target: ConvTarget<'a>,
    /// The declared source type, or none for the marker source.
    pub source_ty: Option<&'a Ty>,
    pub plan: Vec<ArgSpec<'a>>,
}

/// The zero-argument convenience path of a sourceless context.
pub struct FromCtxImpl<'a> {
    pub target: ConvTarget<'a>,
    pub plan: Vec<ArgSpec<'a>>,
}

/// The direct conversion from the auto-conversion field's own type.
pub struct FromSrcImpl<'a> {
    pub target: ConvTarget<'a>,
    pub src_ty: &'a Ty,
    pub plan: Vec<ArgSpec<'a>>,
}

/// Everything emitted for one context type.
pub struct ContextImpls<'a> {
    pub impls: Vec<ConvImpl<'a>>,
    pub from_ctx: Vec<FromCtxImpl<'a>>,
    pub from_src: Option<FromSrcImpl<'a>>,
}

/// The position of field `i`'s value in the context: the number of data
/// fields before it.
pub open spec fn data_pos(roles: Seq<FieldRole>, i: int) -> int {
    data_idxs(roles, i).len() as int
}

/// True when plan entry `a` is the one field `i`'s role calls for.
pub open spec fn arg_ok<'a>(
    fields: Seq<FieldDecl>,
    roles: Seq<FieldRole<'a>>,
    a: ArgSpec<'a>,
    i: int,
) -> bool {
    &&& (match fields[i].name {
        Some(nm) => a.member matches Member::MNamed(nm2) && nm2@ == nm@,
        None => a.member matches Member::MIndex(x) && x == i,
    })
    &&& (match roles[i] {
        FieldRole::RSource => a.arg is AFromSource,
        FieldRole::ROptional { .. } => a.arg matches ArgKind::ADefaultOf(t) && *t == fields[i].ty,
        FieldRole::RData { gen } => {
            &&& a.arg matches ArgKind::AFromCtx { ctx_index, conv }
            &&& ctx_index == data_pos(roles, i)
            &&& conv == (match gen {
                None => ConvKind::CDirect,
                Some(gi) => if gi.unwrap_inner is Some {
                    ConvKind::CMapInto
                } else {
                    ConvKind::CInto
                },
            })
        },
    })
}

/// True when `plan` is the construction plan of these fields and roles:
/// one entry per original field, in declaration order.
pub open spec fn plan_ok<'a>(
    fields: Seq<FieldDecl>,
    roles: Seq<FieldRole<'a>>,
    plan: Seq<ArgSpec<'a>>,
) -> bool {
    &&& plan.len() == fields.len()
    &&& forall|i: int| 0 <= i < plan.len() ==> arg_ok(fields, roles, #[trigger] plan[i], i)
}

fn build_plan<'a>(fields: &'a Vec<FieldDecl>, cls: &Classified<'a>) -> (r: Vec<ArgSpec<'a>>)
    requires
        cls.roles@.len() == fields@.len(),
    ensures
        plan_ok(fields@, cls.roles@, r@),
{
    let n = fields.len();
    let mut plan: Vec<ArgSpec<'a>> = Vec::new();
    let mut pos: usize = 0;
    let mut i: usize = 0;
    while i < n
        invariant
            n == fields@.len(),
            cls.roles@.len() == n,
            i <= n,
            plan@.len() == i,
            pos <= i,
            pos as int == data_pos(cls.roles@, i as int),
            forall|x: int| 0 <= x < i ==> arg_ok(fields@, cls.roles@, #[trigger] plan@[x], x),
        decreases n - i,
    {
        let member = match &fields[i].name {
            Some(nm) => Member::MNamed(nm),
            None => Member::MIndex(i),
        };
        let mut next_pos = pos;
        let arg = match &cls.roles[i] {
            FieldRole::RSource => ArgKind::AFromSource,
            FieldRole::ROptional { .. } => ArgKind::ADefaultOf(&fields[i].ty),
            FieldRole::RData { gen } => {
                let conv = match gen {
                    None => ConvKind::CDirect,
                    Some(gi) => if gi.unwrap_inner.is_some() {
                        ConvKind::CMapInto
                    } else {
                        ConvKind::CInto
                    },
                };
                next_pos = pos + 1;
                ArgKind::AFromCtx { ctx_index: pos, conv }
            },
        };
        plan.push(ArgSpec { member, arg });
        proof {
            assert(data_idxs(cls.roles@, i + 1 as int) =~= data_idxs(cls.roles@, i as int)
                + if cls.roles@[i as int] is RData {
                seq![i as int]
            } else {
                Seq::empty()
            });
            assert(arg_ok(fields@, cls.roles@, plan@[i as int], i as int));
        }
        pos = next_pos;
        i = i + 1;
    }
    plan
}

fn copy_plan<'a>(plan: &Vec<ArgSpec<'a>>) -> (r: Vec<ArgSpec<'a>>)
    ensures
        r@ == plan@,
{
    let mut out: Vec<ArgSpec<'a>> = Vec::new();
    let mut i: usize = 0;
    while i < plan.len()
        invariant
            i <= plan@.len(),
            out@ == plan@.take(i as int),
        decreases plan@.len() - i,
    {
        out.push(plan[i]);
        proof {
            assert(out@ =~= plan@.take(i + 1 as int));
        }
        i = i + 1;
    }
    proof {
        assert(plan@.take(plan@.len() as int) =~= plan@);
    }
    out
}

/// Emits every conversion implementation of one context type: one per
/// target — the container (or its declared replacement) first, then each
/// declared additional target, all sharing one construction plan — plus
/// the zero-argument path per target when no source field exists, and the
/// direct conversion when an auto-conversion field does.
#[verifier::rlimit(30)]
pub fn emit<'a>(fields: &'a Vec<FieldDecl>, cls: &Classified<'a>, eff: &Options<'a>) -> (r:
    ContextImpls<'a>)
    requires
        cls.roles@.len() == fields@.len(),
        (match cls.source {
            Some(s) => s < fields@.len(),
            None => true,
        }),
        (match cls.from {
            Some(s) => s < fields@.len(),
            None => true,
        }),
    ensures
        r.impls@.len() == 1 + eff@.into.len(),
        (match eff@.remote {
            Some(t) => r.impls@[0].target matches ConvTarget::TOther(t2) && *t2 == t,
            None => r.impls@[0].target is TContainer,
        }),
        forall|j: int|
            1 <= j < r.impls@.len() ==> ((#[trigger] r.impls@[j].target) matches
            ConvTarget::TOther(t) && *t == eff@.into[j - 1]),
        forall|j: int|
            0 <= j < r.impls@.len() ==> plan_ok(
                fields@,
                cls.roles@,
                (#[trigger] r.impls@[j]).plan@,
            ),
        forall|j: int|
            0 <= j < r.impls@.len() ==> (match cls.source {
                Some(s) => (#[trigger] r.impls@[j]).source_ty matches Some(t) && *t == fields@[
                    s as int
                ].ty,
                None => (#[trigger] r.impls@[j]).source_ty is None,
            }),
        cls.source is None ==> {
            &&& r.from_ctx@.len() == r.impls@.len()
            &&& forall|j: int|
                0 <= j < r.from_ctx@.len() ==> (#[trigger] r.from_ctx@[j]).target == r.impls@[
                    j
                ].target && plan_ok(fields@, cls.roles@, r.from_ctx@[j].plan@)
        },
        cls.source is Some ==> r.from_ctx@.len() == 0,
        (match cls.from {
            Some(fi) => r.from_src matches Some(fs) && *fs.src_ty == fields@[fi as int].ty
                && fs.target == r.impls@[0].target && plan_ok(fields@, cls.roles@, fs.plan@),
            None => r.from_src is None,
        }),
{
    let plan = build_plan(fields, cls);
    let source_ty: Option<&'a Ty> = match cls.source {
        Some(s) => Some(&fields[s].ty),
        None => None,
    };
    let base: ConvTarget<'a> = match eff.remote {
        Some(t) => ConvTarget::TOther(t),
        None => ConvTarget::TContainer,
    };
    let mut impls: Vec<ConvImpl<'a>> = Vec::new();
    impls.push(ConvImpl { target: base, source_ty, plan: copy_plan(&plan) });
    let mut j: usize = 0;
    while j < eff.into.len()
        invariant
            impls@.len() == 1 + j,
            j <= eff.into@.len(),
            (match cls.source {
                Some(s) => s < fields@.len() && (source_ty matches Some(t) && *t == fields@[
                    s as int
                ].ty),
                None => source_ty is None,
            }),
            impls@[0].target == (match eff@.remote {
                Some(t) => ConvTarget::TOther(&t),
                None => ConvTarget::TContainer,
            }),
            (match cls.source {
                Some(s) => s < fields@.len(),
                None => true,
            }),
            forall|x: int|
                1 <= x < impls@.len() ==> ((#[trigger] impls@[x].target) matches
                ConvTarget::TOther(t) && *t == eff@.into[x - 1]),
            forall|x: int|
                0 <= x < impls@.len() ==> plan_ok(
                    fields@,
                    cls.roles@,
                    (#[trigger] impls@[x]).plan@,
                ),
            forall|x: int|
                0 <= x < impls@.len() ==> (match cls.source {
                    Some(s) => (#[trigger] impls@[x]).source_ty matches Some(t) && *t == fields@[
                        s as int
                    ].ty,
                    None => (#[trigger] impls@[x]).source_ty is None,
                }),
            plan_ok(fields@, cls.roles@, plan@),
        decreases eff.into@.len() - j,
    {
        impls.push(
            ConvImpl { target: ConvTarget::TOther(eff.into[j]), source_ty, plan: copy_plan(&plan) },
        );
        j = j + 1;
    }
    let mut from_ctx: Vec<FromCtxImpl<'a>> = Vec::new();
    if source_ty.is_none() {
        let mut x: usize = 0;
        while x < impls.len()
            invariant
                x <= impls@.len(),
                from_ctx@.len() == x,
                forall|y: int|
                    0 <= y < x ==> (#[trigger] from_ctx@[y]).target == impls@[y].target
                        && plan_ok(fields@, cls.roles@, from_ctx@[y].plan@),
                forall|y: int|
                    0 <= y < impls@.len() ==> plan_ok(
                        fields@,
                        cls.roles@,
                        (#[trigger] impls@[y]).plan@,
                    ),
            decreases impls@.len() - x,
        {
            from_ctx.push(FromCtxImpl { target: impls[x].target, plan: copy_plan(&impls[x].plan) });
            x = x + 1;
        }
    }
    let from_src: Option<FromSrcImpl<'a>> = match cls.from {
        Some(fi) => Some(
            FromSrcImpl { target: base, src_ty: &fields[fi].ty, plan: copy_plan(&plan) },
        ),
        None => None,
    };
    ContextImpls { impls, from_ctx, from_src }
}

/// An abstract value, for stating what the emitted conversions construct:
/// a scalar, a wrapper value, a value pushed through the generic
/// conversion, or the default of a type.
#[derive(Debug, PartialEq)]
pub enum Val<'a> {
    VInt(i64),
    VStr(String),
    VBool(bool),
    VUnitV,
    VNothing,
    VSome(Box<Val<'a>>),
    /// A value after the generic into-conversion.
    VConv(Box<Val<'a>>),
    /// The default value of a type.
    VDefault(&'a Ty),
}

impl<'a> Val<'a> {
    /// An exact copy.
    pub fn duplicate(&self) -> (r: Val<'a>)
        ensures
            r == *self,
        decreases *self,
    {
        match self {
            Val::VInt(x) => Val::VInt(*x),
            Val::VStr(s) => Val::VStr(s.clone()),
            Val::VBool(b) => Val::VBool(*b),
            Val::VUnitV => Val::VUnitV,
            Val::VNothing => Val::VNothing,
            Val::VSome(v) => Val::VSome(Box::new(v.duplicate())),
            Val::VConv(v) => Val::VConv(Box::new(v.duplicate())),
            Val::VDefault(t) => Val::VDefault(t),
        }
    }
}

/// The value a conversion produces from a context field's value.
pub open spec fn conv_val<'a>(c: ConvKind, v: Val<'a>) -> Val<'a> {
    match c {
        ConvKind::CDirect => v,
        ConvKind::CInto => Val::VConv(Box::new(v)),
        ConvKind::CMapInto => match v {
            Val::VSome(inner) => Val::VSome(Box::new(Val::VConv(inner))),
            other => other,
        },
    }
}

/// The value one plan entry constructs.
pub open spec fn eval_arg<'a>(a: ArgKind<'a>, ctx: Seq<Val<'a>>, src: Val<'a>) -> Val<'a> {
    match a {
        ArgKind::AFromSource => src,
        ArgKind::ADefaultOf(t) => Val::VDefault(t),
        ArgKind::AFromCtx { ctx_index, conv } => conv_val(conv, ctx[ctx_index as int]),
    }
}

/// The field values the construction rule builds: the plan applied to the
/// context's field values and the supplied source value.
pub open spec fn eval_plan_spec<'a>(
    plan: Seq<ArgSpec<'a>>,
    ctx: Seq<Val<'a>>,
    src: Val<'a>,
) -> Seq<Val<'a>> {
    Seq::new(plan.len(), |i: int| eval_arg(plan[i].arg, ctx, src))
}

/// Applies a construction plan to concrete values.
pub fn eval_plan<'a>(plan: &Vec<ArgSpec<'a>>, ctx: &Vec<Val<'a>>, src: &Val<'a>) -> (r: Vec<
    Val<'a>,
>)
    requires
        forall|i: int|
            0 <= i < plan@.len() ==> ((#[trigger] plan@[i]).arg matches ArgKind::AFromCtx {
                ctx_index,
                ..
            } ==> ctx_index < ctx@.len()),
    ensures
        r@ == eval_plan_spec(plan@, ctx@, *src),
{
    let mut out: Vec<Val<'a>> = Vec::new();
    let mut i: usize = 0;
    while i < plan.len()
        invariant
            i <= plan@.len(),
            out@.len() == i,
            forall|i2: int|
                0 <= i2 < plan@.len() ==> ((#[trigger] plan@[i2]).arg matches ArgKind::AFromCtx {
                    ctx_index,
                    ..
                } ==> ctx_index < ctx@.len()),
            forall|x: int|
                0 <= x < i ==> #[trigger] out@[x] == eval_arg(plan@[x].arg, ctx@, *src),
        decreases plan@.len() - i,
    {
        let v: Val<'a> = match &plan[i].arg {
            ArgKind::AFromSource => src.duplicate(),
            ArgKind::ADefaultOf(t) => Val::VDefault(t),
            ArgKind::AFromCtx { ctx_index, conv } => {
                let base = ctx[*ctx_index].duplicate();
                match conv {
                    ConvKind::CDirect => base,
                    ConvKind::CInto => Val::VConv(Box::new(base)),
                    ConvKind::CMapInto => match base {
                        Val::VSome(inner) => Val::VSome(Box::new(Val::VConv(inner))),
                        other => other,
                    },
                }
            },
        };
        out.push(v);
        i = i + 1;
    }
    proof {
        assert(out@ =~= eval_plan_spec(plan@, ctx@, *src));
    }
    out
}

proof fn lemma_data_pos_bound(roles: Seq<FieldRole>, i: int, n: int)
    requires
        0 <= i < n,
        roles[i] is RData,
    ensures
        data_pos(roles, i) < data_idxs(roles, n).len(),
        data_idxs(roles, n).len() <= n,
    decreases n,
{
    if n == i + 1 {
        lemma_data_idxs_len(roles, i);
    } else {
        lemma_data_pos_bound(roles, i, n - 1);
    }
}

proof fn lemma_data_idxs_len(roles: Seq<FieldRole>, n: int)
    requires
        n >= 0,
    ensures
        data_idxs(roles, n).len() <= n,
    decreases n,
{
    if n > 0 {
        lemma_data_idxs_len(roles, n - 1);
    }
}

/// Round-trip construction.  Whatever concrete field values the context
/// holds and whatever source value is supplied, the construction plan the
/// emitter produced builds the target value field by field: the source
/// field receives exactly the supplied source value, every optional field
/// the default of its own type, and every data field its context value —
/// unchanged for an original-typed field, pushed through the generic
/// conversion for a generated field, and converted inside its wrapper for
/// an unwrapped field.
pub proof fn lemma_round_trip<'a>(
    fields: Seq<FieldDecl>,
    roles: Seq<FieldRole<'a>>,
    plan: Seq<ArgSpec<'a>>,
    ctx: Seq<Val<'a>>,
    src: Val<'a>,
)
    requires
        roles.len() == fields.len(),
        plan_ok(fields, roles, plan),
        ctx.len() == data_idxs(roles, roles.len() as int).len(),
    ensures
        ({
            let out = eval_plan_spec(plan, ctx, src);
            &&& out.len() == fields.len()
            &&& (forall|i: int|
                0 <= i < fields.len() && roles[i] is RSource ==> #[trigger] out[i] == src)
            &&& (forall|i: int|
                0 <= i < fields.len() && roles[i] is ROptional ==> ((#[trigger] out[i]) matches
                Val::VDefault(t) && *t == fields[i].ty))
            &&& (forall|i: int|
                0 <= i < fields.len() ==> ((#[trigger] roles[i]) matches FieldRole::RData {
                    gen: None,
                } ==> out[i] == ctx[data_pos(roles, i)]))
            &&& (forall|i: int|
                0 <= i < fields.len() ==> ((#[trigger] roles[i]) matches FieldRole::RData {
                    gen: Some(gi),
                } && gi.unwrap_inner is None ==> out[i] == Val::VConv(
                    Box::new(ctx[data_pos(roles, i)]),
                )))
            &&& (forall|i: int|
                0 <= i < fields.len() ==> ((#[trigger] roles[i]) matches FieldRole::RData {
                    gen: Some(gi),
                } && gi.unwrap_inner is Some ==> out[i] == conv_val(
                    ConvKind::CMapInto,
                    ctx[data_pos(roles, i)],
                )))
        }),
{
    assert forall|i: int| 0 <= i < fields.len() && roles[i] is RData implies data_pos(roles, i)
        < ctx.len() by {
        lemma_data_pos_bound(roles, i, roles.len() as int);
    }
}

/// No-source convenience path.  A context without a source field gets a
/// zero-argument conversion beside the general one; both carry the same
/// construction plan, so the convenience path constructs exactly what the
/// general path constructs when the marker source is supplied.
pub proof fn lemma_no_source_path<'a>(
    fields: Seq<FieldDecl>,
    roles: Seq<FieldRole<'a>>,
    general: Seq<ArgSpec<'a>>,
    convenience: Seq<ArgSpec<'a>>,
    ctx: Seq<Val<'a>>,
    marker: Val<'a>,
)
    requires
        plan_ok(fields, roles, general),
        plan_ok(fields, roles, convenience),
    ensures
        eval_plan_spec(convenience, ctx, marker) == eval_plan_spec(general, ctx, marker),
{
    assert(eval_plan_spec(convenience, ctx, marker) =~= eval_plan_spec(general, ctx, marker));
}

} // verus!
