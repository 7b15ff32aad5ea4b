//! The generic-dependency analyzer.
//!
//! From the container's declared generic parameters, their bounds and the
//! where clause, [`analyze`] builds a table with one fact per parameter.
//! A where-clause predicate whose bounded type mentions known parameters is
//! folded into those parameters' bound sets; one that mentions none is kept
//! aside as an unattached extra bound, emitted verbatim on every generated
//! implementation.
//!
//! [`GenericTable::select_uses`] then asks, per field type, which parameters
//! occur in it: each occurrence marks the parameter selected, so that the
//! synthesizer knows which container generics the context type must carry.

use vstd::prelude::*;

use crate::ast::str_eq;
use crate::ast::Bound;
use crate::ast::GArg;
use crate::ast::GenericsDecl;
use crate::ast::GpKind;
use crate::ast::PathSeg;
use crate::ast::Ty;
use crate::ast::WhereItem;

verus! {

/// True when the generic name `name` occurs somewhere in `t` at a position
/// the traversal collects: a bare single-identifier path, a lifetime of a
/// reference, an argument inside angle brackets, an array length, a bound
/// of a trait object, the inputs and output of a function pointer, and so
/// on, recursively.
pub open spec fn ty_uses(t: Ty, name: Seq<char>, is_lifetime: bool) -> bool
    decreases t,
{
    match t {
        Ty::TPath { leading_colon, qself, segments } => {
            ||| path_base_uses(qself, leading_colon, segments@, name, is_lifetime)
            ||| exists|i: int, j: int|
                0 <= i < segments.len() && 0 <= j < segments[i as int].args.len()
                    && garg_uses(#[trigger] segments[i as int].args[j as int], name, is_lifetime)
        },
        Ty::TRef { lifetime, elem } => {
            ||| (match lifetime {
                Some(l) => is_lifetime && l@ == name,
                None => false,
            })
            ||| ty_uses(*elem, name, is_lifetime)
        },
        Ty::TPtr(elem) => ty_uses(*elem, name, is_lifetime),
        Ty::TSlice(elem) => ty_uses(*elem, name, is_lifetime),
        Ty::TArray { elem, len } => {
            ||| ty_uses(*elem, name, is_lifetime)
            ||| (match len {
                Some(n) => !is_lifetime && n@ == name,
                None => false,
            })
        },
        Ty::TTuple(elems) => tys_use(elems@, name, is_lifetime),
        Ty::TBareFn { inputs, output } => {
            ||| tys_use(inputs@, name, is_lifetime)
            ||| (match output {
                Some(o) => ty_uses(*o, name, is_lifetime),
                None => false,
            })
        },
        Ty::TTraitObject(bounds) => bounds_use(bounds@, name, is_lifetime),
        Ty::TImplTrait(bounds) => bounds_use(bounds@, name, is_lifetime),
        Ty::TOpaque(_) => false,
    }
}

/// The part of `ty_uses` on a path that does not look into the segments'
/// generic arguments: the qualified-self type, or a bare single-identifier
/// path equal to the name.
pub open spec fn path_base_uses(
    qself: Option<Box<Ty>>,
    leading_colon: bool,
    segments: Seq<PathSeg>,
    name: Seq<char>,
    is_lifetime: bool,
) -> bool
    decreases qself,
{
    match qself {
        Some(q) => ty_uses(*q, name, is_lifetime),
        None => {
            &&& !is_lifetime
            &&& !leading_colon
            &&& segments.len() == 1
            &&& segments[0].ident@ == name
            &&& segments[0].args.len() == 0
        },
    }
}

/// `ty_uses` under one generic argument.
pub open spec fn garg_uses(a: GArg, name: Seq<char>, is_lifetime: bool) -> bool
    decreases a,
{
    match a {
        GArg::ALifetime(l) => is_lifetime && l@ == name,
        GArg::AType(t) => ty_uses(t, name, is_lifetime),
        GArg::AConst(c) => match c {
            Some(n) => !is_lifetime && n@ == name,
            None => false,
        },
        GArg::AssocTy(_, t) => ty_uses(t, name, is_lifetime),
    }
}

/// `ty_uses` over a list of types.
pub open spec fn tys_use(s: Seq<Ty>, name: Seq<char>, is_lifetime: bool) -> bool
    decreases s,
{
    exists|i: int| 0 <= i < s.len() && ty_uses(#[trigger] s[i], name, is_lifetime)
}

/// `ty_uses` under one bound.
pub open spec fn bound_uses(b: Bound, name: Seq<char>, is_lifetime: bool) -> bool
    decreases b,
{
    match b {
        Bound::BTrait(t) => ty_uses(t, name, is_lifetime),
        Bound::BLifetime(l) => is_lifetime && l@ == name,
    }
}

/// `bound_uses` over a list of bounds.
pub open spec fn bounds_use(s: Seq<Bound>, name: Seq<char>, is_lifetime: bool) -> bool
    decreases s,
{
    exists|i: int| 0 <= i < s.len() && bound_uses(#[trigger] s[i], name, is_lifetime)
}

fn tys_any_use(tys: &Vec<Ty>, name: &String, is_lifetime: bool) -> (r: bool)
    ensures
        r == tys_use(tys@, name@, is_lifetime),
    decreases tys@,
{
    let mut hit: bool = false;
    let mut i: usize = 0;
    while i < tys.len()
        invariant
            i <= tys@.len(),
            hit == (exists|x: int|
                0 <= x < i && ty_uses(#[trigger] tys@[x], name@, is_lifetime)),
        decreases tys@.len() - i,
    {
        proof {
            assert(decreases_to!(*tys => tys@));
            assert(decreases_to!(tys@ => tys@[i as int]));
        }
        if ty_uses_exec(&tys[i], name, is_lifetime) {
            hit = true;
        }
        i = i + 1;
    }
    hit
}

fn bounds_any_use(bounds: &Vec<Bound>, name: &String, is_lifetime: bool) -> (r: bool)
    ensures
        r == bounds_use(bounds@, name@, is_lifetime),
    decreases bounds@,
{
    let mut hit: bool = false;
    let mut i: usize = 0;
    while i < bounds.len()
        invariant
            i <= bounds@.len(),
            hit == (exists|x: int|
                0 <= x < i && bound_uses(#[trigger] bounds@[x], name@, is_lifetime)),
        decreases bounds@.len() - i,
    {
        proof {
            assert(decreases_to!(*bounds => bounds@));
            assert(decreases_to!(bounds@ => bounds@[i as int]));
        }
        let b = &bounds[i];
        let u = match b {
            Bound::BTrait(t) => {
                proof {
                    assert(decreases_to!(*b => b->BTrait_0));
                }
                ty_uses_exec(t, name, is_lifetime)
            },
            Bound::BLifetime(l) => is_lifetime && str_eq(l, name),
        };
        if u {
            hit = true;
        }
        i = i + 1;
    }
    hit
}

/// Decides `ty_uses` by recursive descent over the type.
pub fn ty_uses_exec(t: &Ty, name: &String, is_lifetime: bool) -> (r: bool)
    ensures
        r == ty_uses(*t, name@, is_lifetime),
    decreases *t,
{
    match t {
        Ty::TPath { leading_colon, qself, segments } => {
            let mut hit: bool = false;
            match qself {
                Some(q) => {
                    if ty_uses_exec(q, name, is_lifetime) {
                        hit = true;
                    }
                },
                None => {
                    if !is_lifetime && !*leading_colon && segments.len() == 1
                        && segments[0].args.len() == 0 && str_eq(&segments[0].ident, name) {
                        hit = true;
                    }
                },
            }
            let mut i: usize = 0;
            while i < segments.len()
                invariant
                    t is TPath,
                    *segments == t->TPath_segments,
                    i <= segments@.len(),
                    hit == (path_base_uses(*qself, *leading_colon, segments@, name@, is_lifetime)
                        || exists|x: int, y: int|
                            0 <= x < i && 0 <= y < segments@[x].args.len()
                                && garg_uses(#[trigger] segments@[x].args[y], name@, is_lifetime)),
                decreases segments@.len() - i,
            {
                let mut j: usize = 0;
                while j < segments[i].args.len()
                    invariant
                        t is TPath,
                        *segments == t->TPath_segments,
                        i < segments@.len(),
                        j <= segments@[i as int].args.len(),
                        hit == (path_base_uses(
                            *qself,
                            *leading_colon,
                            segments@,
                            name@,
                            is_lifetime,
                        ) || exists|x: int, y: int|
                            (0 <= x < i && 0 <= y < segments@[x].args.len() || x == i && 0 <= y
                                < j) && garg_uses(
                                #[trigger] segments@[x].args[y],
                                name@,
                                is_lifetime,
                            )),
                    decreases segments@[i as int].args.len() - j,
                {
                    proof {
                        assert(*segments == t->TPath_segments);
                        assert(decreases_to!(*t => t->TPath_segments));
                        assert(decreases_to!(*segments => segments@));
                        assert(decreases_to!(segments@ => segments@[i as int]));
                        assert(decreases_to!(segments@[i as int] => segments@[i as int].args));
                        assert(decreases_to!(segments@[i as int].args
                            => segments@[i as int].args@));
                        assert(decreases_to!(segments@[i as int].args@
                            => segments@[i as int].args@[j as int]));
                    }
                    let arg = &segments[i].args[j];
                    proof {
                        assert(decreases_to!(*t => *arg));
                    }
                    let u = match arg {
                        GArg::ALifetime(l) => is_lifetime && str_eq(l, name),
                        GArg::AType(ty2) => {
                            proof {
                                assert(decreases_to!(*arg => arg->AType_0));
                            }
                            ty_uses_exec(ty2, name, is_lifetime)
                        },
                        GArg::AConst(c) => match c {
                            Some(n) => !is_lifetime && str_eq(n, name),
                            None => false,
                        },
                        GArg::AssocTy(_, ty2) => {
                            proof {
                                assert(decreases_to!(*arg => arg->AssocTy_1));
                            }
                            ty_uses_exec(ty2, name, is_lifetime)
                        },
                    };
                    proof {
                        assert(garg_uses(segments@[i as int].args@[j as int], name@, is_lifetime)
                            == u);
                    }
                    if u {
                        hit = true;
                    }
                    j = j + 1;
                }
                i = i + 1;
            }
            hit
        },
        Ty::TRef { lifetime, elem } => {
            let l_hit = match lifetime {
                Some(l) => is_lifetime && str_eq(l, name),
                None => false,
            };
            l_hit || ty_uses_exec(elem, name, is_lifetime)
        },
        Ty::TPtr(elem) => ty_uses_exec(elem, name, is_lifetime),
        Ty::TSlice(elem) => ty_uses_exec(elem, name, is_lifetime),
        Ty::TArray { elem, len } => {
            let l_hit = match len {
                Some(n) => !is_lifetime && str_eq(n, name),
                None => false,
            };
            ty_uses_exec(elem, name, is_lifetime) || l_hit
        },
        Ty::TTuple(elems) => {
            proof {
                assert(decreases_to!(*t => t->TTuple_0));
                assert(decreases_to!(*elems => elems@));
            }
            tys_any_use(elems, name, is_lifetime)
        },
        Ty::TBareFn { inputs, output } => {
            proof {
                assert(decreases_to!(*t => t->TBareFn_inputs));
                assert(decreases_to!(*inputs => inputs@));
            }
            let in_hit = tys_any_use(inputs, name, is_lifetime);
            let out_hit = match output {
                Some(o) => ty_uses_exec(o, name, is_lifetime),
                None => false,
            };
            in_hit || out_hit
        },
        Ty::TTraitObject(bounds) => {
            proof {
                assert(decreases_to!(*t => t->TTraitObject_0));
                assert(decreases_to!(*bounds => bounds@));
            }
            bounds_any_use(bounds, name, is_lifetime)
        },
        Ty::TImplTrait(bounds) => {
            proof {
                assert(decreases_to!(*t => t->TImplTrait_0));
                assert(decreases_to!(*bounds => bounds@));
            }
            bounds_any_use(bounds, name, is_lifetime)
        },
        Ty::TOpaque(_) => false,
    }
}

/// A bound attached to a generic fact: a trait bound or a lifetime bound,
/// borrowed from the declaration.
pub enum BoundRef<'a> {
    RTrait(&'a Ty),
    RLife(&'a String),
}

/// The mathematical value of a [`BoundRef`]: the bound itself, with the
/// borrow forgotten.
pub enum BoundSpec {
    SpTrait(Ty),
    SpLife(String),
}

/// The value a bound reference stands for.
pub open spec fn bref_view(b: BoundRef) -> BoundSpec {
    match b {
        BoundRef::RTrait(t) => BoundSpec::SpTrait(*t),
        BoundRef::RLife(l) => BoundSpec::SpLife(*l),
    }
}

/// The values a list of bound references stands for.
pub open spec fn brefs_view(s: Seq<BoundRef>) -> Seq<BoundSpec> {
    s.map_values(|b: BoundRef| bref_view(b))
}

proof fn lemma_brefs_view_push(s: Seq<BoundRef>, b: BoundRef)
    ensures
        brefs_view(s.push(b)) == brefs_view(s).push(bref_view(b)),
{
    assert(brefs_view(s.push(b)) =~= brefs_view(s).push(bref_view(b)));
}

/// One entry of the table: a container generic parameter with every bound
/// that applies to it.
pub struct GenericFact<'a> {
    pub name: &'a String,
    pub kind: &'a GpKind,
    pub bounds: Vec<BoundRef<'a>>,
}

/// The analyzer's output: one fact per declared parameter in declaration
/// order, a selected flag per fact, and the indices of the where-clause
/// items that matched no parameter.
pub struct GenericTable<'a> {
    pub facts: Vec<GenericFact<'a>>,
    pub selected: Vec<bool>,
    pub extra: Vec<usize>,
}

/// True when parameter `k` is a lifetime parameter.
pub open spec fn param_is_lifetime(g: GenericsDecl, k: int) -> bool {
    g.params[k].kind is KLifetime
}

/// True when where-clause item `j` applies to parameter `k`.
pub open spec fn pred_matches(g: GenericsDecl, j: int, k: int) -> bool {
    match g.where_items[j] {
        WhereItem::TypePred { subject, .. } => ty_uses(
            subject,
            g.params[k].name@,
            param_is_lifetime(g, k),
        ),
        WhereItem::LifetimePred { subject, .. } => param_is_lifetime(g, k) && subject@
            == g.params[k].name@,
    }
}

/// The bound values of a declared bound list.
pub open spec fn bound_refs(s: Seq<Bound>) -> Seq<BoundSpec> {
    s.map_values(
        |b: Bound|
            match b {
                Bound::BTrait(t) => BoundSpec::SpTrait(t),
                Bound::BLifetime(l) => BoundSpec::SpLife(l),
            },
    )
}

/// What where-clause item `j` contributes to parameter `k`'s bound set.
pub open spec fn pred_contrib(g: GenericsDecl, j: int, k: int) -> Seq<BoundSpec> {
    if pred_matches(g, j, k) {
        match g.where_items[j] {
            WhereItem::TypePred { preds, .. } => bound_refs(preds@),
            WhereItem::LifetimePred { lifetimes, .. } => lifetimes@.map_values(
                |l: String| BoundSpec::SpLife(l),
            ),
        }
    } else {
        Seq::empty()
    }
}

/// The bounds parameter `k` has gathered from the first `j` where-clause
/// items.
pub open spec fn where_bounds_upto(g: GenericsDecl, k: int, j: int) -> Seq<BoundSpec>
    decreases j,
{
    if j <= 0 {
        Seq::empty()
    } else {
        where_bounds_upto(g, k, j - 1) + pred_contrib(g, j - 1, k)
    }
}

/// Parameter `k`'s full bound set: its declared bounds followed by every
/// where-clause contribution, in declaration order.
pub open spec fn fact_bounds(g: GenericsDecl, k: int) -> Seq<BoundSpec> {
    bound_refs(g.params[k].bounds@) + where_bounds_upto(g, k, g.where_items.len() as int)
}

/// True when where-clause item `j` is a type predicate that applies to no
/// declared parameter.
pub open spec fn pred_unattached(g: GenericsDecl, j: int) -> bool {
    &&& g.where_items[j] is TypePred
    &&& forall|k: int| 0 <= k < g.params.len() ==> !pred_matches(g, j, k)
}

/// The indices of the unattached where-clause items among the first `j`.
pub open spec fn extra_upto(g: GenericsDecl, j: int) -> Seq<usize>
    decreases j,
{
    if j <= 0 {
        Seq::empty()
    } else {
        extra_upto(g, j - 1) + if pred_unattached(g, j - 1) {
            seq![(j - 1) as usize]
        } else {
            Seq::empty()
        }
    }
}

/// Builds the generic table of a declaration: one fact per parameter, in
/// order, carrying its declared and where-clause bounds; no fact selected
/// yet; the unattached where-clause items listed by index.
pub fn analyze<'a>(g: &'a GenericsDecl) -> (r: GenericTable<'a>)
    ensures
        r.facts@.len() == g.params@.len(),
        forall|k: int|
            0 <= k < g.params@.len() ==> {
                &&& (#[trigger] r.facts@[k]).name@ == g.params@[k].name@
                &&& r.facts@[k].kind == g.params@[k].kind
                &&& brefs_view(r.facts@[k].bounds@) == fact_bounds(*g, k)
            },
        r.selected@.len() == g.params@.len(),
        forall|k: int| 0 <= k < g.params@.len() ==> !(#[trigger] r.selected@[k]),
        r.extra@ == extra_upto(*g, g.where_items@.len() as int),
{
    let mut facts: Vec<GenericFact<'a>> = Vec::new();
    let mut selected: Vec<bool> = Vec::new();
    let mut k: usize = 0;
    while k < g.params.len()
        invariant
            k <= g.params@.len(),
            facts@.len() == k,
            selected@.len() == k,
            forall|x: int|
                0 <= x < k ==> {
                    &&& (#[trigger] facts@[x]).name@ == g.params@[x].name@
                    &&& facts@[x].kind == g.params@[x].kind
                    &&& brefs_view(facts@[x].bounds@) == fact_bounds(*g, x)
                },
            forall|x: int| 0 <= x < k ==> !(#[trigger] selected@[x]),
        decreases g.params@.len() - k,
    {
        let p = &g.params[k];
        let il = match &p.kind {
            GpKind::KLifetime => true,
            _ => false,
        };
        let mut bs: Vec<BoundRef<'a>> = Vec::new();
        let mut i: usize = 0;
        while i < p.bounds.len()
            invariant
                k < g.params@.len(),
                *p == g.params@[k as int],
                i <= p.bounds@.len(),
                bs@.len() == i,
                forall|x: int| 0 <= x < i ==> bref_view(#[trigger] bs@[x]) == bound_refs(p.bounds@)[x],
            decreases p.bounds@.len() - i,
        {
            let b = match &p.bounds[i] {
                Bound::BTrait(t) => BoundRef::RTrait(t),
                Bound::BLifetime(l) => BoundRef::RLife(l),
            };
            bs.push(b);
            i = i + 1;
        }
        proof {
            assert(brefs_view(bs@) =~= bound_refs(g.params@[k as int].bounds@));
        }
        let mut j: usize = 0;
        while j < g.where_items.len()
            invariant
                k < g.params@.len(),
                *p == g.params@[k as int],
                il == param_is_lifetime(*g, k as int),
                j <= g.where_items@.len(),
                brefs_view(bs@) == bound_refs(g.params@[k as int].bounds@) + where_bounds_upto(
                    *g,
                    k as int,
                    j as int,
                ),
            decreases g.where_items@.len() - j,
        {
            match &g.where_items[j] {
                WhereItem::TypePred { subject, preds } => {
                    if ty_uses_exec(subject, &p.name, il) {
                        let mut x: usize = 0;
                        while x < preds.len()
                            invariant
                                j < g.where_items@.len(),
                                g.where_items@[j as int] matches WhereItem::TypePred {
                                    preds: ps,
                                    ..
                                } && ps == *preds,
                                x <= preds@.len(),
                                bs@.len() == x + (bound_refs(g.params@[k as int].bounds@)
                                    + where_bounds_upto(*g, k as int, j as int)).len(),
                                brefs_view(bs@) =~= (bound_refs(g.params@[k as int].bounds@)
                                    + where_bounds_upto(*g, k as int, j as int)) + bound_refs(
                                    preds@,
                                ).take(x as int),
                            decreases preds@.len() - x,
                        {
                            let b = match &preds[x] {
                                Bound::BTrait(t) => BoundRef::RTrait(t),
                                Bound::BLifetime(l) => BoundRef::RLife(l),
                            };
                            let ghost bs0 = bs@;
                            bs.push(b);
                            proof {
                                lemma_brefs_view_push(bs0, b);
                                assert(bref_view(b) == bound_refs(preds@)[x as int]);
                                assert(brefs_view(bs@) =~= (bound_refs(
                                    g.params@[k as int].bounds@,
                                ) + where_bounds_upto(*g, k as int, j as int)) + bound_refs(
                                    preds@,
                                ).take(x + 1 as int));
                            }
                            x = x + 1;
                        }
                        proof {
                            assert(bound_refs(preds@).take(preds@.len() as int) =~= bound_refs(
                                preds@,
                            ));
                            assert(pred_matches(*g, j as int, k as int));
                            assert(pred_contrib(*g, j as int, k as int) == bound_refs(preds@));
                            assert(brefs_view(bs@) =~= bound_refs(g.params@[k as int].bounds@)
                                + where_bounds_upto(*g, k as int, j + 1 as int));
                        }
                    } else {
                        proof {
                            assert(!pred_matches(*g, j as int, k as int));
                            assert(brefs_view(bs@) =~= bound_refs(g.params@[k as int].bounds@)
                                + where_bounds_upto(*g, k as int, j + 1 as int));
                        }
                    }
                },
                WhereItem::LifetimePred { subject, lifetimes } => {
                    if il && str_eq(subject, &p.name) {
                        let mut x: usize = 0;
                        while x < lifetimes.len()
                            invariant
                                j < g.where_items@.len(),
                                g.where_items@[j as int] matches WhereItem::LifetimePred {
                                    lifetimes: ls,
                                    ..
                                } && ls == *lifetimes,
                                x <= lifetimes@.len(),
                                bs@.len() == x + (bound_refs(g.params@[k as int].bounds@)
                                    + where_bounds_upto(*g, k as int, j as int)).len(),
                                brefs_view(bs@) =~= (bound_refs(g.params@[k as int].bounds@)
                                    + where_bounds_upto(*g, k as int, j as int))
                                    + lifetimes@.map_values(
                                    |l: String| BoundSpec::SpLife(l),
                                ).take(x as int),
                            decreases lifetimes@.len() - x,
                        {
                            let b = BoundRef::RLife(&lifetimes[x]);
                            let ghost bs0 = bs@;
                            bs.push(b);
                            proof {
                                lemma_brefs_view_push(bs0, b);
                                assert(bref_view(b) == lifetimes@.map_values(
                                    |l: String| BoundSpec::SpLife(l),
                                )[x as int]);
                                assert(brefs_view(bs@) =~= (bound_refs(
                                    g.params@[k as int].bounds@,
                                ) + where_bounds_upto(*g, k as int, j as int))
                                    + lifetimes@.map_values(
                                    |l: String| BoundSpec::SpLife(l),
                                ).take(x + 1 as int));
                            }
                            x = x + 1;
                        }
                        proof {
                            let mapped = lifetimes@.map_values(|l: String| BoundSpec::SpLife(l));
                            assert(mapped.take(lifetimes@.len() as int) =~= mapped);
                            assert(pred_matches(*g, j as int, k as int));
                            assert(brefs_view(bs@) =~= bound_refs(g.params@[k as int].bounds@)
                                + where_bounds_upto(*g, k as int, j + 1 as int));
                        }
                    } else {
                        proof {
                            assert(!pred_matches(*g, j as int, k as int));
                            assert(brefs_view(bs@) =~= bound_refs(g.params@[k as int].bounds@)
                                + where_bounds_upto(*g, k as int, j + 1 as int));
                        }
                    }
                },
            }
            j = j + 1;
        }
        facts.push(GenericFact { name: &p.name, kind: &p.kind, bounds: bs });
        selected.push(false);
        k = k + 1;
    }
    let mut extra: Vec<usize> = Vec::new();
    let mut j: usize = 0;
    while j < g.where_items.len()
        invariant
            j <= g.where_items@.len(),
            extra@ == extra_upto(*g, j as int),
        decreases g.where_items@.len() - j,
    {
        match &g.where_items[j] {
            WhereItem::TypePred { subject, .. } => {
                let mut any: bool = false;
                let mut k2: usize = 0;
                while k2 < g.params.len()
                    invariant
                        j < g.where_items@.len(),
                        g.where_items@[j as int] is TypePred,
                        g.where_items@[j as int] matches WhereItem::TypePred {
                            subject: s,
                            ..
                        } && s == *subject,
                        k2 <= g.params@.len(),
                        any == (exists|x: int|
                            0 <= x < k2 && #[trigger] pred_matches(*g, j as int, x)),
                    decreases g.params@.len() - k2,
                {
                    let il2 = match &g.params[k2].kind {
                        GpKind::KLifetime => true,
                        _ => false,
                    };
                    if ty_uses_exec(subject, &g.params[k2].name, il2) {
                        proof {
                            assert(pred_matches(*g, j as int, k2 as int));
                        }
                        any = true;
                    } else {
                        proof {
                            assert(!pred_matches(*g, j as int, k2 as int));
                        }
                    }
                    k2 = k2 + 1;
                }
                if !any {
                    extra.push(j);
                }
            },
            WhereItem::LifetimePred { .. } => {},
        }
        proof {
            assert(extra@ =~= extra_upto(*g, j + 1 as int));
        }
        j = j + 1;
    }
    GenericTable { facts, selected, extra }
}

impl<'a> GenericTable<'a> {
    /// Marks every parameter that occurs in `ty` as selected and reports
    /// whether any does.  The facts themselves do not change.
    pub fn select_uses(&mut self, ty: &Ty) -> (used: bool)
        requires
            old(self).facts@.len() == old(self).selected@.len(),
        ensures
            final(self).facts == old(self).facts,
            final(self).extra == old(self).extra,
            final(self).selected@.len() == old(self).selected@.len(),
            forall|k: int|
                0 <= k < old(self).selected@.len() ==> #[trigger] final(self).selected@[k] == (old(
                    self,
                ).selected@[k] || ty_uses(
                    *ty,
                    old(self).facts@[k].name@,
                    old(self).facts@[k].kind is KLifetime,
                )),
            used == (exists|k: int|
                0 <= k < old(self).facts@.len() && ty_uses(
                    *ty,
                    (#[trigger] old(self).facts@[k]).name@,
                    old(self).facts@[k].kind is KLifetime,
                )),
    {
        let mut sel2: Vec<bool> = Vec::new();
        let mut used: bool = false;
        let mut k: usize = 0;
        let n = self.selected.len();
        while k < n
            invariant
                *self == *old(self),
                n == self.selected@.len(),
                n == self.facts@.len(),
                k <= n,
                sel2@.len() == k,
                forall|x: int|
                    0 <= x < k ==> #[trigger] sel2@[x] == (self.selected@[x] || ty_uses(
                        *ty,
                        self.facts@[x].name@,
                        self.facts@[x].kind is KLifetime,
                    )),
                used == (exists|x: int|
                    0 <= x < k && ty_uses(
                        *ty,
                        (#[trigger] self.facts@[x]).name@,
                        self.facts@[x].kind is KLifetime,
                    )),
            decreases n - k,
        {
            let mut v = self.selected[k];
            let f = &self.facts[k];
            let il = match f.kind {
                GpKind::KLifetime => true,
                _ => false,
            };
            if ty_uses_exec(ty, f.name, il) {
                v = true;
                used = true;
            }
            sel2.push(v);
            k = k + 1;
        }
        self.selected = sel2;
        used
    }
}

} // verus!
