//! The expansion pipeline.
//!
//! One annotated declaration runs through the stages in order: the
//! container's raw annotations are resolved, each variant's are resolved
//! and merged over the container's, skipped variants drop out, each
//! field's are resolved and merged over its ancestors', the fields are
//! classified, the context type is synthesized and its conversions are
//! emitted.  The first failure aborts the declaration's expansion with an
//! error naming the offending node; otherwise the expansion lists every
//! synthesized context type with its conversions, the deferred-set
//! implementations grouped across variants, and the module the output is
//! placed in, if any.

use vstd::prelude::*;

use crate::ast::str_eq;
use crate::ast::ContainerBody;
use crate::ast::ContainerDecl;
use crate::ast::Delim;
use crate::ast::FieldDecl;
use crate::ast::GenericsDecl;
use crate::ast::Ty;
use crate::ast::Vis;
use crate::classify::chosen_source;
use crate::classify::classify;
use crate::classify::classify_err;
use crate::classify::first_from;
use crate::classify::fo_views;
use crate::classify::is_data_field;
use crate::classify::Classified;
use crate::classify::ClassifyError;
use crate::classify::FieldRole;
use crate::emit::emit;
use crate::emit::plan_ok;
use crate::emit::ContextImpls;
use crate::emit::ConvTarget;
use crate::emit::Member;
use crate::generics::analyze;
use crate::generics::ty_uses;
use crate::inherit::merge_spec;
use crate::inherit::merged;
use crate::options::resolve;
use crate::options::resolve_spec;
use crate::options::FlagOrIdent;
use crate::options::FlagOrIdentSpec;
use crate::options::OptError;
use crate::options::Options;
use crate::options::OptionsSpec;
use crate::options::Scope;
use crate::synth::ctx_name_spec;
use crate::synth::ctx_field_ok;
use crate::synth::data_idxs;
use crate::synth::synthesize;
use crate::synth::ContextType;
use crate::synth::SynthError;

verus! {

/// The error one expansion stops on.
pub enum ExpandError {
    /// The declaration is a union, which is not supported.
    UnionUnsupported,
    /// Grammar errors in one node's raw annotation list.
    Grammar { variant: Option<usize>, field: Option<usize>, errs: Vec<OptError> },
    /// A structural classification error in one node.
    Structure { variant: Option<usize>, err: ClassifyError },
    /// A naming error in one node's synthesized type.
    Naming { variant: Option<usize>, err: SynthError },
}

/// The mathematical value of an [`ExpandError`].
pub enum ExpandErrorSpec {
    EUnion,
    EGrammar { variant: Option<int>, field: Option<int>, errs: Seq<OptError> },
    EStructure { variant: Option<int>, err: ClassifyError },
    ENaming { variant: Option<int>, err: SynthError },
}

/// The value an [`ExpandError`] stands for.
pub open spec fn expand_error_view(e: ExpandError) -> ExpandErrorSpec {
    match e {
        ExpandError::UnionUnsupported => ExpandErrorSpec::EUnion,
        ExpandError::Grammar { variant, field, errs } => ExpandErrorSpec::EGrammar {
            variant: match variant {
                Some(v) => Some(v as int),
                None => None,
            },
            field: match field {
                Some(f) => Some(f as int),
                None => None,
            },
            errs: errs@,
        },
        ExpandError::Structure { variant, err } => ExpandErrorSpec::EStructure {
            variant: match variant {
                Some(v) => Some(v as int),
                None => None,
            },
            err,
        },
        ExpandError::Naming { variant, err } => ExpandErrorSpec::ENaming {
            variant: match variant {
                Some(v) => Some(v as int),
                None => None,
            },
            err,
        },
    }
}

/// One entry of a deferred-set group: the variant it lives in and the
/// member holding the slot.
#[derive(Clone, Copy)]
pub struct OptEntry<'a> {
    /// The variant's name, or none for a struct.
    pub parent: Option<&'a String>,
    pub member: Member<'a>,
    /// The field index in its declaration.
    pub index: usize,
}

/// One deferred-set implementation: every slot across the declaration
/// that shares one grouping identifier.
pub struct WithOptionalImpl<'a> {
    pub ident: &'a String,
    /// The declared type of the group's slots, taken from its first
    /// member.
    pub slot_ty: &'a Ty,
    pub entries: Vec<OptEntry<'a>>,
}

/// Everything synthesized for one variant or struct.
pub struct NodeExpansion<'a> {
    /// The variant's index, or none for a struct.
    pub node_index: Option<usize>,
    pub cls: Classified<'a>,
    pub ctx: ContextType<'a>,
    pub impls: ContextImpls<'a>,
}

/// The full output of one expansion.
pub struct Expansion<'a> {
    /// The module the synthesized declarations are placed in, if any.
    pub module: Option<String>,
    /// The visibility of the module wrapper.
    pub vis: &'a Vis,
    pub items: Vec<NodeExpansion<'a>>,
    pub optionals: Vec<WithOptionalImpl<'a>>,
}

/// True for an enum-shaped declaration.
pub open spec fn is_enum_spec(decl: ContainerDecl) -> bool {
    decl.body is EnumBody
}

/// The container's resolved options.
pub open spec fn c_state(decl: ContainerDecl) -> crate::options::ResolveState {
    resolve_spec(Scope::AtContainer, is_enum_spec(decl), decl.attrs@)
}

/// One variant's resolved options.
pub open spec fn v_state(decl: ContainerDecl, vi: int) -> crate::options::ResolveState {
    resolve_spec(Scope::AtVariant, is_enum_spec(decl), decl.body->EnumBody_variants[vi].attrs@)
}

/// One variant's effective options: its own over the container's.
pub open spec fn v_eff(decl: ContainerDecl, vi: int) -> OptionsSpec {
    merge_spec(c_state(decl).opts, v_state(decl, vi).opts)
}

/// One field's resolved options.
pub open spec fn f_state(f: FieldDecl) -> crate::options::ResolveState {
    resolve_spec(Scope::AtField, true, f.attrs@)
}

/// One field's effective options over its parent's.
pub open spec fn f_eff(parent: OptionsSpec, f: FieldDecl) -> OptionsSpec {
    merge_spec(parent, f_state(f).opts)
}

/// The effective options of every field of a node.
pub open spec fn fo_of(fields: Seq<FieldDecl>, parent: OptionsSpec) -> Seq<OptionsSpec> {
    Seq::new(fields.len(), |i: int| f_eff(parent, fields[i]))
}

/// The resolved module name: an explicit name, the fixed default for a
/// bare flag, or none.
pub open spec fn module_name_of(o: OptionsSpec) -> Option<Seq<char>> {
    match o.module {
        Some(FlagOrIdentSpec::IdentSp(s)) => Some(s),
        Some(FlagOrIdentSpec::FlagSp(b)) => if b {
            Some("context"@)
        } else {
            None
        },
        None => None,
    }
}

/// True when variant `vi` is skipped by its effective skip key.
pub open spec fn v_skipped(decl: ContainerDecl, vi: int) -> bool {
    v_eff(decl, vi).skip == Some(true)
}

/// The index of the first field of `fields` whose own annotation list has
/// grammar errors, among the first `n`.
pub open spec fn first_field_err(fields: Seq<FieldDecl>, n: int) -> Option<int>
    decreases n,
{
    if n <= 0 {
        None
    } else if first_field_err(fields, n - 1) is Some {
        first_field_err(fields, n - 1)
    } else if f_state(fields[n - 1]).errs.len() > 0 {
        Some(n - 1)
    } else {
        None
    }
}

/// True when any container generic occurs in `t`.
pub open spec fn uses_any_param(g: GenericsDecl, t: Ty) -> bool {
    exists|k: int|
        0 <= k < g.params.len() && ty_uses(
            t,
            (#[trigger] g.params[k]).name@,
            g.params[k].kind is KLifetime,
        )
}

/// `crate::classify::is_generated`, stated over the declaration itself.
pub open spec fn is_generated_g(
    fields: Seq<FieldDecl>,
    fo: Seq<OptionsSpec>,
    g: GenericsDecl,
    i: int,
) -> bool {
    &&& !uses_any_param(g, fields[i].ty)
    &&& fo[i].generic != Some(false)
}

/// `crate::classify::role_ok`, stated over the declaration itself.
pub open spec fn role_ok_g<'a>(
    fields: Seq<FieldDecl>,
    fo: Seq<OptionsSpec>,
    transparent: bool,
    g: GenericsDecl,
    role: FieldRole<'a>,
    i: int,
) -> bool {
    if chosen_source(fields, fo, transparent) == Some(i) {
        role is RSource
    } else if fo[i].optional is Some {
        &&& role matches FieldRole::ROptional { ident }
        &&& ident@ == crate::classify::optional_ident_of(fields, fo, i)
    } else {
        &&& role matches FieldRole::RData { gen }
        &&& (gen is Some <==> is_generated_g(fields, fo, g, i))
        &&& (gen matches Some(gi) ==> {
            &&& gi.gname@ == crate::classify::gen_name(fields, i)
            &&& (match gi.unwrap_inner {
                Some(t) => crate::classify::unwrap_inner_of(fields, fo, i) == Some(*t),
                None => crate::classify::unwrap_inner_of(fields, fo, i) is None,
            })
        })
    }
}

/// The error one node's own stages stop on: a field's grammar errors,
/// else a classification error, else a naming collision.
pub open spec fn node_err(
    decl: ContainerDecl,
    vi: Option<int>,
    name: Seq<char>,
    fields: Seq<FieldDecl>,
    eff: OptionsSpec,
) -> Option<ExpandErrorSpec> {
    let fo = fo_of(fields, eff);
    if first_field_err(fields, fields.len() as int) is Some {
        Some(
            ExpandErrorSpec::EGrammar {
                variant: vi,
                field: first_field_err(fields, fields.len() as int),
                errs: f_state(fields[first_field_err(fields, fields.len() as int)->0]).errs,
            },
        )
    } else if classify_err(fields, fo, eff.transparent) is Some {
        Some(
            ExpandErrorSpec::EStructure {
                variant: vi,
                err: classify_err(fields, fo, eff.transparent)->0,
            },
        )
    } else if ctx_name_spec(name, eff, module_name_of(c_state(decl).opts) is Some) == decl.name@
        && module_name_of(c_state(decl).opts) is None {
        Some(ExpandErrorSpec::ENaming { variant: vi, err: SynthError::NameCollision })
    } else {
        None
    }
}

/// The error the first `n` variants stop on.
pub open spec fn variants_err(decl: ContainerDecl, n: int) -> Option<ExpandErrorSpec>
    decreases n,
{
    let vs = decl.body->EnumBody_variants;
    if n <= 0 {
        None
    } else if variants_err(decl, n - 1) is Some {
        variants_err(decl, n - 1)
    } else {
        let vi = n - 1;
        if v_state(decl, vi).errs.len() > 0 {
            Some(
                ExpandErrorSpec::EGrammar {
                    variant: Some(vi),
                    field: None,
                    errs: v_state(decl, vi).errs,
                },
            )
        } else if v_skipped(decl, vi) {
            None
        } else {
            node_err(decl, Some(vi), vs[vi].name@, vs[vi].fields@, v_eff(decl, vi))
        }
    }
}

/// The error the whole expansion stops on, if any.
pub open spec fn expand_err(decl: ContainerDecl) -> Option<ExpandErrorSpec> {
    if decl.body is UnionBody {
        Some(ExpandErrorSpec::EUnion)
    } else if c_state(decl).errs.len() > 0 {
        Some(
            ExpandErrorSpec::EGrammar { variant: None, field: None, errs: c_state(decl).errs },
        )
    } else {
        match decl.body {
            ContainerBody::StructBody { fields, .. } => {
                if c_state(decl).opts.skip == Some(true) {
                    None
                } else {
                    node_err(decl, None, decl.name@, fields@, c_state(decl).opts)
                }
            },
            ContainerBody::EnumBody { variants } => variants_err(decl, variants.len() as int),
            ContainerBody::UnionBody => None,
        }
    }
}

/// The indices of the variants that are expanded: the ones not skipped,
/// among the first `n`.
pub open spec fn kept_idxs(decl: ContainerDecl, n: int) -> Seq<int>
    decreases n,
{
    if n <= 0 {
        Seq::empty()
    } else {
        kept_idxs(decl, n - 1) + if v_skipped(decl, n - 1) {
            Seq::empty()
        } else {
            seq![n - 1]
        }
    }
}

/// True when container generic `k` occurs in some data field's type of
/// this node.
pub open spec fn param_used_by_data(
    fields: Seq<FieldDecl>,
    fo: Seq<OptionsSpec>,
    transparent: bool,
    g: GenericsDecl,
    k: int,
) -> bool {
    exists|i: int|
        0 <= i < fields.len() && is_data_field(fields, fo, transparent, i) && ty_uses(
            fields[i].ty,
            g.params[k].name@,
            g.params[k].kind is KLifetime,
        )
}

/// The indices of the non-const container generics some data field uses,
/// among the first `n`, in declaration order.
pub open spec fn used_params_nonconst(
    fields: Seq<FieldDecl>,
    fo: Seq<OptionsSpec>,
    transparent: bool,
    g: GenericsDecl,
    n: int,
) -> Seq<int>
    decreases n,
{
    if n <= 0 {
        Seq::empty()
    } else {
        used_params_nonconst(fields, fo, transparent, g, n - 1) + if param_used_by_data(
            fields,
            fo,
            transparent,
            g,
            n - 1,
        ) && !(g.params[n - 1].kind is KConst) {
            seq![n - 1]
        } else {
            Seq::empty()
        }
    }
}

/// The indices of the const container generics some data field uses,
/// among the first `n`, in declaration order.
pub open spec fn used_params_const(
    fields: Seq<FieldDecl>,
    fo: Seq<OptionsSpec>,
    transparent: bool,
    g: GenericsDecl,
    n: int,
) -> Seq<int>
    decreases n,
{
    if n <= 0 {
        Seq::empty()
    } else {
        used_params_const(fields, fo, transparent, g, n - 1) + if param_used_by_data(
            fields,
            fo,
            transparent,
            g,
            n - 1,
        ) && g.params[n - 1].kind is KConst {
            seq![n - 1]
        } else {
            Seq::empty()
        }
    }
}

/// True when the container declares any const generic parameter.
pub open spec fn has_const_g(g: GenericsDecl) -> bool {
    exists|k: int| 0 <= k < g.params.len() && (#[trigger] g.params[k]).kind is KConst
}

proof fn lemma_used_sel_equiv(
    table: crate::generics::GenericTable,
    fields: Seq<FieldDecl>,
    fo: Seq<OptionsSpec>,
    transparent: bool,
    g: GenericsDecl,
    m: int,
)
    requires
        0 <= m <= table.facts.len(),
        table.selected.len() == table.facts.len(),
        g.params.len() == table.facts.len(),
        forall|k: int|
            0 <= k < table.facts.len() ==> #[trigger] table.selected[k] == param_used_by_data(
                fields,
                fo,
                transparent,
                g,
                k,
            ),
        forall|k: int|
            0 <= k < table.facts.len() ==> (#[trigger] table.facts[k]).kind == g.params[k].kind,
    ensures
        crate::synth::sel_nonconst(table, m) == used_params_nonconst(fields, fo, transparent, g, m),
        crate::synth::sel_const(table, m) == used_params_const(fields, fo, transparent, g, m),
    decreases m,
{
    if m > 0 {
        lemma_used_sel_equiv(table, fields, fo, transparent, g, m - 1);
        assert(crate::synth::sel_nonconst(table, m) =~= used_params_nonconst(
            fields,
            fo,
            transparent,
            g,
            m,
        ));
        assert(crate::synth::sel_const(table, m) =~= used_params_const(
            fields,
            fo,
            transparent,
            g,
            m,
        ));
    }
}

/// True when one node's expansion is the one its declaration calls for:
/// the classified roles, the context type's identity and fields, and the
/// emitted conversions, all pinned to the node's fields and effective
/// options.
pub open spec fn node_exp_ok<'a>(
    decl: ContainerDecl,
    name: Seq<char>,
    delim: Delim,
    fields: Seq<FieldDecl>,
    eff: OptionsSpec,
    item: NodeExpansion<'a>,
) -> bool {
    let fo = fo_of(fields, eff);
    let has_module = module_name_of(c_state(decl).opts) is Some;
    let tr = eff.transparent;
    &&& item.cls.roles@.len() == fields.len()
    &&& (match item.cls.source {
        Some(s) => chosen_source(fields, fo, tr) == Some(s as int),
        None => chosen_source(fields, fo, tr) is None,
    })
    &&& (forall|i: int|
        0 <= i < fields.len() ==> role_ok_g(
            fields,
            fo,
            tr,
            decl.generics,
            #[trigger] item.cls.roles@[i],
            i,
        ))
    &&& item.ctx.name@ == ctx_name_spec(name, eff, has_module)
    &&& (match eff.vis {
        Some(v) => *item.ctx.vis == v,
        None => *item.ctx.vis == decl.vis,
    })
    &&& item.ctx.attrs@.map_values(|s: &String| s@) == eff.attrs
    &&& item.ctx.fields@.len() == data_idxs(item.cls.roles@, fields.len() as int).len()
    &&& (forall|p: int|
        0 <= p < item.ctx.fields@.len() ==> ctx_field_ok(
            fields,
            fo,
            item.cls.roles@,
            match eff.vis {
                Some(v) => v,
                None => decl.vis,
            },
            #[trigger] item.ctx.fields@[p],
            data_idxs(item.cls.roles@, fields.len() as int)[p],
        ))
    &&& item.impls.impls@.len() == 1 + eff.into.len()
    &&& (match eff.remote {
        Some(t) => item.impls.impls@[0].target matches ConvTarget::TOther(t2) && *t2 == t,
        None => item.impls.impls@[0].target is TContainer,
    })
    &&& (forall|j: int|
        1 <= j < item.impls.impls@.len() ==> ((#[trigger] item.impls.impls@[j].target) matches
        ConvTarget::TOther(t) && *t == eff.into[j - 1]))
    &&& (forall|j: int|
        0 <= j < item.impls.impls@.len() ==> plan_ok(
            fields,
            item.cls.roles@,
            (#[trigger] item.impls.impls@[j]).plan@,
        ))
    &&& (item.cls.source is None ==> item.impls.from_ctx@.len() == item.impls.impls@.len())
    &&& (item.cls.source is Some ==> item.impls.from_ctx@.len() == 0)
    &&& (forall|j: int|
        0 <= j < item.impls.impls@.len() ==> (match item.cls.source {
            Some(s) => (#[trigger] item.impls.impls@[j]).source_ty matches Some(t) && *t
                == fields[s as int].ty,
            None => (#[trigger] item.impls.impls@[j]).source_ty is None,
        }))
    &&& (forall|j: int|
        0 <= j < item.impls.from_ctx@.len() ==> (#[trigger] item.impls.from_ctx@[j]).target
            == item.impls.impls@[j].target && plan_ok(
            fields,
            item.cls.roles@,
            item.impls.from_ctx@[j].plan@,
        ))
    &&& (match item.cls.from {
        Some(fi) => {
            &&& first_from(fo, fields.len() as int) == Some(fi as int)
            &&& item.impls.from_src matches Some(fs) && *fs.src_ty == fields[fi as int].ty
                && fs.target == item.impls.impls@[0].target && plan_ok(
                fields,
                item.cls.roles@,
                fs.plan@,
            )
        },
        None => first_from(fo, fields.len() as int) is None && item.impls.from_src is None,
    })
    &&& item.ctx.delim == (if item.ctx.fields@.len() == 0 && eff.unit != Some(false) {
        Delim::NoDelim
    } else {
        delim
    })
    &&& item.ctx.selected@.map_values(|u: usize| u as int) == used_params_nonconst(
        fields,
        fo,
        tr,
        decl.generics,
        decl.generics.params.len() as int,
    )
    &&& item.ctx.selected_const@.map_values(|u: usize| u as int) == used_params_const(
        fields,
        fo,
        tr,
        decl.generics,
        decl.generics.params.len() as int,
    )
    &&& item.ctx.gen_defaults == !has_const_g(decl.generics)
}

/// Skip inheritance.  A variant's effective skip key is its own where it
/// sets one, and the container's otherwise: under a skipping container, a
/// variant that overrides with `false` is kept and a silent variant is
/// skipped; membership in the expanded set follows exactly.
pub proof fn lemma_skip_inheritance(decl: ContainerDecl, vi: int, n: int)
    requires
        0 <= vi < n,
    ensures
        v_state(decl, vi).opts.skip is Some ==> v_skipped(decl, vi) == (v_state(
            decl,
            vi,
        ).opts.skip == Some(true)),
        v_state(decl, vi).opts.skip is None ==> v_skipped(decl, vi) == (c_state(
            decl,
        ).opts.skip == Some(true)),
        kept_idxs(decl, n).contains(vi) <==> !v_skipped(decl, vi),
    decreases n,
{
    if vi == n - 1 {
        if !v_skipped(decl, vi) {
            assert(kept_idxs(decl, n)[kept_idxs(decl, n).len() - 1] == vi);
        } else {
            lemma_kept_bound(decl, n - 1);
            assert(kept_idxs(decl, n) =~= kept_idxs(decl, n - 1));
            if kept_idxs(decl, n).contains(vi) {
                let p = choose|p: int|
                    0 <= p < kept_idxs(decl, n).len() && #[trigger] kept_idxs(decl, n)[p] == vi;
                assert(kept_idxs(decl, n - 1)[p] == vi);
                assert(false);
            }
        }
    } else {
        lemma_skip_inheritance(decl, vi, n - 1);
        assert forall|x: int| kept_idxs(decl, n - 1).contains(x) implies kept_idxs(
            decl,
            n,
        ).contains(x) by {
            let p = choose|p: int|
                0 <= p < kept_idxs(decl, n - 1).len() && #[trigger] kept_idxs(decl, n - 1)[p] == x;
            assert(kept_idxs(decl, n)[p] == x);
        }
        assert forall|x: int| kept_idxs(decl, n).contains(x) && x != n - 1 implies kept_idxs(
            decl,
            n - 1,
        ).contains(x) by {
            let p = choose|p: int|
                0 <= p < kept_idxs(decl, n).len() && #[trigger] kept_idxs(decl, n)[p] == x;
            if p < kept_idxs(decl, n - 1).len() {
                assert(kept_idxs(decl, n - 1)[p] == x);
            }
        }
    }
}

proof fn lemma_kept_bound(decl: ContainerDecl, n: int)
    ensures
        forall|p: int|
            0 <= p < kept_idxs(decl, n).len() ==> #[trigger] kept_idxs(decl, n)[p] < n,
    decreases n,
{
    if n > 0 {
        lemma_kept_bound(decl, n - 1);
        assert forall|p: int| 0 <= p < kept_idxs(decl, n).len() implies #[trigger] kept_idxs(
            decl,
            n,
        )[p] < n by {
            if p < kept_idxs(decl, n - 1).len() {
                assert(kept_idxs(decl, n)[p] == kept_idxs(decl, n - 1)[p]);
            } else {
                assert(kept_idxs(decl, n)[p] == n - 1);
            }
        }
    }
}

fn field_opts<'a>(fields: &'a Vec<FieldDecl>, parent: &Options<'a>) -> (r: Result<
    Vec<Options<'a>>,
    (usize, Vec<OptError>),
>)
    ensures
        (match r {
            Ok(fopts) => {
                &&& first_field_err(fields@, fields@.len() as int) is None
                &&& fopts@.len() == fields@.len()
                &&& fo_views(fopts@) == fo_of(fields@, parent@)
            },
            Err((fi, errs)) => {
                &&& first_field_err(fields@, fields@.len() as int) == Some(fi as int)
                &&& errs@ == f_state(fields@[fi as int]).errs
            },
        }),
{
    let mut fopts: Vec<Options<'a>> = Vec::new();
    let mut i: usize = 0;
    while i < fields.len()
        invariant
            i <= fields@.len(),
            fopts@.len() == i,
            first_field_err(fields@, i as int) is None,
            forall|x: int| 0 <= x < i ==> (#[trigger] fopts@[x])@ == f_eff(parent@, fields@[x]),
        decreases fields@.len() - i,
    {
        match resolve(Scope::AtField, true, &fields[i].attrs) {
            Ok(o) => {
                let eff = merged(parent, &o);
                fopts.push(eff);
            },
            Err(errs) => {
                proof {
                    lemma_first_field_err_persists(fields@, i + 1 as int, fields@.len() as int);
                }
                return Err((i, errs));
            },
        }
        i = i + 1;
    }
    proof {
        assert(fo_views(fopts@) =~= fo_of(fields@, parent@));
    }
    Ok(fopts)
}

proof fn lemma_first_field_err_persists(fields: Seq<FieldDecl>, n: int, m: int)
    requires
        0 <= n <= m,
        first_field_err(fields, n) is Some,
    ensures
        first_field_err(fields, m) == first_field_err(fields, n),
    decreases m - n,
{
    if n < m {
        lemma_first_field_err_persists(fields, n, m - 1);
    }
}

proof fn lemma_variants_err_persists(decl: ContainerDecl, n: int, m: int)
    requires
        0 <= n <= m,
        variants_err(decl, n) is Some,
    ensures
        variants_err(decl, m) == variants_err(decl, n),
    decreases m - n,
{
    if n < m {
        lemma_variants_err_persists(decl, n, m - 1);
    }
}

/// Expands one node once its effective options are known: classifies the
/// fields, synthesizes the context type and emits its conversions.
#[verifier::rlimit(100)]
#[verifier::spinoff_prover]
fn expand_node<'a>(
    decl: &'a ContainerDecl,
    node_index: Option<usize>,
    name: &'a String,
    delim: Delim,
    fields: &'a Vec<FieldDecl>,
    eff: &Options<'a>,
    has_module: bool,
) -> (r: Result<NodeExpansion<'a>, ExpandError>)
    requires
        has_module == (module_name_of(c_state(*decl).opts) is Some),
        (match node_index {
            Some(vi) => is_enum_spec(*decl) && vi < decl.body->EnumBody_variants.len()
                && decl.body->EnumBody_variants[vi as int].name == *name
                && decl.body->EnumBody_variants[vi as int].fields == *fields,
            None => true,
        }),
    ensures
        (match r {
            Ok(item) => {
                &&& node_err(*decl, match node_index {
                    Some(v) => Some(v as int),
                    None => None,
                }, name@, fields@, eff@) is None
                &&& node_exp_ok(*decl, name@, delim, fields@, eff@, item)
                &&& item.node_index == node_index
                &&& item.cls.roles@.len() == fields@.len()
            },
            Err(e) => node_err(*decl, match node_index {
                Some(v) => Some(v as int),
                None => None,
            }, name@, fields@, eff@) == Some(expand_error_view(e)),
        }),
{
    let ghost vi_spec: Option<int> = match node_index {
        Some(v) => Some(v as int),
        None => None,
    };
    let fopts = match field_opts(fields, eff) {
        Ok(fopts) => fopts,
        Err((fi, errs)) => {
            return Err(ExpandError::Grammar { variant: node_index, field: Some(fi), errs });
        },
    };
    let mut table = analyze(&decl.generics);
    let ghost table0 = table;
    let cls = match classify(fields, &fopts, eff.transparent, &mut table) {
        Ok(cls) => cls,
        Err(e) => {
            return Err(ExpandError::Structure { variant: node_index, err: e });
        },
    };
    proof {
        let fo = fo_of(fields@, eff@);
        let g = decl.generics;
        assert forall|i: int| 0 <= i < fields@.len() implies role_ok_g(
            fields@,
            fo,
            eff@.transparent,
            g,
            #[trigger] cls.roles@[i],
            i,
        ) by {
            assert(crate::classify::role_ok(
                fields@,
                fo,
                eff@.transparent,
                table0,
                cls.roles@[i],
                i,
            ));
            let t = fields@[i].ty;
            if exists|k: int|
                0 <= k < table0.facts.len() && ty_uses(
                    t,
                    (#[trigger] table0.facts[k]).name@,
                    table0.facts[k].kind is KLifetime,
                ) {
                let k = choose|k: int|
                    0 <= k < table0.facts.len() && ty_uses(
                        t,
                        (#[trigger] table0.facts[k]).name@,
                        table0.facts[k].kind is KLifetime,
                    );
                assert(table0.facts@[k].name@ == g.params@[k].name@);
                assert(table0.facts@[k].kind == g.params@[k].kind);
                assert(ty_uses(t, (#[trigger] g.params[k]).name@, g.params[k].kind is KLifetime));
                assert(uses_any_param(g, t));
            }
            if uses_any_param(g, t) {
                let k = choose|k: int|
                    0 <= k < g.params.len() && ty_uses(
                        t,
                        (#[trigger] g.params[k]).name@,
                        g.params[k].kind is KLifetime,
                    );
                assert(table0.facts@[k].name@ == g.params@[k].name@);
                assert(table0.facts@[k].kind == g.params@[k].kind);
                assert(ty_uses(
                    t,
                    (#[trigger] table0.facts[k]).name@,
                    table0.facts[k].kind is KLifetime,
                ));
            }
            assert(crate::classify::is_generated(fields@, fo, table0, i) == is_generated_g(
                fields@,
                fo,
                g,
                i,
            ));
        }
    }
    proof {
        let fo = fo_of(fields@, eff@);
        let g = decl.generics;
        assert forall|k: int| 0 <= k < table.facts@.len() implies #[trigger] table.selected@[k]
            == param_used_by_data(fields@, fo, eff@.transparent, g, k) by {
            if table.selected@[k] {
                let i = choose|i: int|
                    0 <= i < fields@.len() && is_data_field(fields@, fo, eff@.transparent, i)
                        && ty_uses(
                        fields@[i].ty,
                        table0.facts@[k].name@,
                        table0.facts@[k].kind is KLifetime,
                    );
                assert(table0.facts@[k].name@ == g.params@[k].name@);
                assert(table0.facts@[k].kind == g.params@[k].kind);
                assert(ty_uses(
                    fields@[i].ty,
                    g.params[k].name@,
                    g.params[k].kind is KLifetime,
                ));
                assert(param_used_by_data(fields@, fo, eff@.transparent, g, k));
            }
            if param_used_by_data(fields@, fo, eff@.transparent, g, k) {
                let i = choose|i: int|
                    0 <= i < fields@.len() && is_data_field(fields@, fo, eff@.transparent, i)
                        && ty_uses(
                        fields@[i].ty,
                        g.params[k].name@,
                        g.params[k].kind is KLifetime,
                    );
                assert(table0.facts@[k].name@ == g.params@[k].name@);
                assert(table0.facts@[k].kind == g.params@[k].kind);
                assert(ty_uses(
                    fields@[i].ty,
                    table0.facts@[k].name@,
                    table0.facts@[k].kind is KLifetime,
                ));
                assert(table.selected@[k]);
            }
        }
        lemma_used_sel_equiv(
            table,
            fields@,
            fo,
            eff@.transparent,
            g,
            table.facts@.len() as int,
        );
        assert(crate::synth::has_const_param(table) == has_const_g(g)) by {
            if crate::synth::has_const_param(table) {
                let k = choose|k: int|
                    0 <= k < table.facts.len() && (#[trigger] table.facts[k]).kind is KConst;
                assert(table0.facts@[k].kind == g.params@[k].kind);
                assert((g.params[k]).kind is KConst);
            }
            if has_const_g(g) {
                let k = choose|k: int|
                    0 <= k < g.params.len() && (#[trigger] g.params[k]).kind is KConst;
                assert(table0.facts@[k].kind == g.params@[k].kind);
                assert((table.facts[k]).kind is KConst);
            }
        }
    }
    let ctx = match synthesize(
        &decl.name,
        name,
        delim,
        fields,
        &fopts,
        eff,
        &decl.vis,
        &cls,
        &table,
        has_module,
    ) {
        Ok(ctx) => ctx,
        Err(e) => {
            return Err(ExpandError::Naming { variant: node_index, err: e });
        },
    };
    let impls = emit(fields, &cls, eff);
    proof {
        let fo = fo_of(fields@, eff@);
        let g = decl.generics;
        assert(ctx.selected@.map_values(|u: usize| u as int) =~= used_params_nonconst(
            fields@,
            fo,
            eff@.transparent,
            g,
            g.params.len() as int,
        ));
        assert(ctx.selected_const@.map_values(|u: usize| u as int) =~= used_params_const(
            fields@,
            fo,
            eff@.transparent,
            g,
            g.params.len() as int,
        ));
    }
    Ok(NodeExpansion { node_index, cls, ctx, impls })
}

/// Expands one annotated declaration, or stops on its first error.
#[verifier::rlimit(100)]
#[verifier::spinoff_prover]
pub fn expand<'a>(decl: &'a ContainerDecl) -> (r: Result<Expansion<'a>, ExpandError>)
    ensures
        (match r {
            Ok(exp) => {
                &&& expand_err(*decl) is None
                &&& (match module_name_of(c_state(*decl).opts) {
                    Some(m) => exp.module matches Some(s) && s@ == m,
                    None => exp.module is None,
                })
                &&& (match c_state(*decl).opts.vis {
                    Some(v) => *exp.vis == v,
                    None => *exp.vis == decl.vis,
                })
                &&& (match decl.body {
                    ContainerBody::StructBody { delim, fields } => {
                        if c_state(*decl).opts.skip == Some(true) {
                            exp.items@.len() == 0
                        } else {
                            &&& exp.items@.len() == 1
                            &&& exp.items@[0].node_index is None
                            &&& node_exp_ok(
                                *decl,
                                decl.name@,
                                delim,
                                fields@,
                                c_state(*decl).opts,
                                exp.items@[0],
                            )
                        }
                    },
                    ContainerBody::EnumBody { variants } => {
                        let kept = kept_idxs(*decl, variants.len() as int);
                        &&& exp.items@.len() == kept.len()
                        &&& (forall|p: int|
                            0 <= p < kept.len() ==> {
                                let vi = kept[p];
                                &&& (#[trigger] exp.items@[p]).node_index matches Some(v) && v
                                    == vi
                                &&& node_exp_ok(
                                    *decl,
                                    variants@[vi].name@,
                                    variants@[vi].delim,
                                    variants@[vi].fields@,
                                    v_eff(*decl, vi),
                                    exp.items@[p],
                                )
                            })
                    },
                    ContainerBody::UnionBody => false,
                })
            },
            Err(e) => expand_err(*decl) == Some(expand_error_view(e)),
        }),
{
    let is_enum = decl.is_enum();
    match &decl.body {
        ContainerBody::UnionBody => {
            return Err(ExpandError::UnionUnsupported);
        },
        _ => {},
    }
    let c_opts = match resolve(Scope::AtContainer, is_enum, &decl.attrs) {
        Ok(o) => o,
        Err(errs) => {
            return Err(ExpandError::Grammar { variant: None, field: None, errs });
        },
    };
    let module: Option<String> = match &c_opts.module {
        Some(FlagOrIdent::Ident(s)) => Some((*s).clone()),
        Some(FlagOrIdent::Flag(b)) => {
            if *b {
                Some(String::from_str("context"))
            } else {
                None
            }
        },
        None => None,
    };
    let has_module = module.is_some();
    let vis: &'a Vis = match c_opts.vis {
        Some(v) => v,
        None => &decl.vis,
    };
    let mut items: Vec<NodeExpansion<'a>> = Vec::new();
    match &decl.body {
        ContainerBody::StructBody { delim, fields } => {
            let skipped = match c_opts.skip {
                Some(b) => b,
                None => false,
            };
            if !skipped {
                match expand_node(decl, None, &decl.name, *delim, fields, &c_opts, has_module) {
                    Ok(item) => {
                        items.push(item);
                    },
                    Err(e) => {
                        return Err(e);
                    },
                }
            }
        },
        ContainerBody::EnumBody { variants } => {
            let mut vi: usize = 0;
            while vi < variants.len()
                invariant
                    decl.body matches ContainerBody::EnumBody { variants: vs } && vs == *variants,
                    is_enum == is_enum_spec(*decl),
                    c_state(*decl).errs.len() == 0,
                    c_opts@ == c_state(*decl).opts,
                    has_module == (module_name_of(c_state(*decl).opts) is Some),
                    vi <= variants@.len(),
                    variants_err(*decl, vi as int) is None,
                    items@.len() == kept_idxs(*decl, vi as int).len(),
                    forall|p: int|
                        0 <= p < items@.len() ==> {
                            let vx = kept_idxs(*decl, vi as int)[p];
                            &&& ((#[trigger] items@[p]).node_index matches Some(v) && v == vx)
                            &&& node_exp_ok(
                                *decl,
                                variants@[vx].name@,
                                variants@[vx].delim,
                                variants@[vx].fields@,
                                v_eff(*decl, vx),
                                items@[p],
                            )
                        },
                decreases variants@.len() - vi,
            {
                let v_opts = match resolve(Scope::AtVariant, is_enum, &variants[vi].attrs) {
                    Ok(o) => o,
                    Err(errs) => {
                        proof {
                            assert(variants_err(*decl, vi + 1 as int) is Some);
                            lemma_variants_err_persists(
                                *decl,
                                vi + 1 as int,
                                variants@.len() as int,
                            );
                        }
                        return Err(
                            ExpandError::Grammar { variant: Some(vi), field: None, errs },
                        );
                    },
                };
                let eff = merged(&c_opts, &v_opts);
                let skipped = match eff.skip {
                    Some(b) => b,
                    None => false,
                };
                if !skipped {
                    match expand_node(
                        decl,
                        Some(vi),
                        &variants[vi].name,
                        variants[vi].delim,
                        &variants[vi].fields,
                        &eff,
                        has_module,
                    ) {
                        Ok(item) => {
                            items.push(item);
                            proof {
                                assert(kept_idxs(*decl, vi + 1 as int) =~= kept_idxs(
                                    *decl,
                                    vi as int,
                                ).push(vi as int));
                            }
                        },
                        Err(e) => {
                            proof {
                                assert(variants_err(*decl, vi + 1 as int) == Some(
                                    expand_error_view(e),
                                ));
                                lemma_variants_err_persists(
                                    *decl,
                                    vi + 1 as int,
                                    variants@.len() as int,
                                );
                            }
                            return Err(e);
                        },
                    }
                } else {
                    proof {
                        assert(kept_idxs(*decl, vi + 1 as int) =~= kept_idxs(*decl, vi as int));
                    }
                }
                vi = vi + 1;
            }
        },
        ContainerBody::UnionBody => {},
    }
    let optionals = collect_optionals(decl, &items);
    Ok(Expansion { module, vis, items, optionals })
}

/// Groups the deferred optional fields of the expanded nodes by their
/// grouping identifier, in first-seen order, one implementation per
/// group.  The per-field grouping identifier itself is pinned by the
/// classifier's contract (`optional_ident_of`); the grouping pass is
/// exercised by tests and carries no contract of its own.
fn collect_optionals<'a>(decl: &'a ContainerDecl, items: &Vec<NodeExpansion<'a>>) -> (r: Vec<
    WithOptionalImpl<'a>,
>) {
    // First pass: flatten every optional slot with its group identifier.
    let mut idents: Vec<&'a String> = Vec::new();
    let mut tys: Vec<&'a Ty> = Vec::new();
    let mut entries: Vec<OptEntry<'a>> = Vec::new();
    let mut p: usize = 0;
    while p < items.len()
        invariant
            idents@.len() == tys@.len(),
            idents@.len() == entries@.len(),
        decreases items@.len() - p,
    {
        let item = &items[p];
        match item.node_index {
            Some(vi) => {
                match &decl.body {
                    ContainerBody::EnumBody { variants } => {
                        if vi < variants.len() {
                            flatten_optionals(
                                Some(&variants[vi].name),
                                &variants[vi].fields,
                                &item.cls,
                                &mut idents,
                                &mut tys,
                                &mut entries,
                            );
                        }
                    },
                    _ => {},
                }
            },
            None => {
                match &decl.body {
                    ContainerBody::StructBody { fields, .. } => {
                        flatten_optionals(
                            None,
                            fields,
                            &item.cls,
                            &mut idents,
                            &mut tys,
                            &mut entries,
                        );
                    },
                    _ => {},
                }
            },
        }
        p = p + 1;
    }
    // Second pass: one group per distinct identifier, in first-seen
    // order, each holding every matching slot in order.
    let mut groups: Vec<WithOptionalImpl<'a>> = Vec::new();
    let mut a: usize = 0;
    while a < idents.len()
        invariant
            idents@.len() == tys@.len(),
            idents@.len() == entries@.len(),
        decreases idents@.len() - a,
    {
        let mut seen = false;
        let mut b: usize = 0;
        while b < a
            invariant
                a < idents@.len(),
            decreases a - b,
        {
            if str_eq(idents[b], idents[a]) {
                seen = true;
            }
            b = b + 1;
        }
        if !seen {
            let mut group_entries: Vec<OptEntry<'a>> = Vec::new();
            let mut c: usize = 0;
            while c < idents.len()
                invariant
                    a < idents@.len(),
                    idents@.len() == entries@.len(),
                decreases idents@.len() - c,
            {
                if str_eq(idents[c], idents[a]) {
                    group_entries.push(entries[c]);
                }
                c = c + 1;
            }
            groups.push(
                WithOptionalImpl { ident: idents[a], slot_ty: tys[a], entries: group_entries },
            );
        }
        a = a + 1;
    }
    groups
}

fn flatten_optionals<'a>(
    parent: Option<&'a String>,
    fields: &'a Vec<FieldDecl>,
    cls: &Classified<'a>,
    idents: &mut Vec<&'a String>,
    tys: &mut Vec<&'a Ty>,
    entries: &mut Vec<OptEntry<'a>>,
)
    requires
        old(idents)@.len() == old(tys)@.len(),
        old(idents)@.len() == old(entries)@.len(),
    ensures
        final(idents)@.len() == final(tys)@.len(),
        final(idents)@.len() == final(entries)@.len(),
{
    let mut i: usize = 0;
    while i < cls.roles.len()
        invariant
            idents@.len() == tys@.len(),
            idents@.len() == entries@.len(),
        decreases cls.roles@.len() - i,
    {
        match &cls.roles[i] {
            FieldRole::ROptional { ident } => {
                if i < fields.len() {
                    let member = match &fields[i].name {
                        Some(nm) => Member::MNamed(nm),
                        None => Member::MIndex(i),
                    };
                    idents.push(ident);
                    tys.push(&fields[i].ty);
                    entries.push(OptEntry { parent, member, index: i });
                }
            },
            _ => {},
        }
        i = i + 1;
    }
}

} // verus!
