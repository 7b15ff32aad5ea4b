//! The context type synthesizer.
//!
//! From a variant's or struct's classified fields and effective options it
//! assembles the declaration of the auxiliary context type: its name —
//! an outright rename wins, else prefix and suffix combine with the
//! original name, else a fixed default suffix is appended unless naming
//! directives or a module make it unnecessary —, its visibility, its
//! pass-through attributes, the data fields (source and optional fields
//! are left out), the selected container generics with const parameters
//! ordered last, and the synthesized per-field generics, defaulting to
//! each field's own type where declaration-position defaults are legal.

use vstd::prelude::*;

use crate::ast::str_eq;
use crate::ast::Delim;
use crate::ast::FieldDecl;
use crate::ast::Ty;
use crate::ast::Vis;
use crate::classify::Classified;
use crate::classify::FieldRole;
use crate::generics::GenericTable;
use crate::options::FlagOrIdentSpec;
use crate::options::Options;
use crate::options::OptionsSpec;

verus! {

/// A structural synthesis error.
#[derive(Clone, Copy, PartialEq, Eq, Structural)]
pub enum SynthError {
    /// The synthesized name spells the same as the container's and no
    /// module separates the two namespaces.
    NameCollision,
}

/// The type of one context field.
pub enum CtxFieldTy<'a> {
    /// A generated field: a fresh generic, defaulting to the field's
    /// original type — or to the wrapper's payload type when the
    /// deferred-unwrap path applies, in which case the rendered field
    /// type keeps the wrapper around the generic.
    CGen { gname: String, orig_ty: &'a Ty, inner: Option<&'a Ty> },
    /// An original-typed field, copied through unmodified.
    COrig(&'a Ty),
}

/// One field of the synthesized context type.
pub struct CtxField<'a> {
    pub name: Option<&'a String>,
    pub vis: &'a Vis,
    pub attrs: Vec<&'a String>,
    /// The index of the field in the originating declaration.
    pub orig_index: usize,
    pub ty: CtxFieldTy<'a>,
}

/// The synthesized context type.
pub struct ContextType<'a> {
    pub name: String,
    pub vis: &'a Vis,
    pub attrs: Vec<&'a String>,
    pub delim: Delim,
    pub fields: Vec<CtxField<'a>>,
    /// Indices of the selected non-const container generics, in
    /// declaration order.
    pub selected: Vec<usize>,
    /// Indices of the selected const container generics, ordered after
    /// every other parameter.
    pub selected_const: Vec<usize>,
    /// Whether the synthesized generics carry declaration-position
    /// defaults; disabled when the container has const parameters.
    pub gen_defaults: bool,
}

/// The suffix the name resolution appends: an explicit identifier, the
/// fixed default for an explicit flag, nothing for a disabled flag, and —
/// when no suffix key is set at all — the fixed default unless a prefix
/// or a module already distinguishes the name.
pub open spec fn suffix_part(eff: OptionsSpec, has_module: bool) -> Seq<char> {
    match eff.suffix {
        Some(FlagOrIdentSpec::IdentSp(s)) => s,
        Some(FlagOrIdentSpec::FlagSp(b)) => if b {
            "Context"@
        } else {
            Seq::empty()
        },
        None => if eff.prefix is Some || has_module {
            Seq::empty()
        } else {
            "Context"@
        },
    }
}

/// The synthesized type's name: an outright rename wins; else the prefix,
/// the original name and the suffix concatenate.
pub open spec fn ctx_name_spec(orig: Seq<char>, eff: OptionsSpec, has_module: bool) -> Seq<char> {
    match eff.rename {
        Some(r) => r,
        None => (match eff.prefix {
            Some(p) => p,
            None => Seq::empty(),
        }) + orig + suffix_part(eff, has_module),
    }
}

/// The indices of the data fields among the first `n` roles, in order.
pub open spec fn data_idxs(roles: Seq<FieldRole>, n: int) -> Seq<int>
    decreases n,
{
    if n <= 0 {
        Seq::empty()
    } else {
        data_idxs(roles, n - 1) + if roles[n - 1] is RData {
            seq![n - 1]
        } else {
            Seq::empty()
        }
    }
}

/// The indices of the selected non-const container generics among the
/// first `n` facts.
pub open spec fn sel_nonconst(table: GenericTable, n: int) -> Seq<int>
    decreases n,
{
    if n <= 0 {
        Seq::empty()
    } else {
        sel_nonconst(table, n - 1) + if table.selected[n - 1] && !(table.facts[n - 1].kind
            is KConst) {
            seq![n - 1]
        } else {
            Seq::empty()
        }
    }
}

/// The indices of the selected const container generics among the first
/// `n` facts.
pub open spec fn sel_const(table: GenericTable, n: int) -> Seq<int>
    decreases n,
{
    if n <= 0 {
        Seq::empty()
    } else {
        sel_const(table, n - 1) + if table.selected[n - 1] && table.facts[n - 1].kind is KConst {
            seq![n - 1]
        } else {
            Seq::empty()
        }
    }
}

/// True when any container generic is a const parameter.
pub open spec fn has_const_param(table: GenericTable) -> bool {
    exists|k: int| 0 <= k < table.facts.len() && (#[trigger] table.facts[k]).kind is KConst
}

/// True when the context field at position `p` renders data field `i` as
/// the rules call for: same name, the explicit field visibility or the
/// context's own, the field's own pass-through attributes, and the
/// generated or original type its role assigned.
pub open spec fn ctx_field_ok<'a>(
    fields: Seq<FieldDecl>,
    fopts: Seq<OptionsSpec>,
    roles: Seq<FieldRole<'a>>,
    ctx_vis: Vis,
    cf: CtxField<'a>,
    i: int,
) -> bool {
    &&& cf.orig_index == i
    &&& (match cf.name {
        Some(nm) => fields[i].name matches Some(nm2) && nm@ == nm2@,
        None => fields[i].name is None,
    })
    &&& (match fopts[i].vis {
        Some(v) => *cf.vis == v,
        None => *cf.vis == ctx_vis,
    })
    &&& cf.attrs@.map_values(|s: &String| s@) == fopts[i].attrs
    &&& (match roles[i]->RData_gen {
        Some(gi) => {
            &&& cf.ty matches CtxFieldTy::CGen { gname, orig_ty, inner }
            &&& gname@ == gi.gname@
            &&& *orig_ty == fields[i].ty
            &&& (match (inner, gi.unwrap_inner) {
                (Some(a), Some(b)) => *a == *b,
                (None, None) => true,
                _ => false,
            })
        },
        None => cf.ty matches CtxFieldTy::COrig(t) && *t == fields[i].ty,
    })
}

/// Generic selection exactness.  A container generic stands in the
/// synthesized type's parameter list exactly when its selected flag is
/// set — which, by the classifier's contract, happens exactly when some
/// data field's type mentions it.  A parameter nothing mentions is left
/// out.
pub proof fn lemma_generic_selection_exactness(table: GenericTable, k: int, n: int)
    requires
        0 <= n <= table.facts.len(),
        table.selected.len() == table.facts.len(),
    ensures
        sel_nonconst(table, n).contains(k) <==> (0 <= k < n && table.selected[k] && !(
        table.facts[k].kind is KConst)),
        sel_const(table, n).contains(k) <==> (0 <= k < n && table.selected[k] && table.facts[
            k
        ].kind is KConst),
    decreases n,
{
    if n > 0 {
        lemma_generic_selection_exactness(table, k, n - 1);
        if k == n - 1 && table.selected[k] && !(table.facts[k].kind is KConst) {
            assert(sel_nonconst(table, n)[sel_nonconst(table, n).len() - 1] == k);
        }
        if k == n - 1 && table.selected[k] && table.facts[k].kind is KConst {
            assert(sel_const(table, n)[sel_const(table, n).len() - 1] == k);
        }
        assert forall|x: int| sel_nonconst(table, n - 1).contains(x) implies sel_nonconst(
            table,
            n,
        ).contains(x) by {
            let p = choose|p: int|
                0 <= p < sel_nonconst(table, n - 1).len() && #[trigger] sel_nonconst(table, n - 1)[p] == x;
            assert(sel_nonconst(table, n)[p] == x);
        }
        assert forall|x: int| sel_const(table, n - 1).contains(x) implies sel_const(
            table,
            n,
        ).contains(x) by {
            let p = choose|p: int|
                0 <= p < sel_const(table, n - 1).len() && #[trigger] sel_const(table, n - 1)[p] == x;
            assert(sel_const(table, n)[p] == x);
        }
        assert forall|x: int|
            sel_nonconst(table, n).contains(x) && x != n - 1 implies sel_nonconst(
            table,
            n - 1,
        ).contains(x) by {
            let p = choose|p: int|
                0 <= p < sel_nonconst(table, n).len() && #[trigger] sel_nonconst(table, n)[p] == x;
            if p < sel_nonconst(table, n - 1).len() {
                assert(sel_nonconst(table, n - 1)[p] == x);
            }
        }
        assert forall|x: int| sel_const(table, n).contains(x) && x != n - 1 implies sel_const(
            table,
            n - 1,
        ).contains(x) by {
            let p = choose|p: int|
                0 <= p < sel_const(table, n).len() && #[trigger] sel_const(table, n)[p] == x;
            if p < sel_const(table, n - 1).len() {
                assert(sel_const(table, n - 1)[p] == x);
            }
        }
    }
}

/// Assembles the context type of one variant or struct.
#[verifier::rlimit(60)]
pub fn synthesize<'a>(
    container_name: &String,
    node_name: &'a String,
    node_delim: Delim,
    fields: &'a Vec<FieldDecl>,
    fopts: &Vec<Options<'a>>,
    eff: &Options<'a>,
    container_vis: &'a Vis,
    cls: &Classified<'a>,
    table: &GenericTable<'a>,
    has_module: bool,
) -> (r: Result<ContextType<'a>, SynthError>)
    requires
        cls.roles@.len() == fields@.len(),
        fopts@.len() == fields@.len(),
        table.facts@.len() == table.selected@.len(),
    ensures
        ({
            let want_name = ctx_name_spec(node_name@, eff@, has_module);
            match r {
                Err(e) => e == SynthError::NameCollision && want_name == container_name@
                    && !has_module,
                Ok(ct) => {
                    &&& !(want_name == container_name@ && !has_module)
                    &&& ct.name@ == want_name
                    &&& (match eff@.vis {
                        Some(v) => *ct.vis == v,
                        None => ct.vis == container_vis,
                    })
                    &&& ct.attrs@.map_values(|s: &String| s@) == eff@.attrs
                    &&& ct.fields@.len() == data_idxs(
                        cls.roles@,
                        cls.roles@.len() as int,
                    ).len()
                    &&& (forall|p: int|
                        0 <= p < ct.fields@.len() ==> ctx_field_ok(
                            fields@,
                            crate::classify::fo_views(fopts@),
                            cls.roles@,
                            match eff@.vis {
                                Some(v) => v,
                                None => *container_vis,
                            },
                            #[trigger] ct.fields@[p],
                            data_idxs(cls.roles@, cls.roles@.len() as int)[p],
                        ))
                    &&& ct.delim == (if ct.fields@.len() == 0 && eff@.unit != Some(false) {
                        Delim::NoDelim
                    } else {
                        node_delim
                    })
                    &&& ct.selected@.map_values(|u: usize| u as int) == sel_nonconst(
                        *table,
                        table.facts@.len() as int,
                    )
                    &&& ct.selected_const@.map_values(|u: usize| u as int) == sel_const(
                        *table,
                        table.facts@.len() as int,
                    )
                    &&& ct.gen_defaults == !has_const_param(*table)
                },
            }
        }),
{
    let ghost fo = crate::classify::fo_views(fopts@);
    // Resolve the name.
    let mut name = String::new();
    match eff.rename {
        Some(rn) => {
            name.append(rn.as_str());
        },
        None => {
            match eff.prefix {
                Some(p) => {
                    name.append(p.as_str());
                },
                None => {},
            }
            name.append(node_name.as_str());
            match &eff.suffix {
                Some(crate::options::FlagOrIdent::Ident(s)) => {
                    name.append(s.as_str());
                },
                Some(crate::options::FlagOrIdent::Flag(b)) => {
                    if *b {
                        name.append("Context");
                    }
                },
                None => {
                    if eff.prefix.is_none() && !has_module {
                        name.append("Context");
                    }
                },
            }
        },
    }
    proof {
        assert(name@ =~= ctx_name_spec(node_name@, eff@, has_module));
    }
    if !has_module && str_eq(&name, container_name) {
        return Err(SynthError::NameCollision);
    }
    // Resolve the visibility.
    let ctx_vis: &'a Vis = match eff.vis {
        Some(v) => v,
        None => container_vis,
    };
    // Copy the pass-through attributes.
    let mut attrs: Vec<&'a String> = Vec::new();
    let mut a: usize = 0;
    while a < eff.attrs.len()
        invariant
            a <= eff.attrs@.len(),
            attrs@ == eff.attrs@.take(a as int),
        decreases eff.attrs@.len() - a,
    {
        attrs.push(eff.attrs[a]);
        proof {
            assert(attrs@ =~= eff.attrs@.take(a + 1 as int));
        }
        a = a + 1;
    }
    proof {
        assert(eff.attrs@.take(eff.attrs@.len() as int) =~= eff.attrs@);
        assert(attrs@.map_values(|s: &String| s@) =~= eff@.attrs);
    }
    // Assemble the data fields.
    let n = fields.len();
    let mut ctx_fields: Vec<CtxField<'a>> = Vec::new();
    let mut i: usize = 0;
    while i < n
        invariant
            n == fields@.len(),
            cls.roles@.len() == n,
            fopts@.len() == n,
            fo == crate::classify::fo_views(fopts@),
            *ctx_vis == (match eff@.vis {
                Some(v) => v,
                None => *container_vis,
            }),
            i <= n,
            ctx_fields@.len() == data_idxs(cls.roles@, i as int).len(),
            forall|p: int|
                0 <= p < ctx_fields@.len() ==> ctx_field_ok(
                    fields@,
                    fo,
                    cls.roles@,
                    match eff@.vis {
                        Some(v) => v,
                        None => *container_vis,
                    },
                    #[trigger] ctx_fields@[p],
                    data_idxs(cls.roles@, i as int)[p],
                ),
        decreases n - i,
    {
        proof {
            assert(fo[i as int] == fopts@[i as int]@);
        }
        match &cls.roles[i] {
            FieldRole::RData { gen } => {
                let fvis: &'a Vis = match fopts[i].vis {
                    Some(v) => v,
                    None => ctx_vis,
                };
                let mut fattrs: Vec<&'a String> = Vec::new();
                let mut b: usize = 0;
                while b < fopts[i].attrs.len()
                    invariant
                        i < fopts@.len(),
                        b <= fopts@[i as int].attrs@.len(),
                        fattrs@ == fopts@[i as int].attrs@.take(b as int),
                    decreases fopts@[i as int].attrs@.len() - b,
                {
                    fattrs.push(fopts[i].attrs[b]);
                    proof {
                        assert(fattrs@ =~= fopts@[i as int].attrs@.take(b + 1 as int));
                    }
                    b = b + 1;
                }
                proof {
                    assert(fopts@[i as int].attrs@.take(fopts@[i as int].attrs@.len() as int)
                        =~= fopts@[i as int].attrs@);
                    assert(fattrs@.map_values(|s: &String| s@) =~= fopts@[i as int]@.attrs);
                }
                let fty: CtxFieldTy<'a> = match gen {
                    Some(gi) => CtxFieldTy::CGen {
                        gname: gi.gname.clone(),
                        orig_ty: &fields[i].ty,
                        inner: gi.unwrap_inner,
                    },
                    None => CtxFieldTy::COrig(&fields[i].ty),
                };
                let fname: Option<&'a String> = match &fields[i].name {
                    Some(nm) => Some(nm),
                    None => None,
                };
                ctx_fields.push(
                    CtxField { name: fname, vis: fvis, attrs: fattrs, orig_index: i, ty: fty },
                );
                proof {
                    assert(data_idxs(cls.roles@, i + 1 as int) =~= data_idxs(
                        cls.roles@,
                        i as int,
                    ).push(i as int));
                    let cf = ctx_fields@[ctx_fields@.len() - 1];
                    assert(cf.orig_index == i as int);
                    assert(match cf.name {
                        Some(nm) => fields@[i as int].name matches Some(nm2) && nm@ == nm2@,
                        None => fields@[i as int].name is None,
                    });
                    assert(match fo[i as int].vis {
                        Some(v) => *cf.vis == v,
                        None => *cf.vis == (match eff@.vis {
                            Some(v) => v,
                            None => *container_vis,
                        }),
                    });
                    assert(cf.attrs@.map_values(|s: &String| s@) == fo[i as int].attrs);
                    assert(match cls.roles@[i as int]->RData_gen {
                        Some(gi) => {
                            &&& cf.ty matches CtxFieldTy::CGen { gname, orig_ty, inner }
                            &&& gname@ == gi.gname@
                            &&& *orig_ty == fields@[i as int].ty
                            &&& (match (inner, gi.unwrap_inner) {
                                (Some(x), Some(y)) => *x == *y,
                                (None, None) => true,
                                _ => false,
                            })
                        },
                        None => cf.ty matches CtxFieldTy::COrig(t) && *t == fields@[i as int].ty,
                    });
                    assert(ctx_field_ok(
                        fields@,
                        fo,
                        cls.roles@,
                        match eff@.vis {
                            Some(v) => v,
                            None => *container_vis,
                        },
                        cf,
                        i as int,
                    ));
                }
            },
            _ => {
                proof {
                    assert(data_idxs(cls.roles@, i + 1 as int) =~= data_idxs(
                        cls.roles@,
                        i as int,
                    ));
                }
            },
        }
        i = i + 1;
    }
    // Decide the delimiter shape.
    let keep_delims = match eff.unit {
        Some(b) => !b,
        None => false,
    };
    let delim = if ctx_fields.len() == 0 && !keep_delims {
        Delim::NoDelim
    } else {
        node_delim
    };
    // Collect the selected generics, const parameters last.
    let m = table.facts.len();
    let mut selected: Vec<usize> = Vec::new();
    let mut selected_const: Vec<usize> = Vec::new();
    let mut gen_defaults = true;
    let mut k: usize = 0;
    while k < m
        invariant
            m == table.facts@.len(),
            table.selected@.len() == m,
            k <= m,
            selected@.map_values(|u: usize| u as int) == sel_nonconst(*table, k as int),
            selected_const@.map_values(|u: usize| u as int) == sel_const(*table, k as int),
            gen_defaults == !(exists|x: int|
                0 <= x < k && (#[trigger] table.facts@[x]).kind is KConst),
        decreases m - k,
    {
        let is_const = match table.facts[k].kind {
            crate::ast::GpKind::KConst(_) => true,
            _ => false,
        };
        if is_const {
            gen_defaults = false;
        }
        if table.selected[k] {
            if is_const {
                selected_const.push(k);
            } else {
                selected.push(k);
            }
        }
        proof {
            assert(selected@.map_values(|u: usize| u as int) =~= sel_nonconst(
                *table,
                k + 1 as int,
            ));
            assert(selected_const@.map_values(|u: usize| u as int) =~= sel_const(
                *table,
                k + 1 as int,
            ));
        }
        k = k + 1;
    }
    Ok(
        ContextType {
            name,
            vis: ctx_vis,
            attrs,
            delim,
            fields: ctx_fields,
            selected,
            selected_const,
            gen_defaults,
        },
    )
}

} // verus!
