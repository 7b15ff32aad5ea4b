//! The field classifier.
//!
//! Each field of a variant or struct gets a role: the source field (at
//! most one, supplying the error cause), a deferred optional field, or a
//! data field.  The source is chosen by priority: a transparent node
//! forces its sole field; an auto-conversion field implies it; an
//! explicitly marked field comes next; and a field literally named
//! `source` is used only when nothing was marked.  A data field becomes
//! generated — receiving a fresh generic parameter defaulting to its own
//! type — unless its type mentions a container generic or generation is
//! explicitly disabled; choosing also marks the mentioned container
//! generics as selected.

use vstd::prelude::*;

use crate::ast::dec_rep;
use crate::ast::push_decimal;
use crate::ast::str_eq;
use crate::ast::FieldDecl;
use crate::ast::Ty;
use crate::generics::ty_uses;
use crate::generics::GenericTable;
use crate::infer::get_optional_inner;
use crate::infer::is_option_shaped;
use crate::infer::option_shaped_spec;
use crate::infer::optional_inner_spec;
use crate::options::Options;
use crate::options::OptionsSpec;

verus! {

/// A structural classification error.
#[derive(Clone, Copy, PartialEq, Eq, Structural)]
pub enum ClassifyError {
    /// A second field is explicitly marked as the source.
    DuplicateSource { at: usize },
    /// A second field is marked as the auto-conversion field.
    DuplicateFrom { at: usize },
    /// A deferred optional marker on a positional field without an
    /// explicit grouping identifier.
    OptionalUnnamed { at: usize },
    /// A transparent node whose field count is not one.
    TransparentFieldCount { count: usize },
    /// An auto-conversion field that does not leave exactly one field
    /// after the optional fields are taken out.
    FromFieldCount { count: usize },
}

/// A generated data field's synthesized generic: its fresh name, and the
/// wrapper payload type when the deferred-unwrap path applies.
pub struct GenInfo<'a> {
    pub gname: String,
    pub unwrap_inner: Option<&'a Ty>,
}

/// The role of one field.
pub enum FieldRole<'a> {
    /// The source field.
    RSource,
    /// A deferred optional field, grouped by this identifier.
    ROptional { ident: &'a String },
    /// A data field; `gen` carries its synthesized generic, or is `None`
    /// for an original-typed field.
    RData { gen: Option<GenInfo<'a>> },
}

/// The classifier's output: one role per field, and the chosen source and
/// auto-conversion indices.
pub struct Classified<'a> {
    pub roles: Vec<FieldRole<'a>>,
    pub source: Option<usize>,
    pub from: Option<usize>,
}

/// True when the field is literally named `source`.
pub open spec fn named_source(f: FieldDecl) -> bool {
    match f.name {
        Some(nm) => nm@ == "source"@,
        None => false,
    }
}

/// The first index in the first `n` fields whose options mark it as the
/// source.
pub open spec fn first_src(fo: Seq<OptionsSpec>, n: int) -> Option<int>
    decreases n,
{
    if n <= 0 {
        None
    } else if first_src(fo, n - 1) is Some {
        first_src(fo, n - 1)
    } else if fo[n - 1].source {
        Some(n - 1)
    } else {
        None
    }
}

/// The first index in the first `n` fields marked as the auto-conversion
/// field.
pub open spec fn first_from(fo: Seq<OptionsSpec>, n: int) -> Option<int>
    decreases n,
{
    if n <= 0 {
        None
    } else if first_from(fo, n - 1) is Some {
        first_from(fo, n - 1)
    } else if fo[n - 1].from {
        Some(n - 1)
    } else {
        None
    }
}

/// The last index in the first `n` fields literally named `source`.
pub open spec fn last_named_src(fields: Seq<FieldDecl>, n: int) -> Option<int>
    decreases n,
{
    if n <= 0 {
        None
    } else if named_source(fields[n - 1]) {
        Some(n - 1)
    } else {
        last_named_src(fields, n - 1)
    }
}

/// How many of the first `n` fields carry the optional marker.
pub open spec fn optional_cnt(fo: Seq<OptionsSpec>, n: int) -> int
    decreases n,
{
    if n <= 0 {
        0
    } else {
        optional_cnt(fo, n - 1) + if fo[n - 1].optional is Some {
            1int
        } else {
            0int
        }
    }
}

/// The first per-field error found scanning the first `n` fields in
/// order: a duplicate source mark, a duplicate auto-conversion mark, or
/// an optional marker without an identifier on a positional field.
pub open spec fn scan_err(fields: Seq<FieldDecl>, fo: Seq<OptionsSpec>, n: int) -> Option<
    ClassifyError,
>
    decreases n,
{
    if n <= 0 {
        None
    } else if scan_err(fields, fo, n - 1) is Some {
        scan_err(fields, fo, n - 1)
    } else {
        let i = n - 1;
        if fo[i].source && first_src(fo, i) is Some {
            Some(ClassifyError::DuplicateSource { at: i as usize })
        } else if fo[i].from && first_from(fo, i) is Some {
            Some(ClassifyError::DuplicateFrom { at: i as usize })
        } else if fo[i].optional matches Some(id) && id is None && fields[i].name is None {
            Some(ClassifyError::OptionalUnnamed { at: i as usize })
        } else {
            None
        }
    }
}

/// The error classification stops on, if any: the first per-field error,
/// else the transparent field-count check, else the auto-conversion
/// field-count check.
pub open spec fn classify_err(
    fields: Seq<FieldDecl>,
    fo: Seq<OptionsSpec>,
    transparent: bool,
) -> Option<ClassifyError> {
    let n = fields.len() as int;
    if scan_err(fields, fo, n) is Some {
        scan_err(fields, fo, n)
    } else if transparent {
        if n != 1 {
            Some(ClassifyError::TransparentFieldCount { count: n as usize })
        } else {
            None
        }
    } else if first_from(fo, n) is Some {
        if n - optional_cnt(fo, n) != 1 {
            Some(ClassifyError::FromFieldCount { count: (n - optional_cnt(fo, n)) as usize })
        } else {
            None
        }
    } else {
        None
    }
}

/// The source field the priority rule chooses: the sole field of a
/// transparent node; else the auto-conversion field; else the first
/// explicitly marked field; else the last field literally named `source`.
pub open spec fn chosen_source(
    fields: Seq<FieldDecl>,
    fo: Seq<OptionsSpec>,
    transparent: bool,
) -> Option<int> {
    let n = fields.len() as int;
    if transparent {
        Some(0)
    } else if first_from(fo, n) is Some {
        first_from(fo, n)
    } else if first_src(fo, n) is Some {
        first_src(fo, n)
    } else {
        last_named_src(fields, n)
    }
}

/// True when field `i` is a data field: neither the chosen source nor a
/// deferred optional field.
pub open spec fn is_data_field(
    fields: Seq<FieldDecl>,
    fo: Seq<OptionsSpec>,
    transparent: bool,
    i: int,
) -> bool {
    &&& chosen_source(fields, fo, transparent) != Some(i)
    &&& fo[i].optional is None
}

/// True when some data field among the first `j` mentions container
/// generic `k` in its type.
pub open spec fn data_uses_upto(
    fields: Seq<FieldDecl>,
    fo: Seq<OptionsSpec>,
    transparent: bool,
    table0: GenericTable,
    k: int,
    j: int,
) -> bool
    decreases j,
{
    if j <= 0 {
        false
    } else {
        data_uses_upto(fields, fo, transparent, table0, k, j - 1) || (is_data_field(
            fields,
            fo,
            transparent,
            j - 1,
        ) && ty_uses(
            fields[j - 1].ty,
            table0.facts[k].name@,
            table0.facts[k].kind is KLifetime,
        ))
    }
}

proof fn lemma_data_uses_equiv(
    fields: Seq<FieldDecl>,
    fo: Seq<OptionsSpec>,
    transparent: bool,
    table0: GenericTable,
    k: int,
    j: int,
)
    requires
        j >= 0,
    ensures
        data_uses_upto(fields, fo, transparent, table0, k, j) == (exists|i: int|
            0 <= i < j && is_data_field(fields, fo, transparent, i) && ty_uses(
                fields[i].ty,
                table0.facts[k].name@,
                table0.facts[k].kind is KLifetime,
            )),
    decreases j,
{
    if j > 0 {
        lemma_data_uses_equiv(fields, fo, transparent, table0, k, j - 1);
        if is_data_field(fields, fo, transparent, j - 1) && ty_uses(
            fields[j - 1].ty,
            table0.facts[k].name@,
            table0.facts[k].kind is KLifetime,
        ) {
            assert(data_uses_upto(fields, fo, transparent, table0, k, j));
        }
    }
}

/// True when data field `i` is generated: its type mentions no container
/// generic, and generation is not explicitly disabled.
pub open spec fn is_generated(
    fields: Seq<FieldDecl>,
    fo: Seq<OptionsSpec>,
    table: GenericTable,
    i: int,
) -> bool {
    &&& !(exists|k: int|
        0 <= k < table.facts.len() && ty_uses(
            fields[i].ty,
            (#[trigger] table.facts[k]).name@,
            table.facts[k].kind is KLifetime,
        ))
    &&& fo[i].generic != Some(false)
}

/// The fresh generic name of generated field `i`: a reserved prefix
/// followed by the field's name, or its index for a positional field.
pub open spec fn gen_name(fields: Seq<FieldDecl>, i: int) -> Seq<char> {
    match fields[i].name {
        Some(nm) => "__T"@ + nm@,
        None => "__T"@ + dec_rep(i as nat),
    }
}

/// The wrapper payload of generated field `i`, when the deferred-unwrap
/// path applies: the unwrap key is not disabled and the written type is
/// `Option`-shaped.
pub open spec fn unwrap_inner_of(fields: Seq<FieldDecl>, fo: Seq<OptionsSpec>, i: int) -> Option<
    Ty,
> {
    if fo[i].unwrap != Some(false) && option_shaped_spec(fields[i].ty) {
        optional_inner_spec(fields[i].ty)
    } else {
        None
    }
}

/// The grouping identifier of optional field `i`: the explicit one, else
/// the field's own name.
pub open spec fn optional_ident_of(fields: Seq<FieldDecl>, fo: Seq<OptionsSpec>, i: int) -> Seq<
    char,
> {
    match fo[i].optional {
        Some(Some(id)) => id,
        _ => fields[i].name->0@,
    }
}

/// True when the role assigned to field `i` is the one the rules call
/// for.
pub open spec fn role_ok(
    fields: Seq<FieldDecl>,
    fo: Seq<OptionsSpec>,
    transparent: bool,
    table: GenericTable,
    role: FieldRole,
    i: int,
) -> bool {
    if chosen_source(fields, fo, transparent) == Some(i) {
        role is RSource
    } else if fo[i].optional is Some {
        &&& role matches FieldRole::ROptional { ident }
        &&& ident@ == optional_ident_of(fields, fo, i)
    } else {
        &&& role matches FieldRole::RData { gen }
        &&& (gen is Some <==> is_generated(fields, fo, table, i))
        &&& (gen matches Some(gi) ==> {
            &&& gi.gname@ == gen_name(fields, i)
            &&& (match gi.unwrap_inner {
                Some(t) => unwrap_inner_of(fields, fo, i) == Some(*t),
                None => unwrap_inner_of(fields, fo, i) is None,
            })
        })
    }
}

/// The view of a per-field options list.
pub open spec fn fo_views<'a>(fopts: Seq<Options<'a>>) -> Seq<OptionsSpec> {
    fopts.map_values(|o: Options<'a>| o@)
}

proof fn lemma_scan_err_persists(
    fields: Seq<FieldDecl>,
    fo: Seq<OptionsSpec>,
    n: int,
    m: int,
)
    requires
        0 <= n <= m,
        scan_err(fields, fo, n) is Some,
    ensures
        scan_err(fields, fo, m) == scan_err(fields, fo, n),
    decreases m - n,
{
    if n < m {
        lemma_scan_err_persists(fields, fo, n, m - 1);
    }
}

/// Source-selection priority.  On a non-transparent node without an
/// auto-conversion field, a field explicitly marked as the source is
/// chosen over any field literally named `source`, whatever their order;
/// only when no field is marked does the name-matched field win.  A
/// transparent node always chooses its first field, and fails
/// classification outright unless it has exactly one field.
pub proof fn lemma_source_selection_priority(
    fields: Seq<FieldDecl>,
    fo: Seq<OptionsSpec>,
    transparent: bool,
)
    ensures
        (!transparent && first_from(fo, fields.len() as int) is None && first_src(
            fo,
            fields.len() as int,
        ) is Some) ==> chosen_source(fields, fo, transparent) == first_src(
            fo,
            fields.len() as int,
        ),
        (!transparent && first_from(fo, fields.len() as int) is None && first_src(
            fo,
            fields.len() as int,
        ) is None) ==> chosen_source(fields, fo, transparent) == last_named_src(
            fields,
            fields.len() as int,
        ),
        transparent ==> chosen_source(fields, fo, transparent) == Some(0int),
        (transparent && fields.len() != 1 && scan_err(fields, fo, fields.len() as int) is None)
            ==> classify_err(fields, fo, transparent) == Some(
            ClassifyError::TransparentFieldCount { count: fields.len() as usize },
        ),
{
}

/// Classifies the fields of one variant or struct.  `fopts` holds each
/// field's effective options; `transparent` is the node's effective
/// transparency; `table` is the container's generic table, whose selected
/// flags afterwards also cover every data field's type.
#[verifier::rlimit(60)]
pub fn classify<'a>(
    fields: &'a Vec<FieldDecl>,
    fopts: &Vec<Options<'a>>,
    transparent: bool,
    table: &mut GenericTable<'a>,
) -> (r: Result<Classified<'a>, ClassifyError>)
    requires
        fopts@.len() == fields@.len(),
        old(table).facts@.len() == old(table).selected@.len(),
    ensures
        final(table).facts == old(table).facts,
        final(table).extra == old(table).extra,
        final(table).selected@.len() == old(table).selected@.len(),
        ({
            let fo = fo_views(fopts@);
            match r {
                Err(e) => {
                    &&& classify_err(fields@, fo, transparent) == Some(e)
                    &&& final(table).selected == old(table).selected
                },
                Ok(c) => {
                    &&& classify_err(fields@, fo, transparent) is None
                    &&& c.roles@.len() == fields@.len()
                    &&& (match c.source {
                        Some(s) => s < fields@.len() && chosen_source(fields@, fo, transparent)
                            == Some(s as int),
                        None => chosen_source(fields@, fo, transparent) is None,
                    })
                    &&& (match c.from {
                        Some(s) => s < fields@.len() && first_from(fo, fields@.len() as int)
                            == Some(s as int),
                        None => first_from(fo, fields@.len() as int) is None,
                    })
                    &&& (forall|i: int|
                        0 <= i < fields@.len() ==> role_ok(
                            fields@,
                            fo,
                            transparent,
                            *old(table),
                            #[trigger] c.roles@[i],
                            i,
                        ))
                    &&& (forall|k: int|
                        0 <= k < old(table).selected@.len()
                            ==> #[trigger] final(table).selected@[k] == (
                        old(table).selected@[k] || exists|i: int|
                            0 <= i < fields@.len() && is_data_field(fields@, fo, transparent, i)
                                && ty_uses(
                                fields@[i].ty,
                                old(table).facts@[k].name@,
                                old(table).facts@[k].kind is KLifetime,
                            )))
                },
            }
        }),
{
    let ghost fo = fo_views(fopts@);
    let n = fields.len();
    let mut src_seen: Option<usize> = None;
    let mut from_seen: Option<usize> = None;
    let mut named_src: Option<usize> = None;
    let mut opt_cnt: usize = 0;
    let mut i: usize = 0;
    while i < n
        invariant
            fopts@.len() == fields@.len(),
            fo == fo_views(fopts@),
            n == fields@.len(),
            i <= n,
            scan_err(fields@, fo, i as int) is None,
            (match src_seen {
                Some(s) => s < i && first_src(fo, i as int) == Some(s as int),
                None => first_src(fo, i as int) is None,
            }),
            (match from_seen {
                Some(s) => s < i && first_from(fo, i as int) == Some(s as int),
                None => first_from(fo, i as int) is None,
            }),
            (match named_src {
                Some(s) => s < i && last_named_src(fields@, i as int) == Some(s as int),
                None => last_named_src(fields@, i as int) is None,
            }),
            opt_cnt as int == optional_cnt(fo, i as int),
            opt_cnt <= i,
        decreases n - i,
    {
        proof {
            assert(fo[i as int] == fopts@[i as int]@);
        }
        let o = &fopts[i];
        if o.source {
            if src_seen.is_some() {
                proof {
                    assert(scan_err(fields@, fo, i + 1 as int) == Some(
                        ClassifyError::DuplicateSource { at: i },
                    ));
                    lemma_scan_err_persists(fields@, fo, i + 1 as int, fields@.len() as int);
                }
                return Err(ClassifyError::DuplicateSource { at: i });
            }
            src_seen = Some(i);
        }
        if o.from {
            if from_seen.is_some() {
                proof {
                    assert(scan_err(fields@, fo, i + 1 as int) == Some(
                        ClassifyError::DuplicateFrom { at: i },
                    ));
                    lemma_scan_err_persists(fields@, fo, i + 1 as int, fields@.len() as int);
                }
                return Err(ClassifyError::DuplicateFrom { at: i });
            }
            from_seen = Some(i);
        }
        match &o.optional {
            Some(id) => {
                if id.is_none() && fields[i].name.is_none() {
                    proof {
                        assert(scan_err(fields@, fo, i + 1 as int) == Some(
                            ClassifyError::OptionalUnnamed { at: i },
                        ));
                        lemma_scan_err_persists(fields@, fo, i + 1 as int, fields@.len() as int);
                    }
                    return Err(ClassifyError::OptionalUnnamed { at: i });
                }
                opt_cnt = opt_cnt + 1;
            },
            None => {},
        }
        match &fields[i].name {
            Some(nm) => {
                if str_eq(nm, &String::from_str("source")) {
                    named_src = Some(i);
                }
            },
            None => {},
        }
        i = i + 1;
    }
    if transparent {
        if n != 1 {
            return Err(ClassifyError::TransparentFieldCount { count: n });
        }
    } else if from_seen.is_some() {
        if n - opt_cnt != 1 {
            return Err(ClassifyError::FromFieldCount { count: n - opt_cnt });
        }
    }
    let source: Option<usize> = if transparent {
        Some(0)
    } else if from_seen.is_some() {
        from_seen
    } else if src_seen.is_some() {
        src_seen
    } else {
        named_src
    };
    let ghost table0 = *table;
    let mut roles: Vec<FieldRole<'a>> = Vec::new();
    let mut j: usize = 0;
    while j < n
        invariant
            fopts@.len() == fields@.len(),
            fo == fo_views(fopts@),
            n == fields@.len(),
            j <= n,
            table0.facts@.len() == table0.selected@.len(),
            table.facts == table0.facts,
            table.extra == table0.extra,
            table.selected@.len() == table0.selected@.len(),
            (match source {
                Some(s) => s < n && chosen_source(fields@, fo, transparent) == Some(s as int),
                None => chosen_source(fields@, fo, transparent) is None,
            }),
            (match from_seen {
                Some(s) => s < n && first_from(fo, fields@.len() as int) == Some(s as int),
                None => first_from(fo, fields@.len() as int) is None,
            }),
            roles@.len() == j,
            forall|x: int|
                0 <= x < j ==> role_ok(
                    fields@,
                    fo,
                    transparent,
                    table0,
                    #[trigger] roles@[x],
                    x,
                ),
            scan_err(fields@, fo, fields@.len() as int) is None,
            forall|k: int|
                0 <= k < table0.selected@.len() ==> #[trigger] table.selected@[k] == (
                table0.selected@[k] || data_uses_upto(
                    fields@,
                    fo,
                    transparent,
                    table0,
                    k,
                    j as int,
                )),
        decreases n - j,
    {
        proof {
            assert(fo[j as int] == fopts@[j as int]@);
        }
        let is_src = match source {
            Some(s) => s == j,
            None => false,
        };
        if is_src {
            roles.push(FieldRole::RSource);
        } else {
            let o = &fopts[j];
            match &o.optional {
                Some(id) => {
                    match id {
                        Some(explicit) => {
                            roles.push(FieldRole::ROptional { ident: explicit });
                        },
                        None => {
                            match &fields[j].name {
                                Some(nm) => {
                                    roles.push(FieldRole::ROptional { ident: nm });
                                },
                                None => {
                                    proof {
                                        if scan_err(fields@, fo, j as int) is Some {
                                            lemma_scan_err_persists(
                                                fields@,
                                                fo,
                                                j as int,
                                                fields@.len() as int,
                                            );
                                        }
                                        assert(scan_err(fields@, fo, j as int) is None);
                                        assert(scan_err(fields@, fo, j + 1 as int) is Some);
                                        lemma_scan_err_persists(
                                            fields@,
                                            fo,
                                            j + 1 as int,
                                            fields@.len() as int,
                                        );
                                        assert(false);
                                    }
                                },
                            }
                        },
                    }
                },
                None => {
                    let used = table.select_uses(&fields[j].ty);
                    let disabled = match o.generic {
                        Some(b) => !b,
                        None => false,
                    };
                    if !used && !disabled {
                        let mut gname = String::from_str("__T");
                        match &fields[j].name {
                            Some(nm) => {
                                gname.append(nm.as_str());
                            },
                            None => {
                                push_decimal(&mut gname, j);
                            },
                        }
                        let unwrap_disabled = match o.unwrap {
                            Some(b) => !b,
                            None => false,
                        };
                        let unwrap_inner: Option<&'a Ty> = if !unwrap_disabled && is_option_shaped(
                            &fields[j].ty,
                        ) {
                            get_optional_inner(&fields[j].ty)
                        } else {
                            None
                        };
                        roles.push(
                            FieldRole::RData { gen: Some(GenInfo { gname, unwrap_inner }) },
                        );
                    } else {
                        roles.push(FieldRole::RData { gen: None });
                    }
                },
            }
        }
        proof {
            assert forall|k: int| 0 <= k < table0.selected@.len() implies #[trigger] table
                .selected@[k] == (table0.selected@[k] || data_uses_upto(
                fields@,
                fo,
                transparent,
                table0,
                k,
                j + 1 as int,
            )) by {
                assert(data_uses_upto(fields@, fo, transparent, table0, k, j + 1 as int)
                    == (data_uses_upto(fields@, fo, transparent, table0, k, j as int)
                    || (is_data_field(fields@, fo, transparent, j as int) && ty_uses(
                    fields@[j as int].ty,
                    table0.facts@[k].name@,
                    table0.facts@[k].kind is KLifetime,
                ))));
            }
        }
        j = j + 1;
    }
    proof {
        assert forall|k: int| 0 <= k < table0.selected@.len() implies #[trigger] table
            .selected@[k] == (table0.selected@[k] || exists|x: int|
            0 <= x < fields@.len() && is_data_field(fields@, fo, transparent, x) && ty_uses(
                fields@[x].ty,
                table0.facts@[k].name@,
                table0.facts@[k].kind is KLifetime,
            )) by {
            lemma_data_uses_equiv(fields@, fo, transparent, table0, k, fields@.len() as int);
        }
    }
    Ok(Classified { roles, source, from: from_seen })
}

} // verus!
