//! Name-based inference for standard library wrapper types.
//!
//! Deciding whether a field should receive a synthesized generic, and
//! whether an optional-shaped field is unwrapped to its payload type, goes
//! by the type's written name: a bare identifier, or a path whose first
//! segment is `std`, `core` or `alloc`, counts as a potential standard
//! type.  This is a deliberate, documented allowlist, not type resolution:
//! a user alias spelled differently is not recognized, and a wrong middle
//! path such as `std::wrong::path::Arc` still matches by name.

use vstd::prelude::*;

use crate::ast::str_eq;
use crate::ast::GArg;
use crate::ast::Ty;

verus! {

/// The inferred standard-type name of `t`: the identifier of its single
/// segment, or of its last segment under a `std`/`core`/`alloc` prefix.
pub open spec fn infer_std_spec(t: Ty) -> Option<Seq<char>> {
    match t {
        Ty::TPath { leading_colon, qself, segments } => {
            if qself is Some {
                None
            } else if segments.len() == 1 && !leading_colon {
                Some(segments[0].ident@)
            } else if segments.len() >= 2 && (segments[0].ident@ == "std"@ || segments[0].ident@
                == "core"@ || segments[0].ident@ == "alloc"@) {
                Some(segments[segments.len() - 1].ident@)
            } else {
                None
            }
        },
        _ => None,
    }
}

/// The generic arguments attached to the inferred segment.
pub open spec fn infer_std_args_spec(t: Ty) -> Seq<GArg> {
    match t {
        Ty::TPath { leading_colon, qself, segments } => {
            if segments.len() == 1 && !leading_colon {
                segments[0].args@
            } else {
                segments[segments.len() - 1].args@
            }
        },
        _ => Seq::empty(),
    }
}

/// Infers a potential standard-type name: the segment's identifier and its
/// generic arguments.
pub fn infer_std<'a>(t: &'a Ty) -> (r: Option<(&'a String, &'a Vec<GArg>)>)
    ensures
        match r {
            Some((name, args)) => infer_std_spec(*t) == Some(name@) && args@ == infer_std_args_spec(
                *t,
            ),
            None => infer_std_spec(*t) is None,
        },
{
    match t {
        Ty::TPath { leading_colon, qself, segments } => {
            if qself.is_some() {
                None
            } else if segments.len() == 1 && !*leading_colon {
                Some((&segments[0].ident, &segments[0].args))
            } else if segments.len() >= 2 && (str_eq(&segments[0].ident, &String::from_str("std"))
                || str_eq(&segments[0].ident, &String::from_str("core")) || str_eq(
                &segments[0].ident,
                &String::from_str("alloc"),
            )) {
                let last = &segments[segments.len() - 1];
                Some((&last.ident, &last.args))
            } else {
                None
            }
        },
        _ => None,
    }
}

/// True when the inferred name is one of the wrapper types whose values
/// commonly arrive through a conversion: these fields default to receiving
/// a synthesized generic.
pub open spec fn in_magic_whitelist_spec(t: Ty) -> bool {
    match infer_std_spec(t) {
        Some(name) => name == "String"@ || name == "PathBuf"@ || name == "Vec"@ || name == "Box"@
            || name == "Arc"@ || name == "OsString"@ || name == "CString"@ || name == "Rc"@,
        None => false,
    }
}

/// Decides membership in the wrapper-name allowlist.
pub fn is_in_magic_whitelist(t: &Ty) -> (r: bool)
    ensures
        r == in_magic_whitelist_spec(*t),
{
    match infer_std(t) {
        Some((name, _)) => {
            str_eq(name, &String::from_str("String")) || str_eq(
                name,
                &String::from_str("PathBuf"),
            ) || str_eq(name, &String::from_str("Vec")) || str_eq(name, &String::from_str("Box"))
                || str_eq(name, &String::from_str("Arc")) || str_eq(
                name,
                &String::from_str("OsString"),
            ) || str_eq(name, &String::from_str("CString")) || str_eq(
                name,
                &String::from_str("Rc"),
            )
        },
        None => false,
    }
}

/// The first generic argument of an optional-shaped type, when it is a
/// type argument.
pub open spec fn optional_inner_spec(t: Ty) -> Option<Ty> {
    if infer_std_spec(t) is Some {
        let args = infer_std_args_spec(t);
        if args.len() > 0 && args[0] is AType {
            Some(args[0]->AType_0)
        } else {
            None
        }
    } else {
        None
    }
}

/// Returns the first generic argument of an optional-shaped type.
pub fn get_optional_inner<'a>(t: &'a Ty) -> (r: Option<&'a Ty>)
    ensures
        match r {
            Some(inner) => optional_inner_spec(*t) == Some(*inner),
            None => optional_inner_spec(*t) is None,
        },
{
    match infer_std(t) {
        Some((_, args)) => {
            if args.len() > 0 {
                match &args[0] {
                    GArg::AType(inner) => Some(inner),
                    _ => None,
                }
            } else {
                None
            }
        },
        None => None,
    }
}

/// True when the field's written type is `Option`-shaped with a type
/// payload: the one wrapper the deferred-unwrap path recognizes.
pub open spec fn option_shaped_spec(t: Ty) -> bool {
    infer_std_spec(t) == Some("Option"@) && optional_inner_spec(t) is Some
}

/// Decides whether the type is `Option`-shaped with a type payload.
pub fn is_option_shaped(t: &Ty) -> (r: bool)
    ensures
        r == option_shaped_spec(*t),
{
    match infer_std(t) {
        Some((name, _)) => {
            if str_eq(name, &String::from_str("Option")) {
                get_optional_inner(t).is_some()
            } else {
                false
            }
        },
        None => false,
    }
}

} // verus!
