#![allow(dead_code)]

use thisctx::ast::ContainerBody;
use thisctx::ast::ContainerDecl;
use thisctx::ast::Delim;
use thisctx::ast::FieldDecl;
use thisctx::ast::GArg;
use thisctx::ast::GenericParamDecl;
use thisctx::ast::GenericsDecl;
use thisctx::ast::GpKind;
use thisctx::ast::OptValue;
use thisctx::ast::PathSeg;
use thisctx::ast::RawKey;
use thisctx::ast::RawOpt;
use thisctx::ast::Ty;
use thisctx::ast::VariantDecl;
use thisctx::ast::Vis;
use thisctx::ast::Bound;
use thisctx::ast::WhereItem;
use thisctx::emit::eval_plan;
use thisctx::emit::ConvTarget;
use thisctx::emit::Val;
use thisctx::expand::expand;
use thisctx::expand::Expansion;
use thisctx::synth::CtxFieldTy;

fn s(x: &str) -> String {
    String::from(x)
}

fn seg(name: &str) -> PathSeg {
    PathSeg { ident: s(name), args: Vec::new() }
}

fn ty(name: &str) -> Ty {
    Ty::TPath { leading_colon: false, qself: None, segments: vec![seg(name)] }
}

fn ty_seg(segments: Vec<PathSeg>, leading_colon: bool) -> Ty {
    Ty::TPath { leading_colon, qself: None, segments }
}

fn ty_app(name: &str, args: Vec<GArg>) -> Ty {
    Ty::TPath { leading_colon: false, qself: None, segments: vec![PathSeg { ident: s(name), args }] }
}

fn ty_ref(lifetime: &str, elem: Ty) -> Ty {
    Ty::TRef { lifetime: Some(s(lifetime)), elem: Box::new(elem) }
}

fn flag(key: RawKey) -> RawOpt {
    RawOpt { key, value: OptValue::VNone }
}

fn kv_bool(key: RawKey, b: bool) -> RawOpt {
    RawOpt { key, value: OptValue::VBool(b) }
}

fn kv_ident(key: RawKey, v: &str) -> RawOpt {
    RawOpt { key, value: OptValue::VIdent(s(v)) }
}

fn kv_tokens(key: RawKey, v: &str) -> RawOpt {
    RawOpt { key, value: OptValue::VTokens(s(v)) }
}

fn kv_ty(key: RawKey, t: Ty) -> RawOpt {
    RawOpt { key, value: OptValue::VType(t) }
}

fn kv_vis(key: RawKey, v: Vis) -> RawOpt {
    RawOpt { key, value: OptValue::VVis(v) }
}

fn named_field(name: &str, t: Ty, attrs: Vec<RawOpt>) -> FieldDecl {
    FieldDecl { name: Some(s(name)), vis: Vis::Inherited, ty: t, attrs }
}

fn pos_field(t: Ty, attrs: Vec<RawOpt>) -> FieldDecl {
    FieldDecl { name: None, vis: Vis::Inherited, ty: t, attrs }
}

fn variant(name: &str, delim: Delim, fields: Vec<FieldDecl>, attrs: Vec<RawOpt>) -> VariantDecl {
    VariantDecl { name: s(name), delim, fields, attrs }
}

fn no_generics() -> GenericsDecl {
    GenericsDecl { params: Vec::new(), where_items: Vec::new() }
}

fn enum_decl(name: &str, attrs: Vec<RawOpt>, variants: Vec<VariantDecl>) -> ContainerDecl {
    ContainerDecl {
        name: s(name),
        vis: Vis::Inherited,
        generics: no_generics(),
        attrs,
        body: ContainerBody::EnumBody { variants },
    }
}

fn struct_decl(name: &str, attrs: Vec<RawOpt>, delim: Delim, fields: Vec<FieldDecl>) -> ContainerDecl {
    ContainerDecl {
        name: s(name),
        vis: Vis::Inherited,
        generics: no_generics(),
        attrs,
        body: ContainerBody::StructBody { delim, fields },
    }
}

fn expand_ok<'a>(d: &'a ContainerDecl) -> Expansion<'a> {
    match expand(d) {
        Ok(e) => e,
        Err(_) => panic!("expansion failed"),
    }
}

fn vstr(x: &str) -> Val<'static> {
    Val::VStr(s(x))
}

fn vint(x: i64) -> Val<'static> {
    Val::VInt(x)
}

fn vconv(v: Val) -> Val {
    Val::VConv(Box::new(v))
}

fn vsome(v: Val) -> Val {
    Val::VSome(Box::new(v))
}


use thisctx::classify::ClassifyError;
use thisctx::expand::ExpandError;
use thisctx::options::OptError;
use thisctx::synth::SynthError;

#[test]
fn duplicate_source_rejected() {
    // Two fields both explicitly marked as the source: classification
    // fails with a duplicate-source error at the second mark.
    let d = struct_decl(
        "Error",
        vec![],
        Delim::Paren,
        vec![
            pos_field(ty("String"), vec![flag(RawKey::KSource)]),
            pos_field(ty("String"), vec![flag(RawKey::KSource)]),
        ],
    );
    match expand(&d) {
        Err(ExpandError::Structure { variant: None, err: ClassifyError::DuplicateSource { at } }) => {
            assert_eq!(at, 1);
        },
        _ => panic!("expected a duplicate-source error"),
    }
}

#[test]
fn transparent_field_count_rejected() {
    let d = struct_decl(
        "Error",
        vec![flag(RawKey::KTransparent)],
        Delim::Paren,
        vec![pos_field(ty("String"), vec![]), pos_field(ty("String"), vec![])],
    );
    match expand(&d) {
        Err(ExpandError::Structure { err: ClassifyError::TransparentFieldCount { count }, .. }) => {
            assert_eq!(count, 2);
        },
        _ => panic!("expected a transparent-field-count error"),
    }
}

#[test]
fn from_field_count_rejected() {
    let d = struct_decl(
        "Error",
        vec![],
        Delim::Paren,
        vec![
            pos_field(ty("String"), vec![flag(RawKey::KFrom)]),
            pos_field(ty("String"), vec![]),
            pos_field(ty("String"), vec![]),
        ],
    );
    match expand(&d) {
        Err(ExpandError::Structure { err: ClassifyError::FromFieldCount { count }, .. }) => {
            assert_eq!(count, 3);
        },
        _ => panic!("expected a from-field-count error"),
    }
}

#[test]
fn optional_without_ident_rejected() {
    let d = struct_decl(
        "Error",
        vec![],
        Delim::Paren,
        vec![pos_field(ty_app("Option", vec![GArg::AType(ty("String"))]), vec![flag(RawKey::KOptional)])],
    );
    match expand(&d) {
        Err(ExpandError::Structure { err: ClassifyError::OptionalUnnamed { at }, .. }) => {
            assert_eq!(at, 0);
        },
        _ => panic!("expected an optional-unnamed error"),
    }
}

#[test]
fn union_rejected() {
    let d = ContainerDecl {
        name: s("Error"),
        vis: Vis::Inherited,
        generics: no_generics(),
        attrs: vec![],
        body: ContainerBody::UnionBody,
    };
    assert!(matches!(expand(&d), Err(ExpandError::UnionUnsupported)));
}

#[test]
fn unknown_key_rejected() {
    let d = struct_decl("Error", vec![flag(RawKey::KUnknown)], Delim::NoDelim, vec![]);
    match expand(&d) {
        Err(ExpandError::Grammar { variant: None, field: None, errs }) => {
            assert_eq!(errs, vec![OptError::UnknownKey { at: 0 }]);
        },
        _ => panic!("expected an unknown-key error"),
    }
}

#[test]
fn bad_value_rejected() {
    // A rename key requires an identifier payload.
    let d = struct_decl("Error", vec![kv_bool(RawKey::KRename, true)], Delim::NoDelim, vec![]);
    match expand(&d) {
        Err(ExpandError::Grammar { errs, .. }) => {
            assert_eq!(errs, vec![OptError::BadValue { at: 0 }]);
        },
        _ => panic!("expected a bad-value error"),
    }
}

#[test]
fn duplicate_key_rejected() {
    let d = struct_decl(
        "Error",
        vec![flag(RawKey::KSkip), flag(RawKey::KSkip)],
        Delim::NoDelim,
        vec![],
    );
    match expand(&d) {
        Err(ExpandError::Grammar { errs, .. }) => {
            assert_eq!(errs, vec![OptError::DuplicateKey { at: 1 }]);
        },
        _ => panic!("expected a duplicate-key error"),
    }
}

#[test]
fn conflicting_keys_rejected() {
    // A key and its negated form are mutually exclusive; so are a rename
    // and a suffix; the independent errors come back as one batch.
    let d = struct_decl(
        "Error",
        vec![
            flag(RawKey::KSkip),
            flag(RawKey::KNoSkip),
            kv_ident(RawKey::KRename, "A"),
            kv_ident(RawKey::KSuffix, "B"),
        ],
        Delim::NoDelim,
        vec![],
    );
    match expand(&d) {
        Err(ExpandError::Grammar { errs, .. }) => {
            assert_eq!(
                errs,
                vec![OptError::ConflictingKeys { at: 1 }, OptError::ConflictingKeys { at: 3 }],
            );
        },
        _ => panic!("expected conflicting-keys errors"),
    }
}

#[test]
fn misplaced_key_rejected() {
    // Module placement is a container-only key.
    let d = enum_decl(
        "Error",
        vec![],
        vec![variant("V", Delim::NoDelim, vec![], vec![kv_ident(RawKey::KModule, "m")])],
    );
    match expand(&d) {
        Err(ExpandError::Grammar { variant: Some(0), field: None, errs }) => {
            assert_eq!(errs, vec![OptError::MisplacedKey { at: 0 }]);
        },
        _ => panic!("expected a misplaced-key error"),
    }
}

#[test]
fn field_grammar_error_located() {
    let d = struct_decl(
        "Error",
        vec![],
        Delim::Paren,
        vec![
            pos_field(ty("String"), vec![]),
            pos_field(ty("String"), vec![kv_ident(RawKey::KModule, "m")]),
        ],
    );
    match expand(&d) {
        Err(ExpandError::Grammar { variant: None, field: Some(1), errs }) => {
            assert_eq!(errs, vec![OptError::MisplacedKey { at: 0 }]);
        },
        _ => panic!("expected a field-level grammar error"),
    }
}

#[test]
fn name_collision_rejected() {
    // With the suffix disabled and no module, the synthesized name would
    // spell the same as the container's.
    let d = struct_decl("Error", vec![flag(RawKey::KNoSuffix)], Delim::NoDelim, vec![]);
    match expand(&d) {
        Err(ExpandError::Naming { variant: None, err: SynthError::NameCollision }) => {},
        _ => panic!("expected a name collision"),
    }
    // A module makes the same spelling legal.
    let d2 = struct_decl(
        "Error",
        vec![flag(RawKey::KNoSuffix), kv_ident(RawKey::KModule, "m")],
        Delim::NoDelim,
        vec![],
    );
    let e2 = expand_ok(&d2);
    assert_eq!(e2.items[0].ctx.name.as_str(), "Error");
}
