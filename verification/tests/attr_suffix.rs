#![allow(dead_code)]

use thisctx::ast::ContainerBody;
use thisctx::ast::ContainerDecl;
use thisctx::ast::Delim;
use thisctx::ast::FieldDecl;
use thisctx::ast::GArg;
use thisctx::ast::GenericParamDecl;
use thisctx::ast::GenericsDecl;
use thisctx::ast::GpKind;
use thisctx::ast::OptValue;
use thisctx::ast::PathSeg;
use thisctx::ast::RawKey;
use thisctx::ast::RawOpt;
use thisctx::ast::Ty;
use thisctx::ast::VariantDecl;
use thisctx::ast::Vis;
use thisctx::ast::Bound;
use thisctx::ast::WhereItem;
use thisctx::emit::eval_plan;
use thisctx::emit::ConvTarget;
use thisctx::emit::Val;
use thisctx::expand::expand;
use thisctx::expand::Expansion;
use thisctx::synth::CtxFieldTy;

fn s(x: &str) -> String {
    String::from(x)
}

fn seg(name: &str) -> PathSeg {
    PathSeg { ident: s(name), args: Vec::new() }
}

fn ty(name: &str) -> Ty {
    Ty::TPath { leading_colon: false, qself: None, segments: vec![seg(name)] }
}

fn ty_seg(segments: Vec<PathSeg>, leading_colon: bool) -> Ty {
    Ty::TPath { leading_colon, qself: None, segments }
}

fn ty_app(name: &str, args: Vec<GArg>) -> Ty {
    Ty::TPath { leading_colon: false, qself: None, segments: vec![PathSeg { ident: s(name), args }] }
}

fn ty_ref(lifetime: &str, elem: Ty) -> Ty {
    Ty::TRef { lifetime: Some(s(lifetime)), elem: Box::new(elem) }
}

fn flag(key: RawKey) -> RawOpt {
    RawOpt { key, value: OptValue::VNone }
}

fn kv_bool(key: RawKey, b: bool) -> RawOpt {
    RawOpt { key, value: OptValue::VBool(b) }
}

fn kv_ident(key: RawKey, v: &str) -> RawOpt {
    RawOpt { key, value: OptValue::VIdent(s(v)) }
}

fn kv_tokens(key: RawKey, v: &str) -> RawOpt {
    RawOpt { key, value: OptValue::VTokens(s(v)) }
}

fn kv_ty(key: RawKey, t: Ty) -> RawOpt {
    RawOpt { key, value: OptValue::VType(t) }
}

fn kv_vis(key: RawKey, v: Vis) -> RawOpt {
    RawOpt { key, value: OptValue::VVis(v) }
}

fn named_field(name: &str, t: Ty, attrs: Vec<RawOpt>) -> FieldDecl {
    FieldDecl { name: Some(s(name)), vis: Vis::Inherited, ty: t, attrs }
}

fn pos_field(t: Ty, attrs: Vec<RawOpt>) -> FieldDecl {
    FieldDecl { name: None, vis: Vis::Inherited, ty: t, attrs }
}

fn variant(name: &str, delim: Delim, fields: Vec<FieldDecl>, attrs: Vec<RawOpt>) -> VariantDecl {
    VariantDecl { name: s(name), delim, fields, attrs }
}

fn no_generics() -> GenericsDecl {
    GenericsDecl { params: Vec::new(), where_items: Vec::new() }
}

fn enum_decl(name: &str, attrs: Vec<RawOpt>, variants: Vec<VariantDecl>) -> ContainerDecl {
    ContainerDecl {
        name: s(name),
        vis: Vis::Inherited,
        generics: no_generics(),
        attrs,
        body: ContainerBody::EnumBody { variants },
    }
}

fn struct_decl(name: &str, attrs: Vec<RawOpt>, delim: Delim, fields: Vec<FieldDecl>) -> ContainerDecl {
    ContainerDecl {
        name: s(name),
        vis: Vis::Inherited,
        generics: no_generics(),
        attrs,
        body: ContainerBody::StructBody { delim, fields },
    }
}

fn expand_ok<'a>(d: &'a ContainerDecl) -> Expansion<'a> {
    match expand(d) {
        Ok(e) => e,
        Err(_) => panic!("expansion failed"),
    }
}

fn vstr(x: &str) -> Val<'static> {
    Val::VStr(s(x))
}

fn vint(x: i64) -> Val<'static> {
    Val::VInt(x)
}

fn vconv(v: Val) -> Val {
    Val::VConv(Box::new(v))
}

fn vsome(v: Val) -> Val {
    Val::VSome(Box::new(v))
}


#[test]
fn attr_suffix_attr_suffix() {
    let d = enum_decl(
        "Error",
        vec![flag(RawKey::KSuffix)],
        vec![
            variant("DefaultSuffix", Delim::NoDelim, vec![], vec![]),
            variant("NoSuffix", Delim::NoDelim, vec![], vec![flag(RawKey::KNoSuffix)]),
            variant("CustomSuffix", Delim::NoDelim, vec![], vec![kv_ident(RawKey::KSuffix, "Thisctx")]),
        ],
    );
    let e = expand_ok(&d);
    assert_eq!(e.items[0].ctx.name.as_str(), "DefaultSuffixContext");
    assert_eq!(e.items[1].ctx.name.as_str(), "NoSuffix");
    assert_eq!(e.items[2].ctx.name.as_str(), "CustomSuffixThisctx");
}
