//! The declaration model the expansion engine works on.
//!
//! The host language's parser hands the engine a fully parsed declaration:
//! the container's name, visibility and generic parameters, its variants and
//! fields, and the raw directive list attached to each node.  Everything is
//! held as plain values; a declared field type is kept structurally, so that
//! occurrences of the container's generic parameters can be found by
//! traversal, while anything the engine never looks into stays an opaque
//! string of tokens.  The engine's outputs borrow from the declaration
//! instead of copying it.

use vstd::prelude::*;

verus! {

/// A visibility specifier.
#[derive(Debug, PartialEq)]
pub enum Vis {
    /// No explicit visibility: private, or inherited from the parent.
    Inherited,
    /// `pub`.
    Public,
    /// `pub(crate)`.
    Crate,
    /// `pub(...)` with any other restriction path, kept verbatim.
    Restricted(String),
}

/// The delimiter shape of a field list.
#[derive(Clone, Copy, PartialEq, Eq, Structural, Debug)]
pub enum Delim {
    /// Named fields in braces.
    Brace,
    /// Positional fields in parentheses.
    Paren,
    /// No fields and no delimiter: a unit shape.
    NoDelim,
}

/// A path segment of a declared type: an identifier together with its
/// generic arguments, as in the two segments of `vec::Vec<String>`.
#[derive(Debug, PartialEq)]
pub struct PathSeg {
    pub ident: String,
    pub args: Vec<GArg>,
}

/// One generic argument inside a path segment's angle brackets.
#[derive(Debug, PartialEq)]
pub enum GArg {
    /// A lifetime argument.
    ALifetime(String),
    /// A type argument.
    AType(Ty),
    /// A const argument; `Some` when it is a bare identifier path, `None`
    /// for any other const expression (which the analysis looks through).
    AConst(Option<String>),
    /// An associated-type binding, as in `Iterator<Item = T>`.
    AssocTy(String, Ty),
}

/// A trait or lifetime bound.
#[derive(Debug, PartialEq)]
pub enum Bound {
    /// A trait bound; the payload is path-shaped.
    BTrait(Ty),
    /// A lifetime bound.
    BLifetime(String),
}

/// A declared type, kept structurally.
#[derive(Debug, PartialEq)]
pub enum Ty {
    /// A path such as `T`, `String`, `std::sync::Arc<str>`, possibly with a
    /// qualified self type.
    TPath { leading_colon: bool, qself: Option<Box<Ty>>, segments: Vec<PathSeg> },
    /// A reference `&'a T`.
    TRef { lifetime: Option<String>, elem: Box<Ty> },
    /// A raw pointer `*const T` or `*mut T`.
    TPtr(Box<Ty>),
    /// A slice `[T]`.
    TSlice(Box<Ty>),
    /// An array `[T; N]`; the length is kept only when it is a bare
    /// identifier path, which is what a const generic looks like.
    TArray { elem: Box<Ty>, len: Option<String> },
    /// A tuple `(T, U)`.
    TTuple(Vec<Ty>),
    /// A bare function pointer `fn(T) -> U`.
    TBareFn { inputs: Vec<Ty>, output: Option<Box<Ty>> },
    /// A trait object `dyn Trait + 'a`.
    TTraitObject(Vec<Bound>),
    /// An `impl Trait` type.
    TImplTrait(Vec<Bound>),
    /// Any other type, kept verbatim and never looked into.
    TOpaque(String),
}

/// The kind of one of the container's generic parameters.
pub enum GpKind {
    KLifetime,
    KType,
    /// A const parameter carries its value type.
    KConst(Ty),
}

/// One declared generic parameter with the bounds written at its
/// declaration site.
pub struct GenericParamDecl {
    pub name: String,
    pub kind: GpKind,
    pub bounds: Vec<Bound>,
}

/// One item of the container's where clause.
pub enum WhereItem {
    /// `T: Bound + ...` with an arbitrary bounded type.
    TypePred { subject: Ty, preds: Vec<Bound> },
    /// `'a: 'b + ...`.
    LifetimePred { subject: String, lifetimes: Vec<String> },
}

/// The container's generic parameter list and where clause.
pub struct GenericsDecl {
    pub params: Vec<GenericParamDecl>,
    pub where_items: Vec<WhereItem>,
}

/// One raw directive taken from an annotation, already split into a key
/// and a decoded value by the host-side tokenizer.
pub struct RawOpt {
    pub key: RawKey,
    pub value: OptValue,
}

/// The spelling of a directive key.  The tokenizer recognizes exactly these
/// spellings; anything else arrives as `KUnknown` and is rejected by the
/// grammar with an unrecognized-key error.
#[derive(Clone, Copy, PartialEq, Eq, Structural)]
pub enum RawKey {
    KAttr,
    KAttribute,
    KCfg,
    KCfgAttr,
    KContext,
    KDerive,
    KDoc,
    KFrom,
    KGeneric,
    KNoGeneric,
    KInto,
    KMagic,
    KModule,
    KNoModule,
    KOptional,
    KPrefix,
    KRemote,
    KRename,
    KSkip,
    KNoSkip,
    KSource,
    KSuffix,
    KNoSuffix,
    KTransparent,
    KUnit,
    KNoUnit,
    KUnwrap,
    KNoUnwrap,
    KVis,
    KVisibility,
    KPubShorthand,
    KUnknown,
}

/// The decoded value attached to a directive key.
pub enum OptValue {
    /// The key stood alone.
    VNone,
    /// A boolean literal value.
    VBool(bool),
    /// An identifier value.
    VIdent(String),
    /// A visibility value.
    VVis(Vis),
    /// An opaque token payload, as in an `attr(...)` directive.
    VTokens(String),
    /// A type value, as in an `into(...)` directive.
    VType(Ty),
}

/// One declared field.
pub struct FieldDecl {
    /// `None` for a positional field.
    pub name: Option<String>,
    pub vis: Vis,
    pub ty: Ty,
    pub attrs: Vec<RawOpt>,
}

/// One declared enum variant.
pub struct VariantDecl {
    pub name: String,
    pub delim: Delim,
    pub fields: Vec<FieldDecl>,
    pub attrs: Vec<RawOpt>,
}

/// The body of an annotated declaration.
pub enum ContainerBody {
    /// A struct's own field list.
    StructBody { delim: Delim, fields: Vec<FieldDecl> },
    /// An enum's variants.
    EnumBody { variants: Vec<VariantDecl> },
    /// A union, which the engine rejects outright.
    UnionBody,
}

/// The annotated struct or enum handed in by the host parser.
pub struct ContainerDecl {
    pub name: String,
    pub vis: Vis,
    pub generics: GenericsDecl,
    pub attrs: Vec<RawOpt>,
    pub body: ContainerBody,
}

/// The decimal digit character of `d`.
pub open spec fn dec_digit(d: nat) -> Seq<char> {
    if d == 0 {
        "0"@
    } else if d == 1 {
        "1"@
    } else if d == 2 {
        "2"@
    } else if d == 3 {
        "3"@
    } else if d == 4 {
        "4"@
    } else if d == 5 {
        "5"@
    } else if d == 6 {
        "6"@
    } else if d == 7 {
        "7"@
    } else if d == 8 {
        "8"@
    } else {
        "9"@
    }
}

/// The decimal representation of `n`, most significant digit first.
pub open spec fn dec_rep(n: nat) -> Seq<char>
    decreases n,
{
    if n < 10 {
        dec_digit(n)
    } else {
        dec_rep(n / 10) + dec_digit(n % 10)
    }
}

/// Appends the decimal representation of `n`.
pub fn push_decimal(s: &mut String, n: usize)
    ensures
        final(s)@ == old(s)@ + dec_rep(n as nat),
    decreases n,
{
    let ghost mid = s@;
    if n >= 10 {
        push_decimal(s, n / 10);
        proof {
            assert(s@ == mid + dec_rep(n as nat / 10));
        }
    }
    let d = n % 10;
    if d == 0 {
        s.append("0");
    } else if d == 1 {
        s.append("1");
    } else if d == 2 {
        s.append("2");
    } else if d == 3 {
        s.append("3");
    } else if d == 4 {
        s.append("4");
    } else if d == 5 {
        s.append("5");
    } else if d == 6 {
        s.append("6");
    } else if d == 7 {
        s.append("7");
    } else if d == 8 {
        s.append("8");
    } else {
        s.append("9");
    }
    proof {
        if n >= 10 {
            assert(s@ =~= mid + (dec_rep(n as nat / 10) + dec_digit(n as nat % 10)));
        } else {
            assert(s@ =~= mid + dec_digit(n as nat));
        }
    }
}

/// String equality, stated over the character views.
pub fn str_eq(a: &String, b: &String) -> (r: bool)
    ensures
        r == (a@ == b@),
{
    *a == *b
}

impl ContainerDecl {
    /// True when the declaration is enum-shaped.
    pub fn is_enum(&self) -> (r: bool)
        ensures
            r == (self.body is EnumBody),
    {
        match &self.body {
            ContainerBody::EnumBody { .. } => true,
            _ => false,
        }
    }
}

} // verus!
