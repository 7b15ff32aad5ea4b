//! The directive grammar and its resolver.
//!
//! A node's raw annotation list is a sequence of key/value directives.  The
//! resolver checks every directive against the grammar table — its value
//! shape, the scopes it is legal in, duplicates of a non-repeatable key,
//! and conflicts between a key and its negated form or between two aliases
//! of the same semantic key — and produces a resolved [`Options`] record,
//! or the whole batch of independent grammar errors, each pinned to the
//! index of the offending directive.

use vstd::prelude::*;

use crate::ast::OptValue;
use crate::ast::RawKey;
use crate::ast::RawOpt;
use crate::ast::Ty;
use crate::ast::Vis;

verus! {

/// The scope a raw annotation list is attached to.
#[derive(Clone, Copy, PartialEq, Eq, Structural)]
pub enum Scope {
    AtContainer,
    AtVariant,
    AtField,
}

/// The semantic directive keys, after spellings, aliases, shorthands and
/// negated forms are folded together.
#[derive(Clone, Copy, PartialEq, Eq, Structural)]
pub enum SemKey {
    SAttr,
    SInto,
    SModule,
    SSkip,
    SSuffix,
    SPrefix,
    SRename,
    SRemote,
    SUnit,
    SVis,
    SGeneric,
    SUnwrap,
    SOptional,
    SSource,
    SFrom,
    STransparent,
}

/// A value that is either a plain flag or a named identifier.
#[derive(Clone, Copy)]
pub enum FlagOrIdent<'a> {
    Flag(bool),
    Ident(&'a String),
}

/// The mathematical value of a [`FlagOrIdent`].
pub enum FlagOrIdentSpec {
    FlagSp(bool),
    IdentSp(Seq<char>),
}

/// The value a [`FlagOrIdent`] stands for.
pub open spec fn foi_view(f: FlagOrIdent) -> FlagOrIdentSpec {
    match f {
        FlagOrIdent::Flag(b) => FlagOrIdentSpec::FlagSp(b),
        FlagOrIdent::Ident(s) => FlagOrIdentSpec::IdentSp(s@),
    }
}

/// A grammar error, pinned to the index of the offending directive in the
/// raw annotation list.
#[derive(Clone, Copy, PartialEq, Eq, Structural, Debug)]
pub enum OptError {
    /// The key spelling is not part of the grammar.
    UnknownKey { at: usize },
    /// The value does not fit the key's declared value shape.
    BadValue { at: usize },
    /// A non-repeatable key was supplied twice under the same spelling.
    DuplicateKey { at: usize },
    /// Two spellings of one semantic key, a key and its negated form, or
    /// two mutually constrained naming keys were both supplied.
    ConflictingKeys { at: usize },
    /// The key is not legal in this scope.
    MisplacedKey { at: usize },
}

/// The options resolved for one node, borrowing the annotation's payloads.
pub struct Options<'a> {
    /// Pass-through attribute payloads, in declaration order.
    pub attrs: Vec<&'a String>,
    /// Additional conversion target types, in declaration order.
    pub into: Vec<&'a Ty>,
    /// Module placement: a flag for the default module name, or a name.
    pub module: Option<FlagOrIdent<'a>>,
    /// Whether the node is skipped.
    pub skip: Option<bool>,
    /// Name suffix: a flag for the default suffix, or a custom one.
    pub suffix: Option<FlagOrIdent<'a>>,
    /// Name prefix.
    pub prefix: Option<&'a String>,
    /// Outright rename of the synthesized type.
    pub rename: Option<&'a String>,
    /// A replacement for the implicit conversion target.
    pub remote: Option<&'a Ty>,
    /// Whether an all-excluded field list collapses to a unit shape.
    pub unit: Option<bool>,
    /// Visibility of the synthesized type or field.
    pub vis: Option<&'a Vis>,
    /// Whether data fields receive synthesized generics.
    pub generic: Option<bool>,
    /// Whether a wrapper-typed field's generic targets the inner type.
    pub unwrap: Option<bool>,
    /// Deferred-set marker, with its optional grouping identifier.
    pub optional: Option<Option<&'a String>>,
    /// The field is the source field.
    pub source: bool,
    /// The field is an auto-conversion field, implying source.
    pub from: bool,
    /// The node is a pure wrapper around its single field.
    pub transparent: bool,
}

/// The mathematical value of an [`Options`] record.
pub struct OptionsSpec {
    pub attrs: Seq<Seq<char>>,
    pub into: Seq<Ty>,
    pub module: Option<FlagOrIdentSpec>,
    pub skip: Option<bool>,
    pub suffix: Option<FlagOrIdentSpec>,
    pub prefix: Option<Seq<char>>,
    pub rename: Option<Seq<char>>,
    pub remote: Option<Ty>,
    pub unit: Option<bool>,
    pub vis: Option<Vis>,
    pub generic: Option<bool>,
    pub unwrap: Option<bool>,
    pub optional: Option<Option<Seq<char>>>,
    pub source: bool,
    pub from: bool,
    pub transparent: bool,
}

impl<'a> View for Options<'a> {
    type V = OptionsSpec;

    open spec fn view(&self) -> OptionsSpec {
        OptionsSpec {
            attrs: self.attrs@.map_values(|s: &String| s@),
            into: self.into@.map_values(|t: &Ty| *t),
            module: match self.module {
                Some(f) => Some(foi_view(f)),
                None => None,
            },
            skip: self.skip,
            suffix: match self.suffix {
                Some(f) => Some(foi_view(f)),
                None => None,
            },
            prefix: match self.prefix {
                Some(s) => Some(s@),
                None => None,
            },
            rename: match self.rename {
                Some(s) => Some(s@),
                None => None,
            },
            remote: match self.remote {
                Some(t) => Some(*t),
                None => None,
            },
            unit: self.unit,
            vis: match self.vis {
                Some(v) => Some(*v),
                None => None,
            },
            generic: self.generic,
            unwrap: self.unwrap,
            optional: match self.optional {
                Some(Some(s)) => Some(Some(s@)),
                Some(None) => Some(None),
                None => None,
            },
            source: self.source,
            from: self.from,
            transparent: self.transparent,
        }
    }
}

/// The empty record: no key set.
pub open spec fn options_empty() -> OptionsSpec {
    OptionsSpec {
        attrs: Seq::empty(),
        into: Seq::empty(),
        module: None,
        skip: None,
        suffix: None,
        prefix: None,
        rename: None,
        remote: None,
        unit: None,
        vis: None,
        generic: None,
        unwrap: None,
        optional: None,
        source: false,
        from: false,
        transparent: false,
    }
}

/// The semantic key a spelling belongs to, or none for an unrecognized
/// spelling.
pub open spec fn sem_key_spec(k: RawKey) -> Option<SemKey> {
    match k {
        RawKey::KAttr => Some(SemKey::SAttr),
        RawKey::KAttribute => Some(SemKey::SAttr),
        RawKey::KCfg => Some(SemKey::SAttr),
        RawKey::KCfgAttr => Some(SemKey::SAttr),
        RawKey::KContext => Some(SemKey::SSkip),
        RawKey::KDerive => Some(SemKey::SAttr),
        RawKey::KDoc => Some(SemKey::SAttr),
        RawKey::KFrom => Some(SemKey::SFrom),
        RawKey::KGeneric => Some(SemKey::SGeneric),
        RawKey::KNoGeneric => Some(SemKey::SGeneric),
        RawKey::KMagic => Some(SemKey::SGeneric),
        RawKey::KInto => Some(SemKey::SInto),
        RawKey::KModule => Some(SemKey::SModule),
        RawKey::KNoModule => Some(SemKey::SModule),
        RawKey::KOptional => Some(SemKey::SOptional),
        RawKey::KPrefix => Some(SemKey::SPrefix),
        RawKey::KRemote => Some(SemKey::SRemote),
        RawKey::KRename => Some(SemKey::SRename),
        RawKey::KSkip => Some(SemKey::SSkip),
        RawKey::KNoSkip => Some(SemKey::SSkip),
        RawKey::KSource => Some(SemKey::SSource),
        RawKey::KSuffix => Some(SemKey::SSuffix),
        RawKey::KNoSuffix => Some(SemKey::SSuffix),
        RawKey::KTransparent => Some(SemKey::STransparent),
        RawKey::KUnit => Some(SemKey::SUnit),
        RawKey::KNoUnit => Some(SemKey::SUnit),
        RawKey::KUnwrap => Some(SemKey::SUnwrap),
        RawKey::KNoUnwrap => Some(SemKey::SUnwrap),
        RawKey::KVis => Some(SemKey::SVis),
        RawKey::KVisibility => Some(SemKey::SVis),
        RawKey::KPubShorthand => Some(SemKey::SVis),
        RawKey::KUnknown => None,
    }
}

/// True for the negated spellings, which set their key to the negation of
/// the supplied flag.
pub open spec fn negated_spec(k: RawKey) -> bool {
    match k {
        RawKey::KContext => true,
        RawKey::KNoGeneric => true,
        RawKey::KNoModule => true,
        RawKey::KNoSkip => true,
        RawKey::KNoSuffix => true,
        RawKey::KNoUnit => true,
        RawKey::KNoUnwrap => true,
        _ => false,
    }
}

/// True when the value fits the spelling's declared value shape: a flag
/// key takes no value or a boolean, a flag-or-identifier key also an
/// identifier, naming keys an identifier, visibility keys a visibility,
/// attribute keys a token payload, and target keys a type.
pub open spec fn value_ok_spec(k: RawKey, v: OptValue) -> bool {
    match k {
        RawKey::KAttr | RawKey::KAttribute | RawKey::KCfg | RawKey::KCfgAttr | RawKey::KDerive
            | RawKey::KDoc => v is VTokens,
        RawKey::KInto | RawKey::KRemote => v is VType,
        RawKey::KVis | RawKey::KVisibility | RawKey::KPubShorthand => v is VVis,
        RawKey::KPrefix | RawKey::KRename => v is VIdent,
        RawKey::KModule | RawKey::KSuffix => v is VNone || v is VBool || v is VIdent,
        RawKey::KOptional => v is VNone || v is VIdent,
        RawKey::KFrom | RawKey::KGeneric | RawKey::KNoGeneric | RawKey::KMagic | RawKey::KSkip
            | RawKey::KNoSkip | RawKey::KSource | RawKey::KNoSuffix | RawKey::KTransparent
            | RawKey::KUnit | RawKey::KNoUnit | RawKey::KUnwrap | RawKey::KNoUnwrap
            | RawKey::KNoModule | RawKey::KContext => v is VNone || v is VBool,
        RawKey::KUnknown => false,
    }
}

/// True when the semantic key is legal at the given scope.  A container
/// scope distinguishes enum containers: renaming and transparency are
/// meaningful only on a struct container or on a variant.
pub open spec fn allowed_spec(sk: SemKey, scope: Scope, is_enum: bool) -> bool {
    match sk {
        SemKey::SAttr => true,
        SemKey::SVis => true,
        SemKey::SGeneric => true,
        SemKey::SUnwrap => true,
        SemKey::SInto => scope != Scope::AtField,
        SemKey::SSkip => scope != Scope::AtField,
        SemKey::SSuffix => scope != Scope::AtField,
        SemKey::SPrefix => scope != Scope::AtField,
        SemKey::SRemote => scope != Scope::AtField,
        SemKey::SUnit => scope != Scope::AtField,
        SemKey::SModule => scope == Scope::AtContainer,
        SemKey::SRename => scope == Scope::AtVariant || (scope == Scope::AtContainer && !is_enum),
        SemKey::STransparent => scope == Scope::AtVariant || (scope == Scope::AtContainer
            && !is_enum),
        SemKey::SOptional => scope == Scope::AtField,
        SemKey::SSource => scope == Scope::AtField,
        SemKey::SFrom => scope == Scope::AtField,
    }
}

/// The boolean a flag spelling sets: absent values default to `true`, and
/// negated spellings flip the result.
pub open spec fn flag_val_spec(k: RawKey, v: OptValue) -> bool {
    let base = match v {
        OptValue::VBool(b) => b,
        _ => true,
    };
    if negated_spec(k) {
        !base
    } else {
        base
    }
}

/// The flag-or-identifier value a spelling sets.
pub open spec fn foi_val_spec(k: RawKey, v: OptValue) -> FlagOrIdentSpec {
    match v {
        OptValue::VIdent(s) => FlagOrIdentSpec::IdentSp(s@),
        _ => FlagOrIdentSpec::FlagSp(flag_val_spec(k, v)),
    }
}

/// Which spelling first set each non-repeatable semantic key.
pub struct SeenSpec {
    pub module: Option<RawKey>,
    pub skip: Option<RawKey>,
    pub suffix: Option<RawKey>,
    pub prefix: Option<RawKey>,
    pub rename: Option<RawKey>,
    pub remote: Option<RawKey>,
    pub unit: Option<RawKey>,
    pub vis: Option<RawKey>,
    pub generic: Option<RawKey>,
    pub unwrap: Option<RawKey>,
    pub optional: Option<RawKey>,
    pub source: Option<RawKey>,
    pub from: Option<RawKey>,
    pub transparent: Option<RawKey>,
}

/// Nothing seen yet.
pub open spec fn seen_empty() -> SeenSpec {
    SeenSpec {
        module: None,
        skip: None,
        suffix: None,
        prefix: None,
        rename: None,
        remote: None,
        unit: None,
        vis: None,
        generic: None,
        unwrap: None,
        optional: None,
        source: None,
        from: None,
        transparent: None,
    }
}

/// The spelling that first set `sk`, if any.
pub open spec fn seen_get(seen: SeenSpec, sk: SemKey) -> Option<RawKey> {
    match sk {
        SemKey::SModule => seen.module,
        SemKey::SSkip => seen.skip,
        SemKey::SSuffix => seen.suffix,
        SemKey::SPrefix => seen.prefix,
        SemKey::SRename => seen.rename,
        SemKey::SRemote => seen.remote,
        SemKey::SUnit => seen.unit,
        SemKey::SVis => seen.vis,
        SemKey::SGeneric => seen.generic,
        SemKey::SUnwrap => seen.unwrap,
        SemKey::SOptional => seen.optional,
        SemKey::SSource => seen.source,
        SemKey::SFrom => seen.from,
        SemKey::STransparent => seen.transparent,
        SemKey::SAttr => None,
        SemKey::SInto => None,
    }
}

/// `seen` with `sk` recorded as set by spelling `k`.
pub open spec fn seen_set(seen: SeenSpec, sk: SemKey, k: RawKey) -> SeenSpec {
    match sk {
        SemKey::SModule => SeenSpec { module: Some(k), ..seen },
        SemKey::SSkip => SeenSpec { skip: Some(k), ..seen },
        SemKey::SSuffix => SeenSpec { suffix: Some(k), ..seen },
        SemKey::SPrefix => SeenSpec { prefix: Some(k), ..seen },
        SemKey::SRename => SeenSpec { rename: Some(k), ..seen },
        SemKey::SRemote => SeenSpec { remote: Some(k), ..seen },
        SemKey::SUnit => SeenSpec { unit: Some(k), ..seen },
        SemKey::SVis => SeenSpec { vis: Some(k), ..seen },
        SemKey::SGeneric => SeenSpec { generic: Some(k), ..seen },
        SemKey::SUnwrap => SeenSpec { unwrap: Some(k), ..seen },
        SemKey::SOptional => SeenSpec { optional: Some(k), ..seen },
        SemKey::SSource => SeenSpec { source: Some(k), ..seen },
        SemKey::SFrom => SeenSpec { from: Some(k), ..seen },
        SemKey::STransparent => SeenSpec { transparent: Some(k), ..seen },
        SemKey::SAttr => seen,
        SemKey::SInto => seen,
    }
}

/// True when setting `sk` now would clash with one of the mutually
/// constrained naming keys: a rename against a prefix or suffix, and the
/// other way round.
pub open spec fn naming_clash(seen: SeenSpec, sk: SemKey) -> bool {
    match sk {
        SemKey::SRename => seen.prefix is Some || seen.suffix is Some,
        SemKey::SPrefix => seen.rename is Some,
        SemKey::SSuffix => seen.rename is Some,
        _ => false,
    }
}

/// The resolver's state after some prefix of the raw list.
pub struct ResolveState {
    pub opts: OptionsSpec,
    pub errs: Seq<OptError>,
    pub seen: SeenSpec,
}

/// `opts` with the scalar key `sk` set to the value directive `o` carries.
pub open spec fn set_scalar(opts: OptionsSpec, sk: SemKey, o: RawOpt) -> OptionsSpec {
    match sk {
        SemKey::SModule => OptionsSpec { module: Some(foi_val_spec(o.key, o.value)), ..opts },
        SemKey::SSkip => OptionsSpec { skip: Some(flag_val_spec(o.key, o.value)), ..opts },
        SemKey::SSuffix => OptionsSpec { suffix: Some(foi_val_spec(o.key, o.value)), ..opts },
        SemKey::SPrefix => OptionsSpec { prefix: Some(o.value->VIdent_0@), ..opts },
        SemKey::SRename => OptionsSpec { rename: Some(o.value->VIdent_0@), ..opts },
        SemKey::SRemote => OptionsSpec { remote: Some(o.value->VType_0), ..opts },
        SemKey::SUnit => OptionsSpec { unit: Some(flag_val_spec(o.key, o.value)), ..opts },
        SemKey::SVis => OptionsSpec { vis: Some(o.value->VVis_0), ..opts },
        SemKey::SGeneric => OptionsSpec { generic: Some(flag_val_spec(o.key, o.value)), ..opts },
        SemKey::SUnwrap => OptionsSpec { unwrap: Some(flag_val_spec(o.key, o.value)), ..opts },
        SemKey::SOptional => OptionsSpec {
            optional: Some(
                match o.value {
                    OptValue::VIdent(s) => Some(s@),
                    _ => None,
                },
            ),
            ..opts
        },
        SemKey::SSource => OptionsSpec { source: flag_val_spec(o.key, o.value), ..opts },
        SemKey::SFrom => OptionsSpec { from: flag_val_spec(o.key, o.value), ..opts },
        SemKey::STransparent => OptionsSpec {
            transparent: flag_val_spec(o.key, o.value),
            ..opts
        },
        SemKey::SAttr => opts,
        SemKey::SInto => opts,
    }
}

/// One resolver step: what directive `o`, at index `i`, does to the state.
pub open spec fn resolve_step(
    scope: Scope,
    is_enum: bool,
    st: ResolveState,
    o: RawOpt,
    i: int,
) -> ResolveState {
    match sem_key_spec(o.key) {
        None => ResolveState {
            errs: st.errs.push(OptError::UnknownKey { at: i as usize }),
            ..st
        },
        Some(sk) => {
            if !value_ok_spec(o.key, o.value) {
                ResolveState { errs: st.errs.push(OptError::BadValue { at: i as usize }), ..st }
            } else if !allowed_spec(sk, scope, is_enum) {
                ResolveState {
                    errs: st.errs.push(OptError::MisplacedKey { at: i as usize }),
                    ..st
                }
            } else if sk == SemKey::SAttr {
                ResolveState {
                    opts: OptionsSpec {
                        attrs: st.opts.attrs.push(o.value->VTokens_0@),
                        ..st.opts
                    },
                    ..st
                }
            } else if sk == SemKey::SInto {
                ResolveState {
                    opts: OptionsSpec { into: st.opts.into.push(o.value->VType_0), ..st.opts },
                    ..st
                }
            } else {
                match seen_get(st.seen, sk) {
                    Some(k0) => {
                        if k0 == o.key {
                            ResolveState {
                                errs: st.errs.push(OptError::DuplicateKey { at: i as usize }),
                                ..st
                            }
                        } else {
                            ResolveState {
                                errs: st.errs.push(OptError::ConflictingKeys { at: i as usize }),
                                ..st
                            }
                        }
                    },
                    None => {
                        if naming_clash(st.seen, sk) {
                            ResolveState {
                                errs: st.errs.push(OptError::ConflictingKeys { at: i as usize }),
                                ..st
                            }
                        } else {
                            ResolveState {
                                opts: set_scalar(st.opts, sk, o),
                                seen: seen_set(st.seen, sk, o.key),
                                ..st
                            }
                        }
                    },
                }
            }
        },
    }
}

/// The resolver's state after the first `n` directives.
pub open spec fn resolve_fold(scope: Scope, is_enum: bool, raw: Seq<RawOpt>, n: int) -> ResolveState
    decreases n,
{
    if n <= 0 {
        ResolveState { opts: options_empty(), errs: Seq::empty(), seen: seen_empty() }
    } else {
        resolve_step(scope, is_enum, resolve_fold(scope, is_enum, raw, n - 1), raw[n - 1], n - 1)
    }
}

/// The full result of resolving a raw annotation list.
pub open spec fn resolve_spec(scope: Scope, is_enum: bool, raw: Seq<RawOpt>) -> ResolveState {
    resolve_fold(scope, is_enum, raw, raw.len() as int)
}

fn sem_key(k: RawKey) -> (r: Option<SemKey>)
    ensures
        r == sem_key_spec(k),
{
    match k {
        RawKey::KAttr => Some(SemKey::SAttr),
        RawKey::KAttribute => Some(SemKey::SAttr),
        RawKey::KCfg => Some(SemKey::SAttr),
        RawKey::KCfgAttr => Some(SemKey::SAttr),
        RawKey::KContext => Some(SemKey::SSkip),
        RawKey::KDerive => Some(SemKey::SAttr),
        RawKey::KDoc => Some(SemKey::SAttr),
        RawKey::KFrom => Some(SemKey::SFrom),
        RawKey::KGeneric => Some(SemKey::SGeneric),
        RawKey::KNoGeneric => Some(SemKey::SGeneric),
        RawKey::KMagic => Some(SemKey::SGeneric),
        RawKey::KInto => Some(SemKey::SInto),
        RawKey::KModule => Some(SemKey::SModule),
        RawKey::KNoModule => Some(SemKey::SModule),
        RawKey::KOptional => Some(SemKey::SOptional),
        RawKey::KPrefix => Some(SemKey::SPrefix),
        RawKey::KRemote => Some(SemKey::SRemote),
        RawKey::KRename => Some(SemKey::SRename),
        RawKey::KSkip => Some(SemKey::SSkip),
        RawKey::KNoSkip => Some(SemKey::SSkip),
        RawKey::KSource => Some(SemKey::SSource),
        RawKey::KSuffix => Some(SemKey::SSuffix),
        RawKey::KNoSuffix => Some(SemKey::SSuffix),
        RawKey::KTransparent => Some(SemKey::STransparent),
        RawKey::KUnit => Some(SemKey::SUnit),
        RawKey::KNoUnit => Some(SemKey::SUnit),
        RawKey::KUnwrap => Some(SemKey::SUnwrap),
        RawKey::KNoUnwrap => Some(SemKey::SUnwrap),
        RawKey::KVis => Some(SemKey::SVis),
        RawKey::KVisibility => Some(SemKey::SVis),
        RawKey::KPubShorthand => Some(SemKey::SVis),
        RawKey::KUnknown => None,
    }
}

fn negated(k: RawKey) -> (r: bool)
    ensures
        r == negated_spec(k),
{
    match k {
        RawKey::KContext => true,
        RawKey::KNoGeneric => true,
        RawKey::KNoModule => true,
        RawKey::KNoSkip => true,
        RawKey::KNoSuffix => true,
        RawKey::KNoUnit => true,
        RawKey::KNoUnwrap => true,
        _ => false,
    }
}

fn value_ok(k: RawKey, v: &OptValue) -> (r: bool)
    ensures
        r == value_ok_spec(k, *v),
{
    match k {
        RawKey::KAttr | RawKey::KAttribute | RawKey::KCfg | RawKey::KCfgAttr | RawKey::KDerive
            | RawKey::KDoc => matches!(v, OptValue::VTokens(_)),
        RawKey::KInto | RawKey::KRemote => matches!(v, OptValue::VType(_)),
        RawKey::KVis | RawKey::KVisibility | RawKey::KPubShorthand => matches!(
            v,
            OptValue::VVis(_)
        ),
        RawKey::KPrefix | RawKey::KRename => matches!(v, OptValue::VIdent(_)),
        RawKey::KModule | RawKey::KSuffix => matches!(
            v,
            OptValue::VNone | OptValue::VBool(_) | OptValue::VIdent(_)
        ),
        RawKey::KOptional => matches!(v, OptValue::VNone | OptValue::VIdent(_)),
        RawKey::KFrom | RawKey::KGeneric | RawKey::KNoGeneric | RawKey::KMagic | RawKey::KSkip
            | RawKey::KNoSkip | RawKey::KSource | RawKey::KNoSuffix | RawKey::KTransparent
            | RawKey::KUnit | RawKey::KNoUnit | RawKey::KUnwrap | RawKey::KNoUnwrap
            | RawKey::KNoModule | RawKey::KContext => matches!(
            v,
            OptValue::VNone | OptValue::VBool(_)
        ),
        RawKey::KUnknown => false,
    }
}

fn allowed(sk: SemKey, scope: Scope, is_enum: bool) -> (r: bool)
    ensures
        r == allowed_spec(sk, scope, is_enum),
{
    match sk {
        SemKey::SAttr | SemKey::SVis | SemKey::SGeneric | SemKey::SUnwrap => true,
        SemKey::SInto | SemKey::SSkip | SemKey::SSuffix | SemKey::SPrefix | SemKey::SRemote
            | SemKey::SUnit => scope != Scope::AtField,
        SemKey::SModule => scope == Scope::AtContainer,
        SemKey::SRename | SemKey::STransparent => scope == Scope::AtVariant || (scope
            == Scope::AtContainer && !is_enum),
        SemKey::SOptional | SemKey::SSource | SemKey::SFrom => scope == Scope::AtField,
    }
}

fn flag_val(k: RawKey, v: &OptValue) -> (r: bool)
    ensures
        r == flag_val_spec(k, *v),
{
    let base = match v {
        OptValue::VBool(b) => *b,
        _ => true,
    };
    if negated(k) {
        !base
    } else {
        base
    }
}

fn foi_val<'a>(k: RawKey, v: &'a OptValue) -> (r: FlagOrIdent<'a>)
    ensures
        foi_view(r) == foi_val_spec(k, *v),
{
    match v {
        OptValue::VIdent(s) => FlagOrIdent::Ident(s),
        _ => FlagOrIdent::Flag(flag_val(k, v)),
    }
}

/// Which spellings have set which keys so far.
struct Seen {
    module: Option<RawKey>,
    skip: Option<RawKey>,
    suffix: Option<RawKey>,
    prefix: Option<RawKey>,
    rename: Option<RawKey>,
    remote: Option<RawKey>,
    unit: Option<RawKey>,
    vis: Option<RawKey>,
    generic: Option<RawKey>,
    unwrap: Option<RawKey>,
    optional: Option<RawKey>,
    source: Option<RawKey>,
    from: Option<RawKey>,
    transparent: Option<RawKey>,
}

impl Seen {
    spec fn view(&self) -> SeenSpec {
        SeenSpec {
            module: self.module,
            skip: self.skip,
            suffix: self.suffix,
            prefix: self.prefix,
            rename: self.rename,
            remote: self.remote,
            unit: self.unit,
            vis: self.vis,
            generic: self.generic,
            unwrap: self.unwrap,
            optional: self.optional,
            source: self.source,
            from: self.from,
            transparent: self.transparent,
        }
    }
}

/// Resolves one node's raw annotation list against the grammar table.
/// Either every directive is well formed and the resolved record comes
/// back, or the batch of all independent grammar errors does.
#[verifier::rlimit(100)]
pub fn resolve<'a>(scope: Scope, is_enum: bool, raw: &'a Vec<RawOpt>) -> (r: Result<
    Options<'a>,
    Vec<OptError>,
>)
    ensures
        ({
            let st = resolve_spec(scope, is_enum, raw@);
            match r {
                Ok(o) => st.errs.len() == 0 && o@ == st.opts,
                Err(es) => st.errs.len() > 0 && es@ == st.errs,
            }
        }),
{
    let mut opts = Options {
        attrs: Vec::new(),
        into: Vec::new(),
        module: None,
        skip: None,
        suffix: None,
        prefix: None,
        rename: None,
        remote: None,
        unit: None,
        vis: None,
        generic: None,
        unwrap: None,
        optional: None,
        source: false,
        from: false,
        transparent: false,
    };
    let mut errs: Vec<OptError> = Vec::new();
    let mut seen = Seen {
        module: None,
        skip: None,
        suffix: None,
        prefix: None,
        rename: None,
        remote: None,
        unit: None,
        vis: None,
        generic: None,
        unwrap: None,
        optional: None,
        source: None,
        from: None,
        transparent: None,
    };
    proof {
        assert(opts@.attrs =~= Seq::<Seq<char>>::empty());
        assert(opts@.into =~= Seq::<Ty>::empty());
        assert(opts@ == options_empty());
    }
    let mut i: usize = 0;
    while i < raw.len()
        invariant
            i <= raw@.len(),
            ({
                let st = resolve_fold(scope, is_enum, raw@, i as int);
                opts@ == st.opts && errs@ == st.errs && seen@ == st.seen
            }),
        decreases raw@.len() - i,
    {
        let o = &raw[i];
        let ghost st0 = resolve_fold(scope, is_enum, raw@, i as int);
        match sem_key(o.key) {
            None => {
                errs.push(OptError::UnknownKey { at: i });
            },
            Some(sk) => {
                if !value_ok(o.key, &o.value) {
                    errs.push(OptError::BadValue { at: i });
                } else if !allowed(sk, scope, is_enum) {
                    errs.push(OptError::MisplacedKey { at: i });
                } else if sk == SemKey::SAttr {
                    match &o.value {
                        OptValue::VTokens(s) => {
                            opts.attrs.push(s);
                            proof {
                                assert(opts@.attrs =~= st0.opts.attrs.push(
                                    o.value->VTokens_0@,
                                ));
                            }
                        },
                        _ => {
                            proof {
                                assert(false);
                            }
                        },
                    }
                } else if sk == SemKey::SInto {
                    match &o.value {
                        OptValue::VType(t) => {
                            opts.into.push(t);
                            proof {
                                assert(opts@.into =~= st0.opts.into.push(o.value->VType_0));
                            }
                        },
                        _ => {
                            proof {
                                assert(false);
                            }
                        },
                    }
                } else {
                    let prev: Option<RawKey> = match sk {
                        SemKey::SModule => seen.module,
                        SemKey::SSkip => seen.skip,
                        SemKey::SSuffix => seen.suffix,
                        SemKey::SPrefix => seen.prefix,
                        SemKey::SRename => seen.rename,
                        SemKey::SRemote => seen.remote,
                        SemKey::SUnit => seen.unit,
                        SemKey::SVis => seen.vis,
                        SemKey::SGeneric => seen.generic,
                        SemKey::SUnwrap => seen.unwrap,
                        SemKey::SOptional => seen.optional,
                        SemKey::SSource => seen.source,
                        SemKey::SFrom => seen.from,
                        SemKey::STransparent => seen.transparent,
                        _ => None,
                    };
                    match prev {
                        Some(k0) => {
                            if k0 == o.key {
                                errs.push(OptError::DuplicateKey { at: i });
                            } else {
                                errs.push(OptError::ConflictingKeys { at: i });
                            }
                        },
                        None => {
                            let clash = match sk {
                                SemKey::SRename => seen.prefix.is_some() || seen.suffix.is_some(),
                                SemKey::SPrefix => seen.rename.is_some(),
                                SemKey::SSuffix => seen.rename.is_some(),
                                _ => false,
                            };
                            if clash {
                                errs.push(OptError::ConflictingKeys { at: i });
                            } else {
                                match sk {
                                    SemKey::SModule => {
                                        opts.module = Some(foi_val(o.key, &o.value));
                                        seen.module = Some(o.key);
                                    },
                                    SemKey::SSkip => {
                                        opts.skip = Some(flag_val(o.key, &o.value));
                                        seen.skip = Some(o.key);
                                    },
                                    SemKey::SSuffix => {
                                        opts.suffix = Some(foi_val(o.key, &o.value));
                                        seen.suffix = Some(o.key);
                                    },
                                    SemKey::SPrefix => {
                                        match &o.value {
                                            OptValue::VIdent(s) => {
                                                opts.prefix = Some(s);
                                                seen.prefix = Some(o.key);
                                            },
                                            _ => {
                                                proof {
                                                    assert(false);
                                                }
                                            },
                                        }
                                    },
                                    SemKey::SRename => {
                                        match &o.value {
                                            OptValue::VIdent(s) => {
                                                opts.rename = Some(s);
                                                seen.rename = Some(o.key);
                                            },
                                            _ => {
                                                proof {
                                                    assert(false);
                                                }
                                            },
                                        }
                                    },
                                    SemKey::SRemote => {
                                        match &o.value {
                                            OptValue::VType(t) => {
                                                opts.remote = Some(t);
                                                seen.remote = Some(o.key);
                                            },
                                            _ => {
                                                proof {
                                                    assert(false);
                                                }
                                            },
                                        }
                                    },
                                    SemKey::SUnit => {
                                        opts.unit = Some(flag_val(o.key, &o.value));
                                        seen.unit = Some(o.key);
                                    },
                                    SemKey::SVis => {
                                        match &o.value {
                                            OptValue::VVis(v) => {
                                                opts.vis = Some(v);
                                                seen.vis = Some(o.key);
                                            },
                                            _ => {
                                                proof {
                                                    assert(false);
                                                }
                                            },
                                        }
                                    },
                                    SemKey::SGeneric => {
                                        opts.generic = Some(flag_val(o.key, &o.value));
                                        seen.generic = Some(o.key);
                                    },
                                    SemKey::SUnwrap => {
                                        opts.unwrap = Some(flag_val(o.key, &o.value));
                                        seen.unwrap = Some(o.key);
                                    },
                                    SemKey::SOptional => {
                                        let id = match &o.value {
                                            OptValue::VIdent(s) => Some(s),
                                            _ => None,
                                        };
                                        opts.optional = Some(id);
                                        seen.optional = Some(o.key);
                                    },
                                    SemKey::SSource => {
                                        opts.source = flag_val(o.key, &o.value);
                                        seen.source = Some(o.key);
                                    },
                                    SemKey::SFrom => {
                                        opts.from = flag_val(o.key, &o.value);
                                        seen.from = Some(o.key);
                                    },
                                    SemKey::STransparent => {
                                        opts.transparent = flag_val(o.key, &o.value);
                                        seen.transparent = Some(o.key);
                                    },
                                    _ => {},
                                }
                            }
                        },
                    }
                }
            },
        }
        proof {
            let st1 = resolve_fold(scope, is_enum, raw@, i + 1 as int);
            assert(st1 == resolve_step(scope, is_enum, st0, raw@[i as int], i as int));
            assert(opts@ == st1.opts && errs@ == st1.errs && seen@ == st1.seen);
        }
        i = i + 1;
    }
    if errs.len() == 0 {
        Ok(opts)
    } else {
        Err(errs)
    }
}

/// Resolving is a pure function of the raw annotation list: two results
/// that both satisfy the resolver's contract on the same list are the same
/// record, and a second resolution of the same list changes nothing.
pub proof fn lemma_resolve_deterministic(
    scope: Scope,
    is_enum: bool,
    raw: Seq<RawOpt>,
    r1: OptionsSpec,
    r2: OptionsSpec,
)
    requires
        r1 == resolve_spec(scope, is_enum, raw).opts,
        r2 == resolve_spec(scope, is_enum, raw).opts,
    ensures
        r1 == r2,
{
}

} // verus!
