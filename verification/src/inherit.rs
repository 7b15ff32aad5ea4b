//! The attribute inheritance resolver.
//!
//! The effective options of a node merge its own record with its
//! ancestors': every scalar inheritable key takes the nearest explicit
//! value, walking from the most specific scope outward, while list-valued
//! keys concatenate, outermost scope first — container entries, then
//! variant entries, then field entries.  Module placement is meaningful
//! only at container scope and is never merged upward.

use vstd::prelude::*;

use crate::ast::Ty;
use crate::options::Options;
use crate::options::OptionsSpec;

verus! {

/// The record a child scope's options produce over its parent's: scalars
/// from the child where set, else from the parent; lists concatenated
/// parent-first; module placement kept from the parent chain's container.
pub open spec fn merge_spec(base: OptionsSpec, child: OptionsSpec) -> OptionsSpec {
    OptionsSpec {
        attrs: base.attrs + child.attrs,
        into: base.into + child.into,
        module: base.module,
        skip: if child.skip is Some {
            child.skip
        } else {
            base.skip
        },
        suffix: if child.suffix is Some {
            child.suffix
        } else {
            base.suffix
        },
        prefix: if child.prefix is Some {
            child.prefix
        } else {
            base.prefix
        },
        rename: if child.rename is Some {
            child.rename
        } else {
            base.rename
        },
        remote: if child.remote is Some {
            child.remote
        } else {
            base.remote
        },
        unit: if child.unit is Some {
            child.unit
        } else {
            base.unit
        },
        vis: if child.vis is Some {
            child.vis
        } else {
            base.vis
        },
        generic: if child.generic is Some {
            child.generic
        } else {
            base.generic
        },
        unwrap: if child.unwrap is Some {
            child.unwrap
        } else {
            base.unwrap
        },
        optional: if child.optional is Some {
            child.optional
        } else {
            base.optional
        },
        source: child.source || base.source,
        from: child.from || base.from,
        transparent: child.transparent || base.transparent,
    }
}

/// Merges a child scope's options over its parent's.
pub fn merged<'a>(base: &Options<'a>, child: &Options<'a>) -> (r: Options<'a>)
    ensures
        r@ == merge_spec(base@, child@),
{
    let mut attrs: Vec<&'a String> = Vec::new();
    let mut i: usize = 0;
    while i < base.attrs.len()
        invariant
            i <= base.attrs@.len(),
            attrs@ == base.attrs@.take(i as int),
        decreases base.attrs@.len() - i,
    {
        attrs.push(base.attrs[i]);
        proof {
            assert(attrs@ =~= base.attrs@.take(i + 1 as int));
        }
        i = i + 1;
    }
    let mut j: usize = 0;
    while j < child.attrs.len()
        invariant
            j <= child.attrs@.len(),
            attrs@ == base.attrs@.take(base.attrs@.len() as int) + child.attrs@.take(j as int),
        decreases child.attrs@.len() - j,
    {
        attrs.push(child.attrs[j]);
        proof {
            assert(attrs@ =~= base.attrs@.take(base.attrs@.len() as int) + child.attrs@.take(
                j + 1 as int,
            ));
        }
        j = j + 1;
    }
    let mut into: Vec<&'a Ty> = Vec::new();
    let mut i2: usize = 0;
    while i2 < base.into.len()
        invariant
            i2 <= base.into@.len(),
            into@ == base.into@.take(i2 as int),
        decreases base.into@.len() - i2,
    {
        into.push(base.into[i2]);
        proof {
            assert(into@ =~= base.into@.take(i2 + 1 as int));
        }
        i2 = i2 + 1;
    }
    let mut j2: usize = 0;
    while j2 < child.into.len()
        invariant
            j2 <= child.into@.len(),
            into@ == base.into@.take(base.into@.len() as int) + child.into@.take(j2 as int),
        decreases child.into@.len() - j2,
    {
        into.push(child.into[j2]);
        proof {
            assert(into@ =~= base.into@.take(base.into@.len() as int) + child.into@.take(
                j2 + 1 as int,
            ));
        }
        j2 = j2 + 1;
    }
    let r = Options {
        attrs,
        into,
        module: base.module,
        skip: if child.skip.is_some() {
            child.skip
        } else {
            base.skip
        },
        suffix: if child.suffix.is_some() {
            child.suffix
        } else {
            base.suffix
        },
        prefix: if child.prefix.is_some() {
            child.prefix
        } else {
            base.prefix
        },
        rename: if child.rename.is_some() {
            child.rename
        } else {
            base.rename
        },
        remote: if child.remote.is_some() {
            child.remote
        } else {
            base.remote
        },
        unit: if child.unit.is_some() {
            child.unit
        } else {
            base.unit
        },
        vis: if child.vis.is_some() {
            child.vis
        } else {
            base.vis
        },
        generic: if child.generic.is_some() {
            child.generic
        } else {
            base.generic
        },
        unwrap: if child.unwrap.is_some() {
            child.unwrap
        } else {
            base.unwrap
        },
        optional: if child.optional.is_some() {
            child.optional
        } else {
            base.optional
        },
        source: child.source || base.source,
        from: child.from || base.from,
        transparent: child.transparent || base.transparent,
    };
    proof {
        assert(base.attrs@.take(base.attrs@.len() as int) =~= base.attrs@);
        assert(child.attrs@.take(child.attrs@.len() as int) =~= child.attrs@);
        assert(base.into@.take(base.into@.len() as int) =~= base.into@);
        assert(child.into@.take(child.into@.len() as int) =~= child.into@);
        assert(r@.attrs =~= base@.attrs + child@.attrs);
        assert(r@.into =~= base@.into + child@.into);
        assert(r@ == merge_spec(base@, child@));
    }
    r
}

/// Inheritance correctness.  For every scalar inheritable key, the most
/// specific scope that sets the key wins, whatever the other scopes say:
/// a field-level value beats the variant's and the container's, a
/// variant-level value beats the container's, and an unset key falls all
/// the way back.  For the list-valued keys, the effective list is the
/// container's entries, then the variant's, then the field's, in that
/// order.  Stated here for the skip key, the suffix key and the two lists;
/// every other scalar key merges by the same definition.
pub proof fn lemma_inheritance_order(c: OptionsSpec, v: OptionsSpec, f: OptionsSpec)
    ensures
        f.skip is Some ==> merge_spec(merge_spec(c, v), f).skip == f.skip,
        f.skip is None && v.skip is Some ==> merge_spec(merge_spec(c, v), f).skip == v.skip,
        f.skip is None && v.skip is None ==> merge_spec(merge_spec(c, v), f).skip == c.skip,
        f.suffix is Some ==> merge_spec(merge_spec(c, v), f).suffix == f.suffix,
        f.suffix is None && v.suffix is Some ==> merge_spec(merge_spec(c, v), f).suffix
            == v.suffix,
        f.suffix is None && v.suffix is None ==> merge_spec(merge_spec(c, v), f).suffix
            == c.suffix,
        merge_spec(merge_spec(c, v), f).attrs == c.attrs + v.attrs + f.attrs,
        merge_spec(merge_spec(c, v), f).into == c.into + v.into + f.into,
{
}

} // verus!
