//! From a declaration's attributes to its configuration: the attributes of the
//! namespace are taken in source order, and each of their blocks is handed to
//! the capability that it names.

use vstd::prelude::*;
use crate::failure::{Failure, reports_view};
use crate::meta::{
    Attribute, CanonicalMeta, CanonicalMetaView, NestedMeta, canonical, derivative_attribute,
    namespace_content, read_meta,
};

verus! {

/// A configuration that blocks of the namespace are read into: that of a type
/// or that of a field.
pub trait Config: View + Sized {
    /// The configuration after one block, or the reason for which the block is
    /// refused. `attrs` are all the attributes of the declaration.
    spec fn with_block(config: Self::V, attrs: Seq<Attribute>, block: CanonicalMetaView) -> Result<
        Self::V,
        Failure,
    >;

    /// Reads one block into the configuration.
    fn apply_block(self, attrs: &[Attribute], block: CanonicalMeta) -> (config: Result<
        Self,
        String,
    >)
        ensures
            reports_view(config, Self::with_block(self@, attrs@, block@)),
    ;
}

/// The configuration after one entry of a `derivative` attribute: the entry is
/// brought to its canonical form and read as a block.
pub open spec fn with_entry<C: Config>(
    config: C::V,
    attrs: Seq<Attribute>,
    entry: NestedMeta,
) -> Result<C::V, Failure> {
    match canonical(entry) {
        Ok(block) => C::with_block(config, attrs, block),
        Err(failure) => Err(failure),
    }
}

/// The configuration after the entries of a `derivative` attribute, taken in
/// their order. The first entry that is refused ends it.
pub open spec fn with_entries<C: Config>(
    config: C::V,
    attrs: Seq<Attribute>,
    entries: Seq<NestedMeta>,
) -> Result<C::V, Failure>
    decreases entries.len(),
{
    if entries.len() == 0 {
        Ok(config)
    } else {
        match with_entry::<C>(config, attrs, entries[0]) {
            Ok(next) => with_entries::<C>(next, attrs, entries.skip(1)),
            Err(failure) => Err(failure),
        }
    }
}

/// The configuration after one attribute. An attribute outside the namespace
/// changes nothing.
pub open spec fn with_attribute<C: Config>(
    config: C::V,
    attrs: Seq<Attribute>,
    attr: Attribute,
) -> Result<C::V, Failure> {
    match namespace_content(attr) {
        Some(entries) => with_entries::<C>(config, attrs, entries),
        None => Ok(config),
    }
}

/// The configuration after the attributes `rest` of a declaration whose
/// attributes are `attrs`, taken in their order. The first entry that is
/// refused ends it.
pub open spec fn with_attributes<C: Config>(
    config: C::V,
    attrs: Seq<Attribute>,
    rest: Seq<Attribute>,
) -> Result<C::V, Failure>
    decreases rest.len(),
{
    if rest.len() == 0 {
        Ok(config)
    } else {
        match with_attribute::<C>(config, attrs, rest[0]) {
            Ok(next) => with_attributes::<C>(next, attrs, rest.skip(1)),
            Err(failure) => Err(failure),
        }
    }
}

/// Reads the entries of one `derivative` attribute into the configuration.
pub fn parse_entries<C: Config>(
    config: C,
    attrs: &[Attribute],
    entries: &Vec<NestedMeta>,
) -> (parsed: Result<C, String>)
    ensures
        reports_view(parsed, with_entries::<C>(config@, attrs@, entries@)),
{
    let mut current = config;
    let mut i: usize = 0;
    assert(entries@.skip(0) =~= entries@);
    while i < entries.len()
        invariant
            i <= entries.len(),
            with_entries::<C>(config@, attrs@, entries@) == with_entries::<C>(
                current@,
                attrs@,
                entries@.skip(i as int),
            ),
        decreases entries.len() - i,
    {
        let ghost rest = entries@.skip(i as int);
        assert(rest[0] == entries@[i as int]);
        assert(rest.skip(1) =~= entries@.skip(i + 1));
        let block = match read_meta(&entries[i]) {
            Ok(block) => block,
            Err(message) => {
                return Err(message);
            },
        };
        match current.apply_block(attrs, block) {
            Ok(next) => {
                current = next;
            },
            Err(message) => {
                return Err(message);
            },
        }
        i += 1;
    }
    Ok(current)
}

/// Reads the attributes of a declaration into the configuration `config`.
pub fn parse_attributes<C: Config>(config: C, attrs: &[Attribute]) -> (parsed: Result<C, String>)
    ensures
        reports_view(parsed, with_attributes::<C>(config@, attrs@, attrs@)),
{
    let mut current = config;
    let mut i: usize = 0;
    assert(attrs@.skip(0) =~= attrs@);
    while i < attrs.len()
        invariant
            i <= attrs.len(),
            with_attributes::<C>(config@, attrs@, attrs@) == with_attributes::<C>(
                current@,
                attrs@,
                attrs@.skip(i as int),
            ),
        decreases attrs.len() - i,
    {
        let ghost rest = attrs@.skip(i as int);
        assert(rest[0] == attrs@[i as int]);
        assert(rest.skip(1) =~= attrs@.skip(i + 1));
        match derivative_attribute(&attrs[i]) {
            Some(entries) => {
                match parse_entries(current, attrs, entries) {
                    Ok(next) => {
                        current = next;
                    },
                    Err(message) => {
                        return Err(message);
                    },
                }
            },
            None => {},
        }
        i += 1;
    }
    Ok(current)
}

} // verus!
