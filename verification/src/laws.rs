//! What holds of every declaration, whatever its annotations are.

use vstd::prelude::*;
use crate::dispatch::{Config, with_attributes, with_entries};
use crate::failure::Failure;
use crate::field::{
    Field, FieldClone, FieldCloneView, FieldDebug, FieldDebugView, FieldDefault, FieldDefaultView,
    FieldHash, FieldHashView, FieldPartialEq, FieldPartialEqView, FieldView, field_config,
};
use crate::input::{
    Input, InputClone, InputCloneView, InputCopy, InputCopyView, InputDebug, InputDebugView,
    InputDefault, InputDefaultView, InputEq, InputHash, InputPartialEq, InputPartialEqView,
    InputView, type_config,
};
use crate::meta::{
    Attribute, CanonicalMetaView, NestedMeta, canonical, named_value, named_values,
    namespace_content,
};
use crate::options::{
    BoundList, OptionGroup, boolean_value, bound_added, expr_value, fragments, path_value,
    with_options,
};
use crate::syntax::where_clause_syntax;

verus! {

/// Attributes outside the namespace leave a configuration as it is.
pub proof fn attributes_outside_the_namespace<C: Config>(
    config: C::V,
    attrs: Seq<Attribute>,
    rest: Seq<Attribute>,
)
    requires
        forall|i: int| 0 <= i < rest.len() ==> namespace_content(#[trigger] rest[i]) is None,
    ensures
        with_attributes::<C>(config, attrs, rest) == Ok::<C::V, Failure>(config),
    decreases rest.len(),
{
    if rest.len() > 0 {
        assert(namespace_content(rest[0]) is None);
        assert forall|i: int| 0 <= i < rest.skip(1).len() implies namespace_content(
            #[trigger] rest.skip(1)[i],
        ) is None by {
            assert(rest.skip(1)[i] == rest[i + 1]);
        }
        attributes_outside_the_namespace::<C>(config, attrs, rest.skip(1));
    }
}

/// A type without a `derivative` attribute has no capability, and every
/// accessor gives its neutral value: no bound list, and `false`.
pub proof fn type_without_annotations(attrs: Seq<Attribute>)
    requires
        forall|i: int| 0 <= i < attrs.len() ==> namespace_content(#[trigger] attrs[i]) is None,
    ensures
        type_config(attrs) == Ok::<InputView, Failure>(InputView::empty()),
        InputView::empty().clone is None,
        InputView::empty().copy is None,
        InputView::empty().debug is None,
        InputView::empty().default is None,
        InputView::empty().eq is None,
        InputView::empty().hash is None,
        InputView::empty().partial_eq is None,
        InputView::empty().clone_bound() is None,
        !InputView::empty().clone_from(),
        InputView::empty().copy_bound() is None,
        !InputView::empty().derives_clone(),
        InputView::empty().debug_bound() is None,
        !InputView::empty().debug_transparent(),
        InputView::empty().default_bound() is None,
        !InputView::empty().default_new(),
        InputView::empty().eq_bound() is None,
        InputView::empty().hash_bound() is None,
        !InputView::empty().rustc_copy_clone_marker(),
        InputView::empty().partial_eq_bound() is None,
        !InputView::empty().partial_eq_on_enum(),
{
    attributes_outside_the_namespace::<Input>(InputView::empty(), attrs, attrs);
}

/// A field without a `derivative` attribute has no bound list, no function
/// path and no default value, and none of its toggles is set.
pub proof fn field_without_annotations(attrs: Seq<Attribute>)
    requires
        forall|i: int| 0 <= i < attrs.len() ==> namespace_content(#[trigger] attrs[i]) is None,
    ensures
        field_config(attrs) == Ok::<FieldView, Failure>(FieldView::fresh()),
        FieldView::fresh().clone.bounds is None,
        FieldView::fresh().clone.clone_with is None,
        FieldView::fresh().copy_bound is None,
        FieldView::fresh().debug.bounds is None,
        FieldView::fresh().debug.format_with is None,
        !FieldView::fresh().debug.ignore,
        FieldView::fresh().default.bounds is None,
        FieldView::fresh().default.value is None,
        FieldView::fresh().eq_bound is None,
        FieldView::fresh().hash.bounds is None,
        FieldView::fresh().hash.hash_with is None,
        !FieldView::fresh().hash.ignore,
        FieldView::fresh().partial_eq.bounds is None,
        FieldView::fresh().partial_eq.compare_with is None,
        !FieldView::fresh().partial_eq.ignore,
{
    attributes_outside_the_namespace::<Field>(FieldView::fresh(), attrs, attrs);
}

/// Reading a list of options is reading its first part and then, from what
/// that left, its second part.
pub proof fn options_in_two_parts<G: OptionGroup>(
    group: G::V,
    first: Seq<(Seq<char>, Option<Seq<char>>)>,
    second: Seq<(Seq<char>, Option<Seq<char>>)>,
)
    ensures
        with_options::<G>(group, first + second) == match with_options::<G>(group, first) {
            Ok(between) => with_options::<G>(between, second),
            Err(failure) => Err(failure),
        },
    decreases first.len(),
{
    if first.len() == 0 {
        assert(first + second =~= second);
    } else {
        assert((first + second)[0] == first[0]);
        assert((first + second).skip(1) =~= first.skip(1) + second);
        match G::with_option(group, first[0].0, first[0].1) {
            Ok(next) => {
                options_in_two_parts::<G>(next, first.skip(1), second);
            },
            Err(_) => {},
        }
    }
}

/// No option of a `Clone` block touches the note of the marker.
proof fn options_keep_the_marker(group: InputCloneView, options: Seq<(Seq<char>, Option<Seq<char>>)>)
    ensures
        with_options::<InputClone>(group, options) matches Ok(after)
            ==> after.rustc_copy_clone_marker == group.rustc_copy_clone_marker,
    decreases options.len(),
{
    if options.len() > 0 {
        if let Ok(next) = InputClone::with_option(group, options[0].0, options[0].1) {
            options_keep_the_marker(next, options.skip(1));
        }
    }
}

/// No option of a `Copy` block touches the note of the derived `Clone`.
proof fn options_keep_the_derive(group: InputCopyView, options: Seq<(Seq<char>, Option<Seq<char>>)>)
    ensures
        with_options::<InputCopy>(group, options) matches Ok(after) ==> after.derives_clone
            == group.derives_clone,
    decreases options.len(),
{
    if options.len() > 0 {
        if let Ok(next) = InputCopy::with_option(group, options[0].0, options[0].1) {
            options_keep_the_derive(next, options.skip(1));
        }
    }
}

/// Two blocks of one capability on a type come to what one block with the
/// options of both, in their order, comes to. That holds of the failure too,
/// where an option is refused.
pub proof fn blocks_of_a_type_merge(
    config: InputView,
    attrs: Seq<Attribute>,
    name: Seq<char>,
    first: Seq<(Seq<char>, Option<Seq<char>>)>,
    second: Seq<(Seq<char>, Option<Seq<char>>)>,
)
    ensures
        Input::with_block(config, attrs, CanonicalMetaView { name, values: first + second })
            == match Input::with_block(config, attrs, CanonicalMetaView { name, values: first }) {
            Ok(between) => Input::with_block(
                between,
                attrs,
                CanonicalMetaView { name, values: second },
            ),
            Err(failure) => Err(failure),
        },
{
    if name == "Clone"@ {
        let start = InputCloneView {
            rustc_copy_clone_marker: crate::input::has_copy_clone_marker(attrs),
            ..crate::input::or_fresh(config.clone, InputCloneView::fresh())
        };
        options_in_two_parts::<InputClone>(start, first, second);
        options_keep_the_marker(start, first);
    } else if name == "Copy"@ {
        let before = crate::input::or_fresh(config.copy, InputCopyView::fresh());
        let start = InputCopyView {
            derives_clone: before.derives_clone || crate::input::has_derive_clone(attrs),
            ..before
        };
        options_in_two_parts::<InputCopy>(start, first, second);
        options_keep_the_derive(start, first);
    } else if name == "Debug"@ {
        options_in_two_parts::<InputDebug>(
            crate::input::or_fresh(config.debug, InputDebugView::fresh()),
            first,
            second,
        );
    } else if name == "Default"@ {
        options_in_two_parts::<InputDefault>(
            crate::input::or_fresh(config.default, InputDefaultView::fresh()),
            first,
            second,
        );
    } else if name == "Eq"@ {
        options_in_two_parts::<InputEq>(
            crate::input::or_fresh(config.eq, crate::input::InputEqView::fresh()),
            first,
            second,
        );
    } else if name == "Hash"@ {
        options_in_two_parts::<InputHash>(
            crate::input::or_fresh(config.hash, crate::input::InputHashView::fresh()),
            first,
            second,
        );
    } else if name == "PartialEq"@ {
        options_in_two_parts::<InputPartialEq>(
            crate::input::or_fresh(config.partial_eq, InputPartialEqView::fresh()),
            first,
            second,
        );
    }
}

/// Two blocks of one capability on a field come to what one block with the
/// options of both, in their order, comes to. That holds of the failure too,
/// where an option is refused.
pub proof fn blocks_of_a_field_merge(
    config: FieldView,
    attrs: Seq<Attribute>,
    name: Seq<char>,
    first: Seq<(Seq<char>, Option<Seq<char>>)>,
    second: Seq<(Seq<char>, Option<Seq<char>>)>,
)
    ensures
        Field::with_block(config, attrs, CanonicalMetaView { name, values: first + second })
            == match Field::with_block(config, attrs, CanonicalMetaView { name, values: first }) {
            Ok(between) => Field::with_block(
                between,
                attrs,
                CanonicalMetaView { name, values: second },
            ),
            Err(failure) => Err(failure),
        },
{
    if name == "Clone"@ {
        options_in_two_parts::<FieldClone>(config.clone, first, second);
    } else if name == "Copy"@ {
        options_in_two_parts::<BoundList>(config.copy_bound, first, second);
    } else if name == "Debug"@ {
        options_in_two_parts::<FieldDebug>(config.debug, first, second);
    } else if name == "Default"@ {
        options_in_two_parts::<FieldDefault>(config.default, first, second);
    } else if name == "Eq"@ {
        options_in_two_parts::<BoundList>(config.eq_bound, first, second);
    } else if name == "Hash"@ {
        options_in_two_parts::<FieldHash>(config.hash, first, second);
    } else if name == "PartialEq"@ {
        options_in_two_parts::<FieldPartialEq>(config.partial_eq, first, second);
    }
}

/// Whether `merged` is a block of the capability that `first` and `second`
/// both name, with the options of `first` followed by those of `second`.
pub open spec fn merges(first: NestedMeta, second: NestedMeta, merged: NestedMeta) -> bool {
    &&& canonical(first) matches Ok(one)
    &&& canonical(second) matches Ok(two)
    &&& canonical(merged) matches Ok(both)
    &&& one.name == both.name
    &&& two.name == both.name
    &&& both.values == one.values + two.values
}

/// Annotating a type twice with one capability comes to annotating it once
/// with the options of both blocks.
pub proof fn annotating_a_type_twice(
    config: InputView,
    attrs: Seq<Attribute>,
    first: NestedMeta,
    second: NestedMeta,
    merged: NestedMeta,
)
    requires
        merges(first, second, merged),
    ensures
        with_entries::<Input>(config, attrs, seq![first, second]) == with_entries::<Input>(
            config,
            attrs,
            seq![merged],
        ),
{
    let one = canonical(first)->Ok_0;
    let two = canonical(second)->Ok_0;
    blocks_of_a_type_merge(config, attrs, one.name, one.values, two.values);
    let twice = seq![first, second];
    assert(twice.skip(1) =~= seq![second]);
    assert(seq![second].skip(1) =~= Seq::<NestedMeta>::empty());
    assert(seq![merged].skip(1) =~= Seq::<NestedMeta>::empty());
    reveal_with_fuel(with_entries, 3);
}

/// Annotating a field twice with one capability comes to annotating it once
/// with the options of both blocks.
pub proof fn annotating_a_field_twice(
    config: FieldView,
    attrs: Seq<Attribute>,
    first: NestedMeta,
    second: NestedMeta,
    merged: NestedMeta,
)
    requires
        merges(first, second, merged),
    ensures
        with_entries::<Field>(config, attrs, seq![first, second]) == with_entries::<Field>(
            config,
            attrs,
            seq![merged],
        ),
{
    let one = canonical(first)->Ok_0;
    let two = canonical(second)->Ok_0;
    blocks_of_a_field_merge(config, attrs, one.name, one.values, two.values);
    let twice = seq![first, second];
    assert(twice.skip(1) =~= seq![second]);
    assert(seq![second].skip(1) =~= Seq::<NestedMeta>::empty());
    assert(seq![merged].skip(1) =~= Seq::<NestedMeta>::empty());
    reveal_with_fuel(with_entries, 3);
}

/// Two `bound` options with payloads that are not empty, both of which `syn`
/// reads, add the predicates of both to the list, those of the first before
/// those of the second.
pub proof fn bounds_accumulate(
    bounds: Option<Seq<syn::WherePredicate>>,
    first: Seq<char>,
    second: Seq<char>,
)
    requires
        first.len() > 0,
        second.len() > 0,
    ensures
        where_clause_syntax("where "@ + first) matches Ok(one) ==> where_clause_syntax(
            "where "@ + second,
        ) matches Ok(two) ==> {
            &&& bound_added(bounds, Some(first)) == Ok::<Option<Seq<syn::WherePredicate>>, Failure>(
                Some(fragments(bounds) + one),
            )
            &&& bound_added(Some(fragments(bounds) + one), Some(second)) == Ok::<
                Option<Seq<syn::WherePredicate>>,
                Failure,
            >(Some(fragments(bounds) + one + two))
        },
{
}

/// A `bound` option with an empty payload adds no fragment to the list.
pub proof fn empty_bound_adds_nothing(bounds: Option<Seq<syn::WherePredicate>>)
    ensures
        bound_added(bounds, Some(Seq::empty())) is Ok,
        fragments(bound_added(bounds, Some(Seq::empty()))->Ok_0) == fragments(bounds),
{
}

/// A toggle without a payload takes its default, the payload `true` sets it,
/// the payload `false` clears it, and any other payload is refused.
pub proof fn toggle_payloads(text: Seq<char>, default: bool, name: Seq<char>)
    ensures
        boolean_value(None, default, name) == Ok::<bool, Failure>(default),
        boolean_value(Some("true"@), default, name) == Ok::<bool, Failure>(true),
        boolean_value(Some("false"@), default, name) == Ok::<bool, Failure>(false),
        text != "true"@ && text != "false"@ ==> boolean_value(Some(text), default, name) == Err::<
            bool,
            Failure,
        >(Failure::InvalidValue(name)),
{
    reveal_strlit("true");
    reveal_strlit("false");
    assert("true"@ != "false"@) by {
        assert("true"@.len() != "false"@.len());
    }
}

/// Every toggle that is written without a payload is set: `clone_from`,
/// `transparent`, `new` and `feature_allow_slow_enum` on a type, and `ignore`
/// on a field, for `Debug`, `Hash` and `PartialEq`.
pub proof fn bare_toggles_are_set(
    clone: InputCloneView,
    debug: InputDebugView,
    default: InputDefaultView,
    partial_eq: InputPartialEqView,
    field_debug: FieldDebugView,
    field_hash: FieldHashView,
    field_partial_eq: FieldPartialEqView,
)
    ensures
        InputClone::with_option(clone, "clone_from"@, None) == Ok::<InputCloneView, Failure>(
            InputCloneView { clone_from: true, ..clone },
        ),
        InputDebug::with_option(debug, "transparent"@, None) == Ok::<InputDebugView, Failure>(
            InputDebugView { transparent: true, ..debug },
        ),
        InputDefault::with_option(default, "new"@, None) == Ok::<InputDefaultView, Failure>(
            InputDefaultView { new: true, ..default },
        ),
        InputPartialEq::with_option(partial_eq, "feature_allow_slow_enum"@, None) == Ok::<
            InputPartialEqView,
            Failure,
        >(InputPartialEqView { on_enum: true, ..partial_eq }),
        FieldDebug::with_option(field_debug, "ignore"@, None) == Ok::<FieldDebugView, Failure>(
            FieldDebugView { ignore: true, ..field_debug },
        ),
        FieldHash::with_option(field_hash, "ignore"@, None) == Ok::<FieldHashView, Failure>(
            FieldHashView { ignore: true, ..field_hash },
        ),
        FieldPartialEq::with_option(field_partial_eq, "ignore"@, None) == Ok::<
            FieldPartialEqView,
            Failure,
        >(FieldPartialEqView { ignore: true, ..field_partial_eq }),
{
    reveal_strlit("bound");
    reveal_strlit("clone_from");
    reveal_strlit("transparent");
    reveal_strlit("new");
    reveal_strlit("feature_allow_slow_enum");
    reveal_strlit("ignore");
    reveal_strlit("format_with");
    reveal_strlit("hash_with");
    reveal_strlit("compare_with");
    assert("bound"@.len() == 5);
    assert("ignore"@[0] != "bound"@[0]);
}

/// Whether `name` is one of the seven capabilities.
pub open spec fn is_capability(name: Seq<char>) -> bool {
    ||| name == "Clone"@
    ||| name == "Copy"@
    ||| name == "Debug"@
    ||| name == "Default"@
    ||| name == "Eq"@
    ||| name == "Hash"@
    ||| name == "PartialEq"@
}

/// A block that names none of the seven capabilities is refused as an unknown
/// trait, on a type and on a field.
pub proof fn unknown_capability_is_refused(
    input: InputView,
    field: FieldView,
    attrs: Seq<Attribute>,
    block: CanonicalMetaView,
)
    requires
        !is_capability(block.name),
    ensures
        Input::with_block(input, attrs, block) == Err::<InputView, Failure>(
            Failure::UnknownTrait(block.name),
        ),
        Field::with_block(field, attrs, block) == Err::<FieldView, Failure>(
            Failure::UnknownTrait(block.name),
        ),
{
}

/// Whether `name` is an option of the capability `capability` on a type.
pub open spec fn is_type_option(capability: Seq<char>, name: Seq<char>) -> bool {
    ||| name == "bound"@
    ||| capability == "Clone"@ && name == "clone_from"@
    ||| capability == "Debug"@ && name == "transparent"@
    ||| capability == "Default"@ && name == "new"@
    ||| capability == "PartialEq"@ && name == "feature_allow_slow_enum"@
}

/// Whether `name` is an option of the capability `capability` on a field.
pub open spec fn is_field_option(capability: Seq<char>, name: Seq<char>) -> bool {
    ||| name == "bound"@
    ||| capability == "Clone"@ && name == "clone_with"@
    ||| capability == "Debug"@ && (name == "format_with"@ || name == "ignore"@)
    ||| capability == "Default"@ && name == "value"@
    ||| capability == "Hash"@ && (name == "hash_with"@ || name == "ignore"@)
    ||| capability == "PartialEq"@ && (name == "compare_with"@ || name == "ignore"@)
}

/// A block of a capability that starts with an option which the capability
/// does not have is refused as holding an unknown attribute, on a type and on
/// a field.
pub proof fn unknown_option_is_refused(
    input: InputView,
    field: FieldView,
    attrs: Seq<Attribute>,
    block: CanonicalMetaView,
)
    requires
        is_capability(block.name),
        block.values.len() > 0,
    ensures
        !is_type_option(block.name, block.values[0].0) ==> Input::with_block(input, attrs, block)
            == Err::<InputView, Failure>(Failure::UnknownAttribute(block.values[0].0)),
        !is_field_option(block.name, block.values[0].0) ==> Field::with_block(field, attrs, block)
            == Err::<FieldView, Failure>(Failure::UnknownAttribute(block.values[0].0)),
{
}

/// The entries of a block's list are read one by one: where each is of the
/// form `name = "payload"`, each gives its option, in the same place; else the
/// failure is that of the first entry that is not.
pub proof fn named_values_entry_by_entry(entries: Seq<NestedMeta>)
    ensures
        match named_values(entries) {
            Ok(values) => {
                &&& values.len() == entries.len()
                &&& forall|i: int|
                    0 <= i < entries.len() ==> named_value(#[trigger] entries[i]) == Ok::<
                        (Seq<char>, Option<Seq<char>>),
                        Failure,
                    >(values[i])
            },
            Err(failure) => exists|k: int|
                {
                    &&& 0 <= k < entries.len()
                    &&& #[trigger] named_value(entries[k]) == Err::<
                        (Seq<char>, Option<Seq<char>>),
                        Failure,
                    >(failure)
                    &&& forall|j: int| 0 <= j < k ==> named_value(#[trigger] entries[j]) is Ok
                },
        },
    decreases entries.len(),
{
    if entries.len() > 0 {
        let rest = entries.skip(1);
        named_values_entry_by_entry(rest);
        match named_value(entries[0]) {
            Err(failure) => {
                assert(named_value(entries[0]) == Err::<(Seq<char>, Option<Seq<char>>), Failure>(
                    failure,
                ));
            },
            Ok(first) => match named_values(rest) {
                Ok(more) => {
                    let values = seq![first] + more;
                    assert forall|i: int| 0 <= i < entries.len() implies named_value(
                        #[trigger] entries[i],
                    ) == Ok::<(Seq<char>, Option<Seq<char>>), Failure>(values[i]) by {
                        if i > 0 {
                            assert(entries[i] == rest[i - 1]);
                            assert(values[i] == more[i - 1]);
                        }
                    }
                },
                Err(failure) => {
                    let k = choose|k: int|
                        {
                            &&& 0 <= k < rest.len()
                            &&& #[trigger] named_value(rest[k]) == Err::<
                                (Seq<char>, Option<Seq<char>>),
                                Failure,
                            >(failure)
                            &&& forall|j: int|
                                0 <= j < k ==> named_value(#[trigger] rest[j]) is Ok
                        };
                    assert(rest[k] == entries[k + 1]);
                    assert forall|j: int| 0 <= j < k + 1 implies named_value(
                        #[trigger] entries[j],
                    ) is Ok by {
                        if j > 0 {
                            assert(entries[j] == rest[j - 1]);
                        }
                    }
                    assert(named_value(entries[k + 1]) == Err::<
                        (Seq<char>, Option<Seq<char>>),
                        Failure,
                    >(failure));
                },
            },
        }
    }
}

/// An option that needs a payload and has none is refused under its own
/// name: `bound` in every block, the function paths and `value` on a field.
pub proof fn missing_payload_is_refused(
    bounds: Option<Seq<syn::WherePredicate>>,
    clone: FieldCloneView,
    debug: FieldDebugView,
    default: FieldDefaultView,
    hash: FieldHashView,
    partial_eq: FieldPartialEqView,
    name: Seq<char>,
)
    ensures
        bound_added(bounds, None) == Err::<Option<Seq<syn::WherePredicate>>, Failure>(
            Failure::NeedsValue("bound"@),
        ),
        path_value(name, None) == Err::<syn::Path, Failure>(Failure::NeedsValue(name)),
        expr_value(name, None) == Err::<syn::Expr, Failure>(Failure::NeedsValue(name)),
        FieldClone::with_option(clone, "clone_with"@, None) == Err::<FieldCloneView, Failure>(
            Failure::NeedsValue("clone_with"@),
        ),
        FieldDebug::with_option(debug, "format_with"@, None) == Err::<FieldDebugView, Failure>(
            Failure::NeedsValue("format_with"@),
        ),
        FieldDefault::with_option(default, "value"@, None) == Err::<FieldDefaultView, Failure>(
            Failure::NeedsValue("value"@),
        ),
        FieldHash::with_option(hash, "hash_with"@, None) == Err::<FieldHashView, Failure>(
            Failure::NeedsValue("hash_with"@),
        ),
        FieldPartialEq::with_option(partial_eq, "compare_with"@, None) == Err::<
            FieldPartialEqView,
            Failure,
        >(Failure::NeedsValue("compare_with"@)),
{
    reveal_strlit("bound");
    reveal_strlit("clone_with");
    reveal_strlit("format_with");
    reveal_strlit("value");
    reveal_strlit("hash_with");
    reveal_strlit("compare_with");
    assert("bound"@.len() == 5);
}

} // verus!
