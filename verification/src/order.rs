//! What the order of options and of blocks changes, and what it leaves alone.

use vstd::prelude::*;
use vstd::seq_lib::lemma_multiset_commutative;
use crate::dispatch::Config;
use crate::failure::Failure;
use crate::field::{
    Field, FieldClone, FieldDebug, FieldDefault, FieldHash, FieldPartialEq, FieldView,
};
use crate::input::{
    Input, InputClone, InputCloneView, InputCopy, InputCopyView, InputDebug, InputDebugView,
    InputDefault, InputDefaultView, InputEq, InputEqView, InputHash, InputHashView,
    InputPartialEq, InputPartialEqView, InputView, has_copy_clone_marker, has_derive_clone,
    or_fresh,
};
use crate::laws::{blocks_of_a_field_merge, blocks_of_a_type_merge, options_in_two_parts};
use crate::meta::{Attribute, CanonicalMetaView};
use crate::options::{BoundList, OptionGroup, bound_added, fragments, with_options};
use crate::syntax::where_clause_syntax;

verus! {

/// The predicates that one option adds to the bound list: those of its
/// payload where it is a `bound` whose payload `syn` reads, none otherwise.
pub open spec fn added_by(name: Seq<char>, value: Option<Seq<char>>) -> Seq<syn::WherePredicate> {
    if name == "bound"@ && value is Some && value->0.len() > 0 {
        match where_clause_syntax("where "@ + value->0) {
            Ok(predicates) => predicates,
            Err(_) => Seq::empty(),
        }
    } else {
        Seq::empty()
    }
}

/// The predicates that the options of a list add to the bound list, in the
/// order of the options.
pub open spec fn added_fragments(options: Seq<(Seq<char>, Option<Seq<char>>)>) -> Seq<
    syn::WherePredicate,
>
    decreases options.len(),
{
    if options.len() == 0 {
        Seq::empty()
    } else {
        added_by(options[0].0, options[0].1) + added_fragments(options.skip(1))
    }
}

/// Whether the bound list of a group changes by its option `bound` alone, and
/// by that as [`bound_added`] says.
pub open spec fn bound_alone_changes_bounds<G: OptionGroup>() -> bool {
    forall|group: G::V, name: Seq<char>, value: Option<Seq<char>>|
        #[trigger] G::with_option(group, name, value) matches Ok(after) ==> if name == "bound"@ {
            bound_added(G::bounds(group), value) == Ok::<Option<Seq<syn::WherePredicate>>, Failure>(
                G::bounds(after),
            )
        } else {
            G::bounds(after) == G::bounds(group)
        }
}

/// Whether a group takes or refuses an option whatever the group holds.
pub open spec fn takes_alike<G: OptionGroup>() -> bool {
    forall|one: G::V, other: G::V, name: Seq<char>, value: Option<Seq<char>>|
        #![trigger G::with_option(one, name, value), G::with_option(other, name, value)]
        G::with_option(one, name, value) is Ok ==> G::with_option(other, name, value) is Ok
}

/// Whether two options of different names, both of which the group takes,
/// leave the same behind in either order.
pub open spec fn options_commute<G: OptionGroup>() -> bool {
    forall|
        group: G::V,
        name: Seq<char>,
        value: Option<Seq<char>>,
        other_name: Seq<char>,
        other_value: Option<Seq<char>>,
    |
        #![trigger G::with_option(group, name, value), G::with_option(group, other_name, other_value)]
        name != other_name ==> match (
            G::with_option(group, name, value),
            G::with_option(group, other_name, other_value),
        ) {
            (Ok(one), Ok(other)) => G::with_option(one, other_name, other_value)
                == G::with_option(other, name, value),
            _ => true,
        }
}

/// Whether the options of a group do not depend on one another.
pub open spec fn independent<G: OptionGroup>() -> bool {
    &&& bound_alone_changes_bounds::<G>()
    &&& takes_alike::<G>()
    &&& options_commute::<G>()
}

/// The options of every record of a type are independent of one another.
pub proof fn options_of_a_type_are_independent()
    ensures
        independent::<InputClone>(),
        independent::<InputCopy>(),
        independent::<InputDebug>(),
        independent::<InputDefault>(),
        independent::<InputEq>(),
        independent::<InputHash>(),
        independent::<InputPartialEq>(),
{
}

/// The options of every record of a field are independent of one another.
pub proof fn options_of_a_field_are_independent()
    ensures
        independent::<FieldClone>(),
        independent::<BoundList>(),
        independent::<FieldDebug>(),
        independent::<FieldDefault>(),
        independent::<FieldHash>(),
        independent::<FieldPartialEq>(),
{
}

/// Whether two outcomes are the same record, or are both a failure.
pub open spec fn same_outcome<V>(left: Result<V, Failure>, right: Result<V, Failure>) -> bool {
    match (left, right) {
        (Ok(one), Ok(other)) => one == other,
        (Err(_), Err(_)) => true,
        _ => false,
    }
}

/// Whether no option of the one list has the name of an option of the other.
pub open spec fn share_no_name(
    first: Seq<(Seq<char>, Option<Seq<char>>)>,
    second: Seq<(Seq<char>, Option<Seq<char>>)>,
) -> bool {
    forall|i: int, j: int|
        0 <= i < first.len() && 0 <= j < second.len() ==> (#[trigger] first[i]).0 != (
        #[trigger] second[j]).0
}

/// Whether two bound lists hold the same fragments, each as often in the one
/// as in the other.
pub open spec fn same_fragments(
    left: Option<Seq<syn::WherePredicate>>,
    right: Option<Seq<syn::WherePredicate>>,
) -> bool {
    fragments(left).to_multiset() == fragments(right).to_multiset()
}

/// What the options of two lists add to the bound list is what those of the
/// first add, followed by what those of the second add.
pub proof fn fragments_of_two_parts(
    first: Seq<(Seq<char>, Option<Seq<char>>)>,
    second: Seq<(Seq<char>, Option<Seq<char>>)>,
)
    ensures
        added_fragments(first + second) == added_fragments(first) + added_fragments(second),
    decreases first.len(),
{
    if first.len() == 0 {
        assert(first + second =~= second);
        assert(added_fragments(first) + added_fragments(second) =~= added_fragments(second));
    } else {
        assert((first + second)[0] == first[0]);
        assert((first + second).skip(1) =~= first.skip(1) + second);
        fragments_of_two_parts(first.skip(1), second);
        assert(added_fragments(first + second) =~= added_fragments(first) + added_fragments(
            second,
        ));
    }
}

/// The bound list after the options of a block is the list from before,
/// followed by the predicates of every `bound` payload, in the order of the
/// options.
pub proof fn bounds_after_options<G: OptionGroup>(
    group: G::V,
    options: Seq<(Seq<char>, Option<Seq<char>>)>,
)
    requires
        bound_alone_changes_bounds::<G>(),
    ensures
        with_options::<G>(group, options) matches Ok(after) ==> fragments(G::bounds(after))
            == fragments(G::bounds(group)) + added_fragments(options),
    decreases options.len(),
{
    if options.len() == 0 {
        assert(fragments(G::bounds(group)) + added_fragments(options) =~= fragments(
            G::bounds(group),
        ));
    } else if let Ok(next) = G::with_option(group, options[0].0, options[0].1) {
        bounds_after_options::<G>(next, options.skip(1));
        let before = fragments(G::bounds(group));
        let added = added_by(options[0].0, options[0].1);
        assert(fragments(G::bounds(next)) =~= before + added);
        if let Ok(after) = with_options::<G>(next, options.skip(1)) {
            assert((before + added) + added_fragments(options.skip(1)) =~= before + (added
                + added_fragments(options.skip(1))));
        }
    }
}

/// Whether the group takes every option of the list, each by itself.
pub open spec fn takes_each<G: OptionGroup>(
    group: G::V,
    options: Seq<(Seq<char>, Option<Seq<char>>)>,
) -> bool {
    forall|i: int|
        0 <= i < options.len() ==> G::with_option(
            group,
            (#[trigger] options[i]).0,
            options[i].1,
        ) is Ok
}

/// A list of options is taken where each of its options is taken by itself.
pub proof fn taken_one_by_one<G: OptionGroup>(
    group: G::V,
    probe: G::V,
    options: Seq<(Seq<char>, Option<Seq<char>>)>,
)
    requires
        takes_alike::<G>(),
    ensures
        with_options::<G>(group, options) is Ok <==> takes_each::<G>(probe, options),
    decreases options.len(),
{
    if options.len() > 0 {
        let first = options[0];
        let rest = options.skip(1);
        assert(G::with_option(group, first.0, first.1) is Ok <==> G::with_option(
            probe,
            first.0,
            first.1,
        ) is Ok);
        match G::with_option(group, first.0, first.1) {
            Ok(next) => {
                taken_one_by_one::<G>(next, probe, rest);
                if takes_each::<G>(probe, options) {
                    assert forall|i: int| 0 <= i < rest.len() implies G::with_option(
                        probe,
                        (#[trigger] rest[i]).0,
                        rest[i].1,
                    ) is Ok by {
                        assert(rest[i] == options[i + 1]);
                    }
                }
                if takes_each::<G>(probe, rest) {
                    assert forall|i: int| 0 <= i < options.len() implies G::with_option(
                        probe,
                        (#[trigger] options[i]).0,
                        options[i].1,
                    ) is Ok by {
                        if i > 0 {
                            assert(options[i] == rest[i - 1]);
                        }
                    }
                }
            },
            Err(_) => {
                assert(options[0] == first);
            },
        }
    }
}

/// An option that shares its name with none of a list can be moved behind
/// the list.
proof fn option_moves_behind<G: OptionGroup>(
    group: G::V,
    option: (Seq<char>, Option<Seq<char>>),
    list: Seq<(Seq<char>, Option<Seq<char>>)>,
)
    requires
        independent::<G>(),
        forall|j: int| 0 <= j < list.len() ==> (#[trigger] list[j]).0 != option.0,
    ensures
        same_outcome(
            with_options::<G>(group, seq![option] + list),
            with_options::<G>(group, list + seq![option]),
        ),
    decreases list.len(),
{
    let ahead = seq![option] + list;
    let behind = list + seq![option];
    if list.len() == 0 {
        assert(ahead =~= behind);
    } else {
        let next = list[0];
        let rest = list.skip(1);
        assert(ahead[0] == option);
        assert(ahead.skip(1) =~= list);
        assert(behind[0] == next);
        assert(behind.skip(1) =~= rest + seq![option]);
        assert(next.0 != option.0);
        let moved = G::with_option(group, option.0, option.1);
        let stayed = G::with_option(group, next.0, next.1);
        assert(with_options::<G>(group, ahead) == match moved {
            Ok(after_option) => with_options::<G>(after_option, list),
            Err(failure) => Err(failure),
        });
        assert(with_options::<G>(group, behind) == match stayed {
            Ok(after_next) => with_options::<G>(after_next, rest + seq![option]),
            Err(failure) => Err(failure),
        });
        match stayed {
            Ok(after_next) => {
                assert forall|j: int| 0 <= j < rest.len() implies (#[trigger] rest[j]).0
                    != option.0 by {
                    assert(rest[j] == list[j + 1]);
                }
                option_moves_behind::<G>(after_next, option, rest);
                let inner = seq![option] + rest;
                assert(inner[0] == option);
                assert(inner.skip(1) =~= rest);
                let late = G::with_option(after_next, option.0, option.1);
                assert(with_options::<G>(after_next, inner) == match late {
                    Ok(after_both) => with_options::<G>(after_both, rest),
                    Err(failure) => Err(failure),
                });
                assert(late is Ok <==> moved is Ok);
                match moved {
                    Ok(after_option) => {
                        let early = G::with_option(after_option, next.0, next.1);
                        assert(with_options::<G>(after_option, list) == match early {
                            Ok(after_both) => with_options::<G>(after_both, rest),
                            Err(failure) => Err(failure),
                        });
                        assert(early is Ok <==> stayed is Ok);
                        assert(early == late);
                    },
                    Err(_) => {},
                }
            },
            Err(_) => {
                match moved {
                    Ok(after_option) => {
                        let early = G::with_option(after_option, next.0, next.1);
                        assert(with_options::<G>(after_option, list) == match early {
                            Ok(after_both) => with_options::<G>(after_both, rest),
                            Err(failure) => Err(failure),
                        });
                        assert(early is Ok ==> stayed is Ok);
                    },
                    Err(_) => {},
                }
            },
        }
    }
}

/// Two lists of options that share no name can be read in either order: both
/// orders are refused, or both leave the same record.
pub proof fn lists_in_either_order<G: OptionGroup>(
    group: G::V,
    first: Seq<(Seq<char>, Option<Seq<char>>)>,
    second: Seq<(Seq<char>, Option<Seq<char>>)>,
)
    requires
        independent::<G>(),
        share_no_name(first, second),
    ensures
        same_outcome(
            with_options::<G>(group, first + second),
            with_options::<G>(group, second + first),
        ),
    decreases first.len(),
{
    if first.len() == 0 {
        assert(first + second =~= second);
        assert(second + first =~= second);
    } else {
        let option = first[0];
        let rest = first.skip(1);
        assert((first + second)[0] == option);
        assert((first + second).skip(1) =~= rest + second);
        let moved = seq![option] + (second + rest);
        assert(moved[0] == option);
        assert(moved.skip(1) =~= second + rest);
        assert(moved =~= (seq![option] + second) + rest);
        assert(second + first =~= (second + seq![option]) + rest);
        if let Ok(next) = G::with_option(group, option.0, option.1) {
            assert forall|i: int, j: int| 0 <= i < rest.len() && 0 <= j < second.len() implies (
            #[trigger] rest[i]).0 != (#[trigger] second[j]).0 by {
                assert(rest[i] == first[i + 1]);
            }
            lists_in_either_order::<G>(next, rest, second);
        }
        assert(same_outcome(with_options::<G>(group, first + second), with_options::<G>(group, moved)));
        options_in_two_parts::<G>(group, seq![option] + second, rest);
        options_in_two_parts::<G>(group, second + seq![option], rest);
        assert forall|j: int| 0 <= j < second.len() implies (#[trigger] second[j]).0
            != option.0 by {
            assert(first[0] == option);
        }
        option_moves_behind::<G>(group, option, second);
    }
}

/// Two lists of options, read one after the other in either order: both
/// orders are taken or both refused; where they are taken, the bound lists
/// hold the same fragments; and where the lists share no name, the records
/// are the same.
pub proof fn options_in_either_order<G: OptionGroup>(
    group: G::V,
    first: Seq<(Seq<char>, Option<Seq<char>>)>,
    second: Seq<(Seq<char>, Option<Seq<char>>)>,
)
    requires
        independent::<G>(),
    ensures
        with_options::<G>(group, first + second) is Ok <==> with_options::<G>(
            group,
            second + first,
        ) is Ok,
        with_options::<G>(group, first + second) matches Ok(one) ==> with_options::<G>(
            group,
            second + first,
        ) matches Ok(other) ==> same_fragments(G::bounds(one), G::bounds(other)),
        share_no_name(first, second) ==> same_outcome(
            with_options::<G>(group, first + second),
            with_options::<G>(group, second + first),
        ),
{
    let forth = first + second;
    let back = second + first;
    taken_one_by_one::<G>(group, group, forth);
    taken_one_by_one::<G>(group, group, back);
    if takes_each::<G>(group, forth) {
        assert forall|i: int| 0 <= i < back.len() implies G::with_option(
            group,
            (#[trigger] back[i]).0,
            back[i].1,
        ) is Ok by {
            if i < second.len() {
                assert(back[i] == forth[first.len() + i]);
            } else {
                assert(back[i] == forth[i - second.len()]);
            }
        }
    }
    if takes_each::<G>(group, back) {
        assert forall|i: int| 0 <= i < forth.len() implies G::with_option(
            group,
            (#[trigger] forth[i]).0,
            forth[i].1,
        ) is Ok by {
            if i < first.len() {
                assert(forth[i] == back[second.len() + i]);
            } else {
                assert(forth[i] == back[i - first.len()]);
            }
        }
    }
    bounds_after_options::<G>(group, forth);
    bounds_after_options::<G>(group, back);
    fragments_of_two_parts(first, second);
    fragments_of_two_parts(second, first);
    let before = fragments(G::bounds(group));
    let one = added_fragments(first);
    let two = added_fragments(second);
    lemma_multiset_commutative(before, one + two);
    lemma_multiset_commutative(before, two + one);
    lemma_multiset_commutative(one, two);
    lemma_multiset_commutative(two, one);
    assert(one.to_multiset().add(two.to_multiset()) =~= two.to_multiset().add(one.to_multiset()));
    if share_no_name(first, second) {
        lists_in_either_order::<G>(group, first, second);
    }
}

/// What two blocks of one capability come to: the first is read into the
/// configuration, and the second into what the first left.
pub open spec fn one_after_the_other<C: Config>(
    config: C::V,
    attrs: Seq<Attribute>,
    name: Seq<char>,
    first: Seq<(Seq<char>, Option<Seq<char>>)>,
    second: Seq<(Seq<char>, Option<Seq<char>>)>,
) -> Result<C::V, Failure> {
    match C::with_block(config, attrs, CanonicalMetaView { name, values: first }) {
        Ok(between) => C::with_block(between, attrs, CanonicalMetaView { name, values: second }),
        Err(failure) => Err(failure),
    }
}

/// Two blocks of one capability on a type, written in either order: both
/// orders are taken or both refused; where they are taken, every bound list
/// holds the same fragments after the one as after the other; and where the
/// blocks share no option name, the configurations are the same.
pub proof fn blocks_of_a_type_in_either_order(
    config: InputView,
    attrs: Seq<Attribute>,
    name: Seq<char>,
    first: Seq<(Seq<char>, Option<Seq<char>>)>,
    second: Seq<(Seq<char>, Option<Seq<char>>)>,
)
    ensures
        ({
            let forth = one_after_the_other::<Input>(config, attrs, name, first, second);
            let back = one_after_the_other::<Input>(config, attrs, name, second, first);
            &&& forth is Ok <==> back is Ok
            &&& forth matches Ok(one) ==> back matches Ok(other) ==> {
                &&& same_fragments(one.clone_bound(), other.clone_bound())
                &&& same_fragments(one.copy_bound(), other.copy_bound())
                &&& same_fragments(one.debug_bound(), other.debug_bound())
                &&& same_fragments(one.default_bound(), other.default_bound())
                &&& same_fragments(one.eq_bound(), other.eq_bound())
                &&& same_fragments(one.hash_bound(), other.hash_bound())
                &&& same_fragments(one.partial_eq_bound(), other.partial_eq_bound())
            }
            &&& share_no_name(first, second) ==> same_outcome(forth, back)
        }),
{
    blocks_of_a_type_merge(config, attrs, name, first, second);
    blocks_of_a_type_merge(config, attrs, name, second, first);
    options_of_a_type_are_independent();
    if name == "Clone"@ {
        let start = InputCloneView {
            rustc_copy_clone_marker: has_copy_clone_marker(attrs),
            ..or_fresh(config.clone, InputCloneView::fresh())
        };
        options_in_either_order::<InputClone>(start, first, second);
    } else if name == "Copy"@ {
        let before = or_fresh(config.copy, InputCopyView::fresh());
        let start = InputCopyView {
            derives_clone: before.derives_clone || has_derive_clone(attrs),
            ..before
        };
        options_in_either_order::<InputCopy>(start, first, second);
    } else if name == "Debug"@ {
        options_in_either_order::<InputDebug>(
            or_fresh(config.debug, InputDebugView::fresh()),
            first,
            second,
        );
    } else if name == "Default"@ {
        options_in_either_order::<InputDefault>(
            or_fresh(config.default, InputDefaultView::fresh()),
            first,
            second,
        );
    } else if name == "Eq"@ {
        options_in_either_order::<InputEq>(
            or_fresh(config.eq, InputEqView::fresh()),
            first,
            second,
        );
    } else if name == "Hash"@ {
        options_in_either_order::<InputHash>(
            or_fresh(config.hash, InputHashView::fresh()),
            first,
            second,
        );
    } else if name == "PartialEq"@ {
        options_in_either_order::<InputPartialEq>(
            or_fresh(config.partial_eq, InputPartialEqView::fresh()),
            first,
            second,
        );
    }
}

/// Two blocks of one capability on a field, written in either order: both
/// orders are taken or both refused; where they are taken, every bound list
/// holds the same fragments after the one as after the other; and where the
/// blocks share no option name, the configurations are the same.
pub proof fn blocks_of_a_field_in_either_order(
    config: FieldView,
    attrs: Seq<Attribute>,
    name: Seq<char>,
    first: Seq<(Seq<char>, Option<Seq<char>>)>,
    second: Seq<(Seq<char>, Option<Seq<char>>)>,
)
    ensures
        ({
            let forth = one_after_the_other::<Field>(config, attrs, name, first, second);
            let back = one_after_the_other::<Field>(config, attrs, name, second, first);
            &&& forth is Ok <==> back is Ok
            &&& forth matches Ok(one) ==> back matches Ok(other) ==> {
                &&& same_fragments(one.clone.bounds, other.clone.bounds)
                &&& same_fragments(one.copy_bound, other.copy_bound)
                &&& same_fragments(one.debug.bounds, other.debug.bounds)
                &&& same_fragments(one.default.bounds, other.default.bounds)
                &&& same_fragments(one.eq_bound, other.eq_bound)
                &&& same_fragments(one.hash.bounds, other.hash.bounds)
                &&& same_fragments(one.partial_eq.bounds, other.partial_eq.bounds)
            }
            &&& share_no_name(first, second) ==> same_outcome(forth, back)
        }),
{
    blocks_of_a_field_merge(config, attrs, name, first, second);
    blocks_of_a_field_merge(config, attrs, name, second, first);
    options_of_a_field_are_independent();
    if name == "Clone"@ {
        options_in_either_order::<FieldClone>(config.clone, first, second);
    } else if name == "Copy"@ {
        options_in_either_order::<BoundList>(config.copy_bound, first, second);
    } else if name == "Debug"@ {
        options_in_either_order::<FieldDebug>(config.debug, first, second);
    } else if name == "Default"@ {
        options_in_either_order::<FieldDefault>(config.default, first, second);
    } else if name == "Eq"@ {
        options_in_either_order::<BoundList>(config.eq_bound, first, second);
    } else if name == "Hash"@ {
        options_in_either_order::<FieldHash>(config.hash, first, second);
    } else if name == "PartialEq"@ {
        options_in_either_order::<FieldPartialEq>(config.partial_eq, first, second);
    }
}

} // verus!
