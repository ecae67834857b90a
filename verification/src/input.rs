//! The configuration of a type: for each capability, whether the type asks
//! for it and with which options.

use vstd::prelude::*;
use crate::dispatch::{Config, parse_attributes, with_attributes};
use crate::failure::{Failure, reports_view, unknown_attribute, unknown_trait};
use crate::meta::{Attribute, CanonicalMeta, CanonicalMetaView, Meta, NestedMeta};
use crate::options::{
    OptionGroup, as_slice, boolean_value, bound_added, bounds_view, parse_boolean_meta_item,
    parse_bound, parse_options, slice_view, with_options,
};
use crate::text::same_text;

verus! {

/// The `derivative` attributes on a type (`struct` or `enum`).
#[derive(Debug)]
pub struct Input {
    /// Whether `Clone` is present and its specific attributes.
    pub clone: Option<InputClone>,
    /// Whether `Copy` is present and its specific attributes.
    pub copy: Option<InputCopy>,
    /// Whether `Debug` is present and its specific attributes.
    pub debug: Option<InputDebug>,
    /// Whether `Default` is present and its specific attributes.
    pub default: Option<InputDefault>,
    /// Whether `Eq` is present and its specific attributes.
    pub eq: Option<InputEq>,
    /// Whether `Hash` is present and its specific attributes.
    pub hash: Option<InputHash>,
    /// Whether `PartialEq` is present and its specific attributes.
    pub partial_eq: Option<InputPartialEq>,
}

/// The `derivative(Clone(…))` attributes on a type.
#[derive(Debug)]
pub struct InputClone {
    /// The `bound` attribute if present and the corresponding bounds.
    bounds: Option<Vec<syn::WherePredicate>>,
    /// Whether the implementation should have an explicit `clone_from`.
    pub clone_from: bool,
    /// Whether the `rustc_copy_clone_marker` was found.
    pub rustc_copy_clone_marker: bool,
}

/// The `derivative(Copy(…))` attributes on a type.
#[derive(Debug)]
pub struct InputCopy {
    /// The `bound` attribute if present and the corresponding bounds.
    bounds: Option<Vec<syn::WherePredicate>>,
    /// Whether the type also derives `Clone` (`derive(Clone)`, not
    /// `derivative(Clone)`).
    derives_clone: bool,
}

/// The `derivative(Debug(…))` attributes on a type.
#[derive(Debug)]
pub struct InputDebug {
    /// The `bound` attribute if present and the corresponding bounds.
    bounds: Option<Vec<syn::WherePredicate>>,
    /// Whether the type is marked `transparent`.
    pub transparent: bool,
}

/// The `derivative(Default(…))` attributes on a type.
#[derive(Debug)]
pub struct InputDefault {
    /// The `bound` attribute if present and the corresponding bounds.
    bounds: Option<Vec<syn::WherePredicate>>,
    /// Whether the type is marked with `new`.
    pub new: bool,
}

/// The `derivative(Eq(…))` attributes on a type.
#[derive(Debug)]
pub struct InputEq {
    /// The `bound` attribute if present and the corresponding bounds.
    bounds: Option<Vec<syn::WherePredicate>>,
}

/// The `derivative(Hash(…))` attributes on a type.
#[derive(Debug)]
pub struct InputHash {
    /// The `bound` attribute if present and the corresponding bounds.
    bounds: Option<Vec<syn::WherePredicate>>,
}

/// The `derivative(PartialEq(…))` attributes on a type.
#[derive(Debug)]
pub struct InputPartialEq {
    /// The `bound` attribute if present and the corresponding bounds.
    bounds: Option<Vec<syn::WherePredicate>>,
    /// Whether `derivative(PartialEq)` is allowed on an enum.
    on_enum: bool,
}

/// [`Input`] as the contracts see it: every bound list a sequence of fragments.
pub struct InputView {
    pub clone: Option<InputCloneView>,
    pub copy: Option<InputCopyView>,
    pub debug: Option<InputDebugView>,
    pub default: Option<InputDefaultView>,
    pub eq: Option<InputEqView>,
    pub hash: Option<InputHashView>,
    pub partial_eq: Option<InputPartialEqView>,
}

/// [`InputClone`] as the contracts see it: every bound list a sequence of fragments.
pub struct InputCloneView {
    pub bounds: Option<Seq<syn::WherePredicate>>,
    pub clone_from: bool,
    pub rustc_copy_clone_marker: bool,
}

/// [`InputCopy`] as the contracts see it: every bound list a sequence of fragments.
pub struct InputCopyView {
    pub bounds: Option<Seq<syn::WherePredicate>>,
    pub derives_clone: bool,
}

/// [`InputDebug`] as the contracts see it: every bound list a sequence of fragments.
pub struct InputDebugView {
    pub bounds: Option<Seq<syn::WherePredicate>>,
    pub transparent: bool,
}

/// [`InputDefault`] as the contracts see it: every bound list a sequence of fragments.
pub struct InputDefaultView {
    pub bounds: Option<Seq<syn::WherePredicate>>,
    pub new: bool,
}

/// [`InputEq`] as the contracts see it: every bound list a sequence of fragments.
pub struct InputEqView {
    pub bounds: Option<Seq<syn::WherePredicate>>,
}

/// [`InputHash`] as the contracts see it: every bound list a sequence of fragments.
pub struct InputHashView {
    pub bounds: Option<Seq<syn::WherePredicate>>,
}

/// [`InputPartialEq`] as the contracts see it: every bound list a sequence of fragments.
pub struct InputPartialEqView {
    pub bounds: Option<Seq<syn::WherePredicate>>,
    pub on_enum: bool,
}

impl InputCloneView {
    /// The record of a capability that no block has been read into.
    pub open spec fn fresh() -> InputCloneView {
        InputCloneView { bounds: None, clone_from: false, rustc_copy_clone_marker: false }
    }
}

impl InputCopyView {
    /// The record of a capability that no block has been read into.
    pub open spec fn fresh() -> InputCopyView {
        InputCopyView { bounds: None, derives_clone: false }
    }
}

impl InputDebugView {
    /// The record of a capability that no block has been read into.
    pub open spec fn fresh() -> InputDebugView {
        InputDebugView { bounds: None, transparent: false }
    }
}

impl InputDefaultView {
    /// The record of a capability that no block has been read into.
    pub open spec fn fresh() -> InputDefaultView {
        InputDefaultView { bounds: None, new: false }
    }
}

impl InputEqView {
    /// The record of a capability that no block has been read into.
    pub open spec fn fresh() -> InputEqView {
        InputEqView { bounds: None }
    }
}

impl InputHashView {
    /// The record of a capability that no block has been read into.
    pub open spec fn fresh() -> InputHashView {
        InputHashView { bounds: None }
    }
}

impl InputPartialEqView {
    /// The record of a capability that no block has been read into.
    pub open spec fn fresh() -> InputPartialEqView {
        InputPartialEqView { bounds: None, on_enum: false }
    }
}

impl View for InputClone {
    type V = InputCloneView;

    closed spec fn view(&self) -> InputCloneView {
        InputCloneView {
            bounds: bounds_view(self.bounds),
            clone_from: self.clone_from,
            rustc_copy_clone_marker: self.rustc_copy_clone_marker,
        }
    }
}

impl View for InputCopy {
    type V = InputCopyView;

    closed spec fn view(&self) -> InputCopyView {
        InputCopyView { bounds: bounds_view(self.bounds), derives_clone: self.derives_clone }
    }
}

impl View for InputDebug {
    type V = InputDebugView;

    closed spec fn view(&self) -> InputDebugView {
        InputDebugView { bounds: bounds_view(self.bounds), transparent: self.transparent }
    }
}

impl View for InputDefault {
    type V = InputDefaultView;

    closed spec fn view(&self) -> InputDefaultView {
        InputDefaultView { bounds: bounds_view(self.bounds), new: self.new }
    }
}

impl View for InputEq {
    type V = InputEqView;

    closed spec fn view(&self) -> InputEqView {
        InputEqView { bounds: bounds_view(self.bounds) }
    }
}

impl View for InputHash {
    type V = InputHashView;

    closed spec fn view(&self) -> InputHashView {
        InputHashView { bounds: bounds_view(self.bounds) }
    }
}

impl View for InputPartialEq {
    type V = InputPartialEqView;

    closed spec fn view(&self) -> InputPartialEqView {
        InputPartialEqView { bounds: bounds_view(self.bounds), on_enum: self.on_enum }
    }
}

/// What is known of a capability that may be absent.
pub open spec fn present<G: View>(group: Option<G>) -> Option<G::V> {
    match group {
        Some(group) => Some(group@),
        None => None,
    }
}

impl View for Input {
    type V = InputView;

    open spec fn view(&self) -> InputView {
        InputView {
            clone: present(self.clone),
            copy: present(self.copy),
            debug: present(self.debug),
            default: present(self.default),
            eq: present(self.eq),
            hash: present(self.hash),
            partial_eq: present(self.partial_eq),
        }
    }
}

impl Default for InputClone {
    fn default() -> (group: Self)
        ensures
            group@ == InputCloneView::fresh(),
    {
        InputClone { bounds: None, clone_from: false, rustc_copy_clone_marker: false }
    }
}

impl Default for InputCopy {
    fn default() -> (group: Self)
        ensures
            group@ == InputCopyView::fresh(),
    {
        InputCopy { bounds: None, derives_clone: false }
    }
}

impl Default for InputDebug {
    fn default() -> (group: Self)
        ensures
            group@ == InputDebugView::fresh(),
    {
        InputDebug { bounds: None, transparent: false }
    }
}

impl Default for InputDefault {
    fn default() -> (group: Self)
        ensures
            group@ == InputDefaultView::fresh(),
    {
        InputDefault { bounds: None, new: false }
    }
}

impl Default for InputEq {
    fn default() -> (group: Self)
        ensures
            group@ == InputEqView::fresh(),
    {
        InputEq { bounds: None }
    }
}

impl Default for InputHash {
    fn default() -> (group: Self)
        ensures
            group@ == InputHashView::fresh(),
    {
        InputHash { bounds: None }
    }
}

impl Default for InputPartialEq {
    fn default() -> (group: Self)
        ensures
            group@ == InputPartialEqView::fresh(),
    {
        InputPartialEq { bounds: None, on_enum: false }
    }
}

impl Default for Input {
    fn default() -> (input: Self)
        ensures
            input@ == InputView::empty(),
    {
        Input {
            clone: None,
            copy: None,
            debug: None,
            default: None,
            eq: None,
            hash: None,
            partial_eq: None,
        }
    }
}

impl OptionGroup for InputClone {
    open spec fn bounds(group: InputCloneView) -> Option<Seq<syn::WherePredicate>> {
        group.bounds
    }

    open spec fn with_option(
        group: InputCloneView,
        name: Seq<char>,
        value: Option<Seq<char>>,
    ) -> Result<InputCloneView, Failure> {
        if name == "bound"@ {
            match bound_added(group.bounds, value) {
                Ok(bounds) => Ok(InputCloneView { bounds, ..group }),
                Err(failure) => Err(failure),
            }
        } else if name == "clone_from"@ {
            match boolean_value(value, true, "clone_from"@) {
                Ok(clone_from) => Ok(InputCloneView { clone_from, ..group }),
                Err(failure) => Err(failure),
            }
        } else {
            Err(Failure::UnknownAttribute(name))
        }
    }

    fn set_option(self, name: &str, value: Option<String>) -> (group: Result<Self, String>) {
        let mut group = self;
        if same_text(name, "bound") {
            match parse_bound(&mut group.bounds, value) {
                Ok(()) => Ok(group),
                Err(message) => Err(message),
            }
        } else if same_text(name, "clone_from") {
            match parse_boolean_meta_item(value, true, "clone_from") {
                Ok(clone_from) => {
                    group.clone_from = clone_from;
                    Ok(group)
                },
                Err(message) => Err(message),
            }
        } else {
            Err(unknown_attribute(name))
        }
    }
}

impl OptionGroup for InputCopy {
    open spec fn bounds(group: InputCopyView) -> Option<Seq<syn::WherePredicate>> {
        group.bounds
    }

    open spec fn with_option(
        group: InputCopyView,
        name: Seq<char>,
        value: Option<Seq<char>>,
    ) -> Result<InputCopyView, Failure> {
        if name == "bound"@ {
            match bound_added(group.bounds, value) {
                Ok(bounds) => Ok(InputCopyView { bounds, ..group }),
                Err(failure) => Err(failure),
            }
        } else {
            Err(Failure::UnknownAttribute(name))
        }
    }

    fn set_option(self, name: &str, value: Option<String>) -> (group: Result<Self, String>) {
        let mut group = self;
        if same_text(name, "bound") {
            match parse_bound(&mut group.bounds, value) {
                Ok(()) => Ok(group),
                Err(message) => Err(message),
            }
        } else {
            Err(unknown_attribute(name))
        }
    }
}

impl OptionGroup for InputDebug {
    open spec fn bounds(group: InputDebugView) -> Option<Seq<syn::WherePredicate>> {
        group.bounds
    }

    open spec fn with_option(
        group: InputDebugView,
        name: Seq<char>,
        value: Option<Seq<char>>,
    ) -> Result<InputDebugView, Failure> {
        if name == "bound"@ {
            match bound_added(group.bounds, value) {
                Ok(bounds) => Ok(InputDebugView { bounds, ..group }),
                Err(failure) => Err(failure),
            }
        } else if name == "transparent"@ {
            match boolean_value(value, true, "transparent"@) {
                Ok(transparent) => Ok(InputDebugView { transparent, ..group }),
                Err(failure) => Err(failure),
            }
        } else {
            Err(Failure::UnknownAttribute(name))
        }
    }

    fn set_option(self, name: &str, value: Option<String>) -> (group: Result<Self, String>) {
        let mut group = self;
        if same_text(name, "bound") {
            match parse_bound(&mut group.bounds, value) {
                Ok(()) => Ok(group),
                Err(message) => Err(message),
            }
        } else if same_text(name, "transparent") {
            match parse_boolean_meta_item(value, true, "transparent") {
                Ok(transparent) => {
                    group.transparent = transparent;
                    Ok(group)
                },
                Err(message) => Err(message),
            }
        } else {
            Err(unknown_attribute(name))
        }
    }
}

impl OptionGroup for InputDefault {
    open spec fn bounds(group: InputDefaultView) -> Option<Seq<syn::WherePredicate>> {
        group.bounds
    }

    open spec fn with_option(
        group: InputDefaultView,
        name: Seq<char>,
        value: Option<Seq<char>>,
    ) -> Result<InputDefaultView, Failure> {
        if name == "bound"@ {
            match bound_added(group.bounds, value) {
                Ok(bounds) => Ok(InputDefaultView { bounds, ..group }),
                Err(failure) => Err(failure),
            }
        } else if name == "new"@ {
            match boolean_value(value, true, "new"@) {
                Ok(new) => Ok(InputDefaultView { new, ..group }),
                Err(failure) => Err(failure),
            }
        } else {
            Err(Failure::UnknownAttribute(name))
        }
    }

    fn set_option(self, name: &str, value: Option<String>) -> (group: Result<Self, String>) {
        let mut group = self;
        if same_text(name, "bound") {
            match parse_bound(&mut group.bounds, value) {
                Ok(()) => Ok(group),
                Err(message) => Err(message),
            }
        } else if same_text(name, "new") {
            match parse_boolean_meta_item(value, true, "new") {
                Ok(new) => {
                    group.new = new;
                    Ok(group)
                },
                Err(message) => Err(message),
            }
        } else {
            Err(unknown_attribute(name))
        }
    }
}

impl OptionGroup for InputEq {
    open spec fn bounds(group: InputEqView) -> Option<Seq<syn::WherePredicate>> {
        group.bounds
    }

    open spec fn with_option(
        group: InputEqView,
        name: Seq<char>,
        value: Option<Seq<char>>,
    ) -> Result<InputEqView, Failure> {
        if name == "bound"@ {
            match bound_added(group.bounds, value) {
                Ok(bounds) => Ok(InputEqView { bounds }),
                Err(failure) => Err(failure),
            }
        } else {
            Err(Failure::UnknownAttribute(name))
        }
    }

    fn set_option(self, name: &str, value: Option<String>) -> (group: Result<Self, String>) {
        let mut group = self;
        if same_text(name, "bound") {
            match parse_bound(&mut group.bounds, value) {
                Ok(()) => Ok(group),
                Err(message) => Err(message),
            }
        } else {
            Err(unknown_attribute(name))
        }
    }
}

impl OptionGroup for InputHash {
    open spec fn bounds(group: InputHashView) -> Option<Seq<syn::WherePredicate>> {
        group.bounds
    }

    open spec fn with_option(
        group: InputHashView,
        name: Seq<char>,
        value: Option<Seq<char>>,
    ) -> Result<InputHashView, Failure> {
        if name == "bound"@ {
            match bound_added(group.bounds, value) {
                Ok(bounds) => Ok(InputHashView { bounds }),
                Err(failure) => Err(failure),
            }
        } else {
            Err(Failure::UnknownAttribute(name))
        }
    }

    fn set_option(self, name: &str, value: Option<String>) -> (group: Result<Self, String>) {
        let mut group = self;
        if same_text(name, "bound") {
            match parse_bound(&mut group.bounds, value) {
                Ok(()) => Ok(group),
                Err(message) => Err(message),
            }
        } else {
            Err(unknown_attribute(name))
        }
    }
}

impl OptionGroup for InputPartialEq {
    open spec fn bounds(group: InputPartialEqView) -> Option<Seq<syn::WherePredicate>> {
        group.bounds
    }

    open spec fn with_option(
        group: InputPartialEqView,
        name: Seq<char>,
        value: Option<Seq<char>>,
    ) -> Result<InputPartialEqView, Failure> {
        if name == "bound"@ {
            match bound_added(group.bounds, value) {
                Ok(bounds) => Ok(InputPartialEqView { bounds, ..group }),
                Err(failure) => Err(failure),
            }
        } else if name == "feature_allow_slow_enum"@ {
            match boolean_value(value, true, "feature_allow_slow_enum"@) {
                Ok(on_enum) => Ok(InputPartialEqView { on_enum, ..group }),
                Err(failure) => Err(failure),
            }
        } else {
            Err(Failure::UnknownAttribute(name))
        }
    }

    fn set_option(self, name: &str, value: Option<String>) -> (group: Result<Self, String>) {
        let mut group = self;
        if same_text(name, "bound") {
            match parse_bound(&mut group.bounds, value) {
                Ok(()) => Ok(group),
                Err(message) => Err(message),
            }
        } else if same_text(name, "feature_allow_slow_enum") {
            match parse_boolean_meta_item(value, true, "feature_allow_slow_enum") {
                Ok(on_enum) => {
                    group.on_enum = on_enum;
                    Ok(group)
                },
                Err(message) => Err(message),
            }
        } else {
            Err(unknown_attribute(name))
        }
    }
}

/// Whether the attribute is the marker `rustc_copy_clone_marker`: a path of
/// that one name, which neither starts with `::` nor has arguments.
pub open spec fn is_copy_clone_marker(attr: Attribute) -> bool {
    &&& !attr.path.global
    &&& attr.path.segments@.len() == 1
    &&& attr.path.segments@[0].ident@ == "rustc_copy_clone_marker"@
    &&& !attr.path.segments@[0].has_arguments
}

/// Whether one of the attributes is the marker `rustc_copy_clone_marker`.
pub open spec fn has_copy_clone_marker(attrs: Seq<Attribute>) -> bool {
    exists|i: int| 0 <= i < attrs.len() && is_copy_clone_marker(#[trigger] attrs[i])
}

/// Whether the entry names `Clone`.
pub open spec fn names_clone(entry: NestedMeta) -> bool {
    entry matches NestedMeta::Meta(meta) && meta.ident()@ == "Clone"@
}

/// Whether the attribute is a `derive` that lists `Clone`.
pub open spec fn is_derive_clone(attr: Attribute) -> bool {
    attr.meta matches Some(Meta::List(name, nested)) && name@ == "derive"@ && exists|j: int|
        0 <= j < nested@.len() && names_clone(#[trigger] nested@[j])
}

/// Whether one of the attributes is a `derive` that lists `Clone`.
pub open spec fn has_derive_clone(attrs: Seq<Attribute>) -> bool {
    exists|i: int| 0 <= i < attrs.len() && is_derive_clone(#[trigger] attrs[i])
}

fn marks_copy_clone(attr: &Attribute) -> (marks: bool)
    ensures
        marks == is_copy_clone_marker(*attr),
{
    !attr.path.global && attr.path.segments.len() == 1 && same_text(
        attr.path.segments[0].ident.as_str(),
        "rustc_copy_clone_marker",
    ) && !attr.path.segments[0].has_arguments
}

/// Looks for the marker `rustc_copy_clone_marker` among the attributes.
pub fn finds_copy_clone_marker(attrs: &[Attribute]) -> (found: bool)
    ensures
        found == has_copy_clone_marker(attrs@),
{
    let mut i: usize = 0;
    while i < attrs.len()
        invariant
            i <= attrs.len(),
            forall|k: int| 0 <= k < i ==> !is_copy_clone_marker(#[trigger] attrs@[k]),
        decreases attrs.len() - i,
    {
        if marks_copy_clone(&attrs[i]) {
            return true;
        }
        i += 1;
    }
    false
}

fn lists_clone(nested: &Vec<NestedMeta>) -> (lists: bool)
    ensures
        lists == exists|j: int| 0 <= j < nested@.len() && names_clone(#[trigger] nested@[j]),
{
    let mut j: usize = 0;
    while j < nested.len()
        invariant
            j <= nested.len(),
            forall|k: int| 0 <= k < j ==> !names_clone(#[trigger] nested@[k]),
        decreases nested.len() - j,
    {
        let names = match &nested[j] {
            NestedMeta::Meta(meta) => same_text(meta.name().as_str(), "Clone"),
            NestedMeta::Literal(_) => false,
        };
        if names {
            return true;
        }
        j += 1;
    }
    false
}

fn derives_clone_in(attr: &Attribute) -> (derives: bool)
    ensures
        derives == is_derive_clone(*attr),
{
    match &attr.meta {
        Some(Meta::List(name, nested)) => same_text(name.as_str(), "derive") && lists_clone(nested),
        _ => false,
    }
}

/// Looks for a `derive` that lists `Clone` among the attributes.
pub fn finds_derive_clone(attrs: &[Attribute]) -> (found: bool)
    ensures
        found == has_derive_clone(attrs@),
{
    let mut i: usize = 0;
    while i < attrs.len()
        invariant
            i <= attrs.len(),
            forall|k: int| 0 <= k < i ==> !is_derive_clone(#[trigger] attrs@[k]),
        decreases attrs.len() - i,
    {
        if derives_clone_in(&attrs[i]) {
            return true;
        }
        i += 1;
    }
    false
}

/// The record that a block of a capability starts from: what the capability
/// holds, or a fresh record where it is absent.
pub open spec fn or_fresh<V>(group: Option<V>, fresh: V) -> V {
    match group {
        Some(group) => group,
        None => fresh,
    }
}

impl Config for Input {
    /// A block names one of the seven capabilities. Its options are read into
    /// what earlier blocks of that capability have left, and the capability is
    /// present afterwards. A `Clone` block also notes whether the declaration
    /// carries the marker `rustc_copy_clone_marker`, and a `Copy` block
    /// whether it derives `Clone`.
    open spec fn with_block(
        config: InputView,
        attrs: Seq<Attribute>,
        block: CanonicalMetaView,
    ) -> Result<InputView, Failure> {
        if block.name == "Clone"@ {
            let start = InputCloneView {
                rustc_copy_clone_marker: has_copy_clone_marker(attrs),
                ..or_fresh(config.clone, InputCloneView::fresh())
            };
            match with_options::<InputClone>(start, block.values) {
                Ok(group) => Ok(InputView { clone: Some(group), ..config }),
                Err(failure) => Err(failure),
            }
        } else if block.name == "Copy"@ {
            let before = or_fresh(config.copy, InputCopyView::fresh());
            let start = InputCopyView {
                derives_clone: before.derives_clone || has_derive_clone(attrs),
                ..before
            };
            match with_options::<InputCopy>(start, block.values) {
                Ok(group) => Ok(InputView { copy: Some(group), ..config }),
                Err(failure) => Err(failure),
            }
        } else if block.name == "Debug"@ {
            match with_options::<InputDebug>(
                or_fresh(config.debug, InputDebugView::fresh()),
                block.values,
            ) {
                Ok(group) => Ok(InputView { debug: Some(group), ..config }),
                Err(failure) => Err(failure),
            }
        } else if block.name == "Default"@ {
            match with_options::<InputDefault>(
                or_fresh(config.default, InputDefaultView::fresh()),
                block.values,
            ) {
                Ok(group) => Ok(InputView { default: Some(group), ..config }),
                Err(failure) => Err(failure),
            }
        } else if block.name == "Eq"@ {
            match with_options::<InputEq>(or_fresh(config.eq, InputEqView::fresh()), block.values) {
                Ok(group) => Ok(InputView { eq: Some(group), ..config }),
                Err(failure) => Err(failure),
            }
        } else if block.name == "Hash"@ {
            match with_options::<InputHash>(
                or_fresh(config.hash, InputHashView::fresh()),
                block.values,
            ) {
                Ok(group) => Ok(InputView { hash: Some(group), ..config }),
                Err(failure) => Err(failure),
            }
        } else if block.name == "PartialEq"@ {
            match with_options::<InputPartialEq>(
                or_fresh(config.partial_eq, InputPartialEqView::fresh()),
                block.values,
            ) {
                Ok(group) => Ok(InputView { partial_eq: Some(group), ..config }),
                Err(failure) => Err(failure),
            }
        } else {
            Err(Failure::UnknownTrait(block.name))
        }
    }

    fn apply_block(self, attrs: &[Attribute], block: CanonicalMeta) -> (config: Result<
        Self,
        String,
    >) {
        let mut input = self;
        let name = block.name.as_str();
        if same_text(name, "Clone") {
            let mut start = match input.clone.take() {
                Some(group) => group,
                None => InputClone::default(),
            };
            start.rustc_copy_clone_marker = finds_copy_clone_marker(attrs);
            match parse_options(start, &block.values) {
                Ok(group) => {
                    input.clone = Some(group);
                    Ok(input)
                },
                Err(message) => Err(message),
            }
        } else if same_text(name, "Copy") {
            let mut start = match input.copy.take() {
                Some(group) => group,
                None => InputCopy::default(),
            };
            if finds_derive_clone(attrs) {
                start.derives_clone = true;
            }
            match parse_options(start, &block.values) {
                Ok(group) => {
                    input.copy = Some(group);
                    Ok(input)
                },
                Err(message) => Err(message),
            }
        } else if same_text(name, "Debug") {
            let start = match input.debug.take() {
                Some(group) => group,
                None => InputDebug::default(),
            };
            match parse_options(start, &block.values) {
                Ok(group) => {
                    input.debug = Some(group);
                    Ok(input)
                },
                Err(message) => Err(message),
            }
        } else if same_text(name, "Default") {
            let start = match input.default.take() {
                Some(group) => group,
                None => InputDefault::default(),
            };
            match parse_options(start, &block.values) {
                Ok(group) => {
                    input.default = Some(group);
                    Ok(input)
                },
                Err(message) => Err(message),
            }
        } else if same_text(name, "Eq") {
            let start = match input.eq.take() {
                Some(group) => group,
                None => InputEq::default(),
            };
            match parse_options(start, &block.values) {
                Ok(group) => {
                    input.eq = Some(group);
                    Ok(input)
                },
                Err(message) => Err(message),
            }
        } else if same_text(name, "Hash") {
            let start = match input.hash.take() {
                Some(group) => group,
                None => InputHash::default(),
            };
            match parse_options(start, &block.values) {
                Ok(group) => {
                    input.hash = Some(group);
                    Ok(input)
                },
                Err(message) => Err(message),
            }
        } else if same_text(name, "PartialEq") {
            let start = match input.partial_eq.take() {
                Some(group) => group,
                None => InputPartialEq::default(),
            };
            match parse_options(start, &block.values) {
                Ok(group) => {
                    input.partial_eq = Some(group);
                    Ok(input)
                },
                Err(message) => Err(message),
            }
        } else {
            Err(unknown_trait(name))
        }
    }
}

/// The configuration that the attributes of a type ask for: the blocks of its
/// `derivative` attributes, read in source order into a configuration in which
/// every capability is absent at first.
pub open spec fn type_config(attrs: Seq<Attribute>) -> Result<InputView, Failure> {
    with_attributes::<Input>(InputView::empty(), attrs, attrs)
}

impl InputView {
    /// The configuration in which every capability is absent.
    pub open spec fn empty() -> InputView {
        InputView {
            clone: None,
            copy: None,
            debug: None,
            default: None,
            eq: None,
            hash: None,
            partial_eq: None,
        }
    }

    pub open spec fn clone_bound(self) -> Option<Seq<syn::WherePredicate>> {
        match self.clone {
            Some(group) => group.bounds,
            None => None,
        }
    }

    pub open spec fn clone_from(self) -> bool {
        match self.clone {
            Some(group) => group.clone_from,
            None => false,
        }
    }

    pub open spec fn copy_bound(self) -> Option<Seq<syn::WherePredicate>> {
        match self.copy {
            Some(group) => group.bounds,
            None => None,
        }
    }

    pub open spec fn derives_clone(self) -> bool {
        match self.copy {
            Some(group) => group.derives_clone,
            None => false,
        }
    }

    pub open spec fn debug_bound(self) -> Option<Seq<syn::WherePredicate>> {
        match self.debug {
            Some(group) => group.bounds,
            None => None,
        }
    }

    pub open spec fn debug_transparent(self) -> bool {
        match self.debug {
            Some(group) => group.transparent,
            None => false,
        }
    }

    pub open spec fn default_bound(self) -> Option<Seq<syn::WherePredicate>> {
        match self.default {
            Some(group) => group.bounds,
            None => None,
        }
    }

    pub open spec fn default_new(self) -> bool {
        match self.default {
            Some(group) => group.new,
            None => false,
        }
    }

    pub open spec fn eq_bound(self) -> Option<Seq<syn::WherePredicate>> {
        match self.eq {
            Some(group) => group.bounds,
            None => None,
        }
    }

    pub open spec fn hash_bound(self) -> Option<Seq<syn::WherePredicate>> {
        match self.hash {
            Some(group) => group.bounds,
            None => None,
        }
    }

    pub open spec fn rustc_copy_clone_marker(self) -> bool {
        match self.clone {
            Some(group) => group.rustc_copy_clone_marker,
            None => false,
        }
    }

    pub open spec fn partial_eq_bound(self) -> Option<Seq<syn::WherePredicate>> {
        match self.partial_eq {
            Some(group) => group.bounds,
            None => None,
        }
    }

    pub open spec fn partial_eq_on_enum(self) -> bool {
        match self.partial_eq {
            Some(group) => group.on_enum,
            None => false,
        }
    }
}

impl Input {
    /// Parse the `derivative` attributes on a type.
    pub fn from_ast(attrs: &[Attribute]) -> (input: Result<Input, String>)
        ensures
            reports_view(input, type_config(attrs@)),
    {
        parse_attributes(Input::default(), attrs)
    }

    pub fn clone_bound(&self) -> (bound: Option<&[syn::WherePredicate]>)
        ensures
            slice_view(bound) == self@.clone_bound(),
    {
        match &self.clone {
            Some(group) => as_slice(&group.bounds),
            None => None,
        }
    }

    pub fn clone_from(&self) -> (flag: bool)
        ensures
            flag == self@.clone_from(),
    {
        match &self.clone {
            Some(group) => group.clone_from,
            None => false,
        }
    }

    pub fn copy_bound(&self) -> (bound: Option<&[syn::WherePredicate]>)
        ensures
            slice_view(bound) == self@.copy_bound(),
    {
        match &self.copy {
            Some(group) => as_slice(&group.bounds),
            None => None,
        }
    }

    pub fn derives_clone(&self) -> (flag: bool)
        ensures
            flag == self@.derives_clone(),
    {
        match &self.copy {
            Some(group) => group.derives_clone,
            None => false,
        }
    }

    pub fn debug_bound(&self) -> (bound: Option<&[syn::WherePredicate]>)
        ensures
            slice_view(bound) == self@.debug_bound(),
    {
        match &self.debug {
            Some(group) => as_slice(&group.bounds),
            None => None,
        }
    }

    pub fn debug_transparent(&self) -> (flag: bool)
        ensures
            flag == self@.debug_transparent(),
    {
        match &self.debug {
            Some(group) => group.transparent,
            None => false,
        }
    }

    pub fn default_bound(&self) -> (bound: Option<&[syn::WherePredicate]>)
        ensures
            slice_view(bound) == self@.default_bound(),
    {
        match &self.default {
            Some(group) => as_slice(&group.bounds),
            None => None,
        }
    }

    pub fn default_new(&self) -> (flag: bool)
        ensures
            flag == self@.default_new(),
    {
        match &self.default {
            Some(group) => group.new,
            None => false,
        }
    }

    pub fn eq_bound(&self) -> (bound: Option<&[syn::WherePredicate]>)
        ensures
            slice_view(bound) == self@.eq_bound(),
    {
        match &self.eq {
            Some(group) => as_slice(&group.bounds),
            None => None,
        }
    }

    pub fn hash_bound(&self) -> (bound: Option<&[syn::WherePredicate]>)
        ensures
            slice_view(bound) == self@.hash_bound(),
    {
        match &self.hash {
            Some(group) => as_slice(&group.bounds),
            None => None,
        }
    }

    pub fn rustc_copy_clone_marker(&self) -> (flag: bool)
        ensures
            flag == self@.rustc_copy_clone_marker(),
    {
        match &self.clone {
            Some(group) => group.rustc_copy_clone_marker,
            None => false,
        }
    }

    pub fn partial_eq_bound(&self) -> (bound: Option<&[syn::WherePredicate]>)
        ensures
            slice_view(bound) == self@.partial_eq_bound(),
    {
        match &self.partial_eq {
            Some(group) => as_slice(&group.bounds),
            None => None,
        }
    }

    pub fn partial_eq_on_enum(&self) -> (flag: bool)
        ensures
            flag == self@.partial_eq_on_enum(),
    {
        match &self.partial_eq {
            Some(group) => group.on_enum,
            None => false,
        }
    }
}

} // verus!
