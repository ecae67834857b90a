//! The configuration of a field: for each capability, the options with which
//! the field takes part in it.

use vstd::prelude::*;
use crate::dispatch::{Config, parse_attributes, with_attributes};
use crate::failure::{Failure, reports_view, unknown_attribute, unknown_trait};
use crate::meta::{Attribute, CanonicalMeta, CanonicalMetaView};
use crate::options::{
    BoundList, OptionGroup, as_slice, boolean_value, bound_added, bounds_view, expr_value,
    parse_boolean_meta_item, parse_bound, parse_expr_value, parse_options, parse_path_value,
    path_value, slice_view, with_options,
};
use crate::text::same_text;

verus! {

/// The `derivative` attributes on a field.
#[derive(Debug)]
pub struct Field {
    /// The parameters for `Clone`.
    clone: FieldClone,
    /// The parameters for `Copy`.
    copy_bound: Option<Vec<syn::WherePredicate>>,
    /// The parameters for `Debug`.
    debug: FieldDebug,
    /// The parameters for `Default`.
    default: FieldDefault,
    /// The parameters for `Eq`.
    eq_bound: Option<Vec<syn::WherePredicate>>,
    /// The parameters for `Hash`.
    hash: FieldHash,
    /// The parameters for `PartialEq`.
    partial_eq: FieldPartialEq,
}

/// The `derivative(Clone(…))` attributes on a field.
#[derive(Debug)]
pub struct FieldClone {
    /// The `bound` attribute if present and the corresponding bounds.
    bounds: Option<Vec<syn::WherePredicate>>,
    /// The `clone_with` attribute if present and the path to the cloning function.
    clone_with: Option<syn::Path>,
}

/// The `derivative(Debug(…))` attributes on a field.
#[derive(Debug)]
pub struct FieldDebug {
    /// The `bound` attribute if present and the corresponding bounds.
    bounds: Option<Vec<syn::WherePredicate>>,
    /// The `format_with` attribute if present and the path to the formatting function.
    format_with: Option<syn::Path>,
    /// Whether the field is to be ignored from output.
    ignore: bool,
}

/// The `derivative(Default(…))` attributes on a field.
#[derive(Debug)]
pub struct FieldDefault {
    /// The `bound` attribute if present and the corresponding bounds.
    bounds: Option<Vec<syn::WherePredicate>>,
    /// The default value for the field if present.
    pub value: Option<syn::Expr>,
}

/// The `derivative(Hash(…))` attributes on a field.
#[derive(Debug)]
pub struct FieldHash {
    /// The `bound` attribute if present and the corresponding bounds.
    bounds: Option<Vec<syn::WherePredicate>>,
    /// The `hash_with` attribute if present and the path to the hashing function.
    hash_with: Option<syn::Path>,
    /// Whether the field is to be ignored when hashing.
    ignore: bool,
}

/// The `derivative(PartialEq(…))` attributes on a field.
#[derive(Debug)]
pub struct FieldPartialEq {
    /// The `bound` attribute if present and the corresponding bounds.
    bounds: Option<Vec<syn::WherePredicate>>,
    /// The `compare_with` attribute if present and the path to the comparison function.
    compare_with: Option<syn::Path>,
    /// Whether the field is to be ignored when comparing.
    ignore: bool,
}

/// [`Field`] as the contracts see it: every bound list a sequence of fragments.
pub struct FieldView {
    pub clone: FieldCloneView,
    pub copy_bound: Option<Seq<syn::WherePredicate>>,
    pub debug: FieldDebugView,
    pub default: FieldDefaultView,
    pub eq_bound: Option<Seq<syn::WherePredicate>>,
    pub hash: FieldHashView,
    pub partial_eq: FieldPartialEqView,
}

/// [`FieldClone`] as the contracts see it: every bound list a sequence of fragments.
pub struct FieldCloneView {
    pub bounds: Option<Seq<syn::WherePredicate>>,
    pub clone_with: Option<syn::Path>,
}

/// [`FieldDebug`] as the contracts see it: every bound list a sequence of fragments.
pub struct FieldDebugView {
    pub bounds: Option<Seq<syn::WherePredicate>>,
    pub format_with: Option<syn::Path>,
    pub ignore: bool,
}

/// [`FieldDefault`] as the contracts see it: every bound list a sequence of fragments.
pub struct FieldDefaultView {
    pub bounds: Option<Seq<syn::WherePredicate>>,
    pub value: Option<syn::Expr>,
}

/// [`FieldHash`] as the contracts see it: every bound list a sequence of fragments.
pub struct FieldHashView {
    pub bounds: Option<Seq<syn::WherePredicate>>,
    pub hash_with: Option<syn::Path>,
    pub ignore: bool,
}

/// [`FieldPartialEq`] as the contracts see it: every bound list a sequence of fragments.
pub struct FieldPartialEqView {
    pub bounds: Option<Seq<syn::WherePredicate>>,
    pub compare_with: Option<syn::Path>,
    pub ignore: bool,
}

impl FieldCloneView {
    /// The record of a capability that no block has been read into.
    pub open spec fn fresh() -> FieldCloneView {
        FieldCloneView { bounds: None, clone_with: None }
    }
}

impl FieldDebugView {
    /// The record of a capability that no block has been read into.
    pub open spec fn fresh() -> FieldDebugView {
        FieldDebugView { bounds: None, format_with: None, ignore: false }
    }
}

impl FieldDefaultView {
    /// The record of a capability that no block has been read into.
    pub open spec fn fresh() -> FieldDefaultView {
        FieldDefaultView { bounds: None, value: None }
    }
}

impl FieldHashView {
    /// The record of a capability that no block has been read into.
    pub open spec fn fresh() -> FieldHashView {
        FieldHashView { bounds: None, hash_with: None, ignore: false }
    }
}

impl FieldPartialEqView {
    /// The record of a capability that no block has been read into.
    pub open spec fn fresh() -> FieldPartialEqView {
        FieldPartialEqView { bounds: None, compare_with: None, ignore: false }
    }
}

impl FieldView {
    /// The configuration of a field that no block has been read into.
    pub open spec fn fresh() -> FieldView {
        FieldView {
            clone: FieldCloneView::fresh(),
            copy_bound: None,
            debug: FieldDebugView::fresh(),
            default: FieldDefaultView::fresh(),
            eq_bound: None,
            hash: FieldHashView::fresh(),
            partial_eq: FieldPartialEqView::fresh(),
        }
    }
}

impl View for FieldClone {
    type V = FieldCloneView;

    closed spec fn view(&self) -> FieldCloneView {
        FieldCloneView { bounds: bounds_view(self.bounds), clone_with: self.clone_with }
    }
}

impl View for FieldDebug {
    type V = FieldDebugView;

    closed spec fn view(&self) -> FieldDebugView {
        FieldDebugView {
            bounds: bounds_view(self.bounds),
            format_with: self.format_with,
            ignore: self.ignore,
        }
    }
}

impl View for FieldDefault {
    type V = FieldDefaultView;

    closed spec fn view(&self) -> FieldDefaultView {
        FieldDefaultView { bounds: bounds_view(self.bounds), value: self.value }
    }
}

impl View for FieldHash {
    type V = FieldHashView;

    closed spec fn view(&self) -> FieldHashView {
        FieldHashView {
            bounds: bounds_view(self.bounds),
            hash_with: self.hash_with,
            ignore: self.ignore,
        }
    }
}

impl View for FieldPartialEq {
    type V = FieldPartialEqView;

    closed spec fn view(&self) -> FieldPartialEqView {
        FieldPartialEqView {
            bounds: bounds_view(self.bounds),
            compare_with: self.compare_with,
            ignore: self.ignore,
        }
    }
}

impl View for Field {
    type V = FieldView;

    closed spec fn view(&self) -> FieldView {
        FieldView {
            clone: self.clone@,
            copy_bound: bounds_view(self.copy_bound),
            debug: self.debug@,
            default: self.default@,
            eq_bound: bounds_view(self.eq_bound),
            hash: self.hash@,
            partial_eq: self.partial_eq@,
        }
    }
}

impl Default for FieldClone {
    fn default() -> (group: Self)
        ensures
            group@ == FieldCloneView::fresh(),
    {
        FieldClone { bounds: None, clone_with: None }
    }
}

impl Default for FieldDebug {
    fn default() -> (group: Self)
        ensures
            group@ == FieldDebugView::fresh(),
    {
        FieldDebug { bounds: None, format_with: None, ignore: false }
    }
}

impl Default for FieldDefault {
    fn default() -> (group: Self)
        ensures
            group@ == FieldDefaultView::fresh(),
    {
        FieldDefault { bounds: None, value: None }
    }
}

impl Default for FieldHash {
    fn default() -> (group: Self)
        ensures
            group@ == FieldHashView::fresh(),
    {
        FieldHash { bounds: None, hash_with: None, ignore: false }
    }
}

impl Default for FieldPartialEq {
    fn default() -> (group: Self)
        ensures
            group@ == FieldPartialEqView::fresh(),
    {
        FieldPartialEq { bounds: None, compare_with: None, ignore: false }
    }
}

impl Default for Field {
    fn default() -> (field: Self)
        ensures
            field@ == FieldView::fresh(),
    {
        Field {
            clone: FieldClone::default(),
            copy_bound: None,
            debug: FieldDebug::default(),
            default: FieldDefault::default(),
            eq_bound: None,
            hash: FieldHash::default(),
            partial_eq: FieldPartialEq::default(),
        }
    }
}

impl OptionGroup for FieldClone {
    open spec fn bounds(group: FieldCloneView) -> Option<Seq<syn::WherePredicate>> {
        group.bounds
    }

    open spec fn with_option(
        group: FieldCloneView,
        name: Seq<char>,
        value: Option<Seq<char>>,
    ) -> Result<FieldCloneView, Failure> {
        if name == "bound"@ {
            match bound_added(group.bounds, value) {
                Ok(bounds) => Ok(FieldCloneView { bounds, ..group }),
                Err(failure) => Err(failure),
            }
        } else if name == "clone_with"@ {
            match path_value("clone_with"@, value) {
                Ok(path) => Ok(FieldCloneView { clone_with: Some(path), ..group }),
                Err(failure) => Err(failure),
            }
        } else {
            Err(Failure::UnknownAttribute(name))
        }
    }

    fn set_option(self, name: &str, value: Option<String>) -> (group: Result<Self, String>) {
        let mut group = self;
        if same_text(name, "bound") {
            match parse_bound(&mut group.bounds, value) {
                Ok(()) => Ok(group),
                Err(message) => Err(message),
            }
        } else if same_text(name, "clone_with") {
            match parse_path_value("clone_with", value) {
                Ok(path) => {
                    group.clone_with = Some(path);
                    Ok(group)
                },
                Err(message) => Err(message),
            }
        } else {
            Err(unknown_attribute(name))
        }
    }
}

impl OptionGroup for FieldDebug {
    open spec fn bounds(group: FieldDebugView) -> Option<Seq<syn::WherePredicate>> {
        group.bounds
    }

    open spec fn with_option(
        group: FieldDebugView,
        name: Seq<char>,
        value: Option<Seq<char>>,
    ) -> Result<FieldDebugView, Failure> {
        if name == "bound"@ {
            match bound_added(group.bounds, value) {
                Ok(bounds) => Ok(FieldDebugView { bounds, ..group }),
                Err(failure) => Err(failure),
            }
        } else if name == "format_with"@ {
            match path_value("format_with"@, value) {
                Ok(path) => Ok(FieldDebugView { format_with: Some(path), ..group }),
                Err(failure) => Err(failure),
            }
        } else if name == "ignore"@ {
            match boolean_value(value, true, "ignore"@) {
                Ok(ignore) => Ok(FieldDebugView { ignore, ..group }),
                Err(failure) => Err(failure),
            }
        } else {
            Err(Failure::UnknownAttribute(name))
        }
    }

    fn set_option(self, name: &str, value: Option<String>) -> (group: Result<Self, String>) {
        let mut group = self;
        if same_text(name, "bound") {
            match parse_bound(&mut group.bounds, value) {
                Ok(()) => Ok(group),
                Err(message) => Err(message),
            }
        } else if same_text(name, "format_with") {
            match parse_path_value("format_with", value) {
                Ok(path) => {
                    group.format_with = Some(path);
                    Ok(group)
                },
                Err(message) => Err(message),
            }
        } else if same_text(name, "ignore") {
            match parse_boolean_meta_item(value, true, "ignore") {
                Ok(ignore) => {
                    group.ignore = ignore;
                    Ok(group)
                },
                Err(message) => Err(message),
            }
        } else {
            Err(unknown_attribute(name))
        }
    }
}

impl OptionGroup for FieldDefault {
    open spec fn bounds(group: FieldDefaultView) -> Option<Seq<syn::WherePredicate>> {
        group.bounds
    }

    open spec fn with_option(
        group: FieldDefaultView,
        name: Seq<char>,
        value: Option<Seq<char>>,
    ) -> Result<FieldDefaultView, Failure> {
        if name == "bound"@ {
            match bound_added(group.bounds, value) {
                Ok(bounds) => Ok(FieldDefaultView { bounds, ..group }),
                Err(failure) => Err(failure),
            }
        } else if name == "value"@ {
            match expr_value("value"@, value) {
                Ok(expr) => Ok(FieldDefaultView { value: Some(expr), ..group }),
                Err(failure) => Err(failure),
            }
        } else {
            Err(Failure::UnknownAttribute(name))
        }
    }

    fn set_option(self, name: &str, value: Option<String>) -> (group: Result<Self, String>) {
        let mut group = self;
        if same_text(name, "bound") {
            match parse_bound(&mut group.bounds, value) {
                Ok(()) => Ok(group),
                Err(message) => Err(message),
            }
        } else if same_text(name, "value") {
            match parse_expr_value("value", value) {
                Ok(expr) => {
                    group.value = Some(expr);
                    Ok(group)
                },
                Err(message) => Err(message),
            }
        } else {
            Err(unknown_attribute(name))
        }
    }
}

impl OptionGroup for FieldHash {
    open spec fn bounds(group: FieldHashView) -> Option<Seq<syn::WherePredicate>> {
        group.bounds
    }

    open spec fn with_option(
        group: FieldHashView,
        name: Seq<char>,
        value: Option<Seq<char>>,
    ) -> Result<FieldHashView, Failure> {
        if name == "bound"@ {
            match bound_added(group.bounds, value) {
                Ok(bounds) => Ok(FieldHashView { bounds, ..group }),
                Err(failure) => Err(failure),
            }
        } else if name == "hash_with"@ {
            match path_value("hash_with"@, value) {
                Ok(path) => Ok(FieldHashView { hash_with: Some(path), ..group }),
                Err(failure) => Err(failure),
            }
        } else if name == "ignore"@ {
            match boolean_value(value, true, "ignore"@) {
                Ok(ignore) => Ok(FieldHashView { ignore, ..group }),
                Err(failure) => Err(failure),
            }
        } else {
            Err(Failure::UnknownAttribute(name))
        }
    }

    fn set_option(self, name: &str, value: Option<String>) -> (group: Result<Self, String>) {
        let mut group = self;
        if same_text(name, "bound") {
            match parse_bound(&mut group.bounds, value) {
                Ok(()) => Ok(group),
                Err(message) => Err(message),
            }
        } else if same_text(name, "hash_with") {
            match parse_path_value("hash_with", value) {
                Ok(path) => {
                    group.hash_with = Some(path);
                    Ok(group)
                },
                Err(message) => Err(message),
            }
        } else if same_text(name, "ignore") {
            match parse_boolean_meta_item(value, true, "ignore") {
                Ok(ignore) => {
                    group.ignore = ignore;
                    Ok(group)
                },
                Err(message) => Err(message),
            }
        } else {
            Err(unknown_attribute(name))
        }
    }
}

impl OptionGroup for FieldPartialEq {
    open spec fn bounds(group: FieldPartialEqView) -> Option<Seq<syn::WherePredicate>> {
        group.bounds
    }

    open spec fn with_option(
        group: FieldPartialEqView,
        name: Seq<char>,
        value: Option<Seq<char>>,
    ) -> Result<FieldPartialEqView, Failure> {
        if name == "bound"@ {
            match bound_added(group.bounds, value) {
                Ok(bounds) => Ok(FieldPartialEqView { bounds, ..group }),
                Err(failure) => Err(failure),
            }
        } else if name == "compare_with"@ {
            match path_value("compare_with"@, value) {
                Ok(path) => Ok(FieldPartialEqView { compare_with: Some(path), ..group }),
                Err(failure) => Err(failure),
            }
        } else if name == "ignore"@ {
            match boolean_value(value, true, "ignore"@) {
                Ok(ignore) => Ok(FieldPartialEqView { ignore, ..group }),
                Err(failure) => Err(failure),
            }
        } else {
            Err(Failure::UnknownAttribute(name))
        }
    }

    fn set_option(self, name: &str, value: Option<String>) -> (group: Result<Self, String>) {
        let mut group = self;
        if same_text(name, "bound") {
            match parse_bound(&mut group.bounds, value) {
                Ok(()) => Ok(group),
                Err(message) => Err(message),
            }
        } else if same_text(name, "compare_with") {
            match parse_path_value("compare_with", value) {
                Ok(path) => {
                    group.compare_with = Some(path);
                    Ok(group)
                },
                Err(message) => Err(message),
            }
        } else if same_text(name, "ignore") {
            match parse_boolean_meta_item(value, true, "ignore") {
                Ok(ignore) => {
                    group.ignore = ignore;
                    Ok(group)
                },
                Err(message) => Err(message),
            }
        } else {
            Err(unknown_attribute(name))
        }
    }
}

impl Config for Field {
    /// A block names one of the seven capabilities. Its options are read into
    /// what earlier blocks of that capability have left. The other attributes
    /// of the field play no part.
    open spec fn with_block(
        config: FieldView,
        attrs: Seq<Attribute>,
        block: CanonicalMetaView,
    ) -> Result<FieldView, Failure> {
        if block.name == "Clone"@ {
            match with_options::<FieldClone>(config.clone, block.values) {
                Ok(group) => Ok(FieldView { clone: group, ..config }),
                Err(failure) => Err(failure),
            }
        } else if block.name == "Copy"@ {
            match with_options::<BoundList>(config.copy_bound, block.values) {
                Ok(bounds) => Ok(FieldView { copy_bound: bounds, ..config }),
                Err(failure) => Err(failure),
            }
        } else if block.name == "Debug"@ {
            match with_options::<FieldDebug>(config.debug, block.values) {
                Ok(group) => Ok(FieldView { debug: group, ..config }),
                Err(failure) => Err(failure),
            }
        } else if block.name == "Default"@ {
            match with_options::<FieldDefault>(config.default, block.values) {
                Ok(group) => Ok(FieldView { default: group, ..config }),
                Err(failure) => Err(failure),
            }
        } else if block.name == "Eq"@ {
            match with_options::<BoundList>(config.eq_bound, block.values) {
                Ok(bounds) => Ok(FieldView { eq_bound: bounds, ..config }),
                Err(failure) => Err(failure),
            }
        } else if block.name == "Hash"@ {
            match with_options::<FieldHash>(config.hash, block.values) {
                Ok(group) => Ok(FieldView { hash: group, ..config }),
                Err(failure) => Err(failure),
            }
        } else if block.name == "PartialEq"@ {
            match with_options::<FieldPartialEq>(config.partial_eq, block.values) {
                Ok(group) => Ok(FieldView { partial_eq: group, ..config }),
                Err(failure) => Err(failure),
            }
        } else {
            Err(Failure::UnknownTrait(block.name))
        }
    }

    fn apply_block(self, attrs: &[Attribute], block: CanonicalMeta) -> (config: Result<
        Self,
        String,
    >) {
        let Field { clone, copy_bound, debug, default, eq_bound, hash, partial_eq } = self;
        let name = block.name.as_str();
        if same_text(name, "Clone") {
            match parse_options(clone, &block.values) {
                Ok(clone) => Ok(
                    Field { clone, copy_bound, debug, default, eq_bound, hash, partial_eq },
                ),
                Err(message) => Err(message),
            }
        } else if same_text(name, "Copy") {
            match parse_options(BoundList { bounds: copy_bound }, &block.values) {
                Ok(group) => Ok(
                    Field {
                        clone,
                        copy_bound: group.bounds,
                        debug,
                        default,
                        eq_bound,
                        hash,
                        partial_eq,
                    },
                ),
                Err(message) => Err(message),
            }
        } else if same_text(name, "Debug") {
            match parse_options(debug, &block.values) {
                Ok(debug) => Ok(
                    Field { clone, copy_bound, debug, default, eq_bound, hash, partial_eq },
                ),
                Err(message) => Err(message),
            }
        } else if same_text(name, "Default") {
            match parse_options(default, &block.values) {
                Ok(default) => Ok(
                    Field { clone, copy_bound, debug, default, eq_bound, hash, partial_eq },
                ),
                Err(message) => Err(message),
            }
        } else if same_text(name, "Eq") {
            match parse_options(BoundList { bounds: eq_bound }, &block.values) {
                Ok(group) => Ok(
                    Field {
                        clone,
                        copy_bound,
                        debug,
                        default,
                        eq_bound: group.bounds,
                        hash,
                        partial_eq,
                    },
                ),
                Err(message) => Err(message),
            }
        } else if same_text(name, "Hash") {
            match parse_options(hash, &block.values) {
                Ok(hash) => Ok(
                    Field { clone, copy_bound, debug, default, eq_bound, hash, partial_eq },
                ),
                Err(message) => Err(message),
            }
        } else if same_text(name, "PartialEq") {
            match parse_options(partial_eq, &block.values) {
                Ok(partial_eq) => Ok(
                    Field { clone, copy_bound, debug, default, eq_bound, hash, partial_eq },
                ),
                Err(message) => Err(message),
            }
        } else {
            Err(unknown_trait(name))
        }
    }
}

/// The configuration that the attributes of a field ask for: the blocks of
/// its `derivative` attributes, read in source order into a configuration in
/// which every record is fresh at first.
pub open spec fn field_config(attrs: Seq<Attribute>) -> Result<FieldView, Failure> {
    with_attributes::<Field>(FieldView::fresh(), attrs, attrs)
}

/// What a borrowed value holds, where there is one.
pub open spec fn borrowed<T>(value: Option<&T>) -> Option<T> {
    match value {
        Some(value) => Some(*value),
        None => None,
    }
}

impl Field {
    /// Parse the `derivative` attributes on a field.
    pub fn from_ast(attrs: &[Attribute]) -> (field: Result<Field, String>)
        ensures
            reports_view(field, field_config(attrs@)),
    {
        parse_attributes(Field::default(), attrs)
    }

    pub fn clone_bound(&self) -> (bound: Option<&[syn::WherePredicate]>)
        ensures
            slice_view(bound) == self@.clone.bounds,
    {
        as_slice(&self.clone.bounds)
    }

    pub fn clone_with(&self) -> (path: Option<&syn::Path>)
        ensures
            borrowed(path) == self@.clone.clone_with,
    {
        self.clone.clone_with.as_ref()
    }

    pub fn copy_bound(&self) -> (bound: Option<&[syn::WherePredicate]>)
        ensures
            slice_view(bound) == self@.copy_bound,
    {
        as_slice(&self.copy_bound)
    }

    pub fn debug_bound(&self) -> (bound: Option<&[syn::WherePredicate]>)
        ensures
            slice_view(bound) == self@.debug.bounds,
    {
        as_slice(&self.debug.bounds)
    }

    pub fn debug_format_with(&self) -> (path: Option<&syn::Path>)
        ensures
            borrowed(path) == self@.debug.format_with,
    {
        self.debug.format_with.as_ref()
    }

    pub fn ignore_debug(&self) -> (flag: bool)
        ensures
            flag == self@.debug.ignore,
    {
        self.debug.ignore
    }

    pub fn ignore_hash(&self) -> (flag: bool)
        ensures
            flag == self@.hash.ignore,
    {
        self.hash.ignore
    }

    pub fn default_bound(&self) -> (bound: Option<&[syn::WherePredicate]>)
        ensures
            slice_view(bound) == self@.default.bounds,
    {
        as_slice(&self.default.bounds)
    }

    pub fn default_value(&self) -> (value: Option<&syn::Expr>)
        ensures
            borrowed(value) == self@.default.value,
    {
        self.default.value.as_ref()
    }

    pub fn eq_bound(&self) -> (bound: Option<&[syn::WherePredicate]>)
        ensures
            slice_view(bound) == self@.eq_bound,
    {
        as_slice(&self.eq_bound)
    }

    pub fn hash_bound(&self) -> (bound: Option<&[syn::WherePredicate]>)
        ensures
            slice_view(bound) == self@.hash.bounds,
    {
        as_slice(&self.hash.bounds)
    }

    pub fn hash_with(&self) -> (path: Option<&syn::Path>)
        ensures
            borrowed(path) == self@.hash.hash_with,
    {
        self.hash.hash_with.as_ref()
    }

    pub fn partial_eq_bound(&self) -> (bound: Option<&[syn::WherePredicate]>)
        ensures
            slice_view(bound) == self@.partial_eq.bounds,
    {
        as_slice(&self.partial_eq.bounds)
    }

    pub fn partial_eq_compare_with(&self) -> (path: Option<&syn::Path>)
        ensures
            borrowed(path) == self@.partial_eq.compare_with,
    {
        self.partial_eq.compare_with.as_ref()
    }

    pub fn ignore_partial_eq(&self) -> (flag: bool)
        ensures
            flag == self@.partial_eq.ignore,
    {
        self.partial_eq.ignore
    }
}

} // verus!
