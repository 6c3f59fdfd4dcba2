//! Dispatch of one invocation by the kind of the annotated item.
//!
//! The attribute accepts structs and enums; anything else is answered with a
//! fixed diagnostic.  Malformed arguments are answered first, with the
//! diagnostics of the argument grammar, whatever the item is.

use vstd::prelude::*;
use crate::args::{
    arg_errors, entry_views, err_views, parse_config, parse_ok, trait_value, Config, ConfigError,
    ConfigErrorV, MetaEntry, MetaEntryV,
};

verus! {

/// The kind of the annotated item, as far as dispatch reads it.
#[derive(Clone, Copy, PartialEq, Eq, Structural, Debug)]
pub enum ItemKind {
    /// An enum declaration.
    Enum,
    /// A struct declaration.
    Struct,
    /// Any other item: a function, a module, a trait, ...
    Other,
}

/// What one invocation answers.
pub enum Outcome {
    /// The arguments were malformed: report their errors and generate nothing.
    ArgErrors(Vec<ConfigError>),
    /// The item is neither a struct nor an enum: report the fixed diagnostic.
    UnsupportedItem,
    /// A well-configured invocation on an enum reaches the enum derivation,
    /// which is not written: expansion aborts there.
    DeriveEnum(Config),
    /// A well-configured invocation on a struct reaches the struct
    /// derivation, which is not written: expansion aborts there.
    DeriveStruct(Config),
}

/// The mathematical shape of an [`Outcome`].
pub ghost enum OutcomeV {
    ArgErrors(Seq<ConfigErrorV>),
    UnsupportedItem,
    DeriveEnum(Option<Seq<char>>),
    DeriveStruct(Option<Seq<char>>),
}

impl View for Outcome {
    type V = OutcomeV;

    open spec fn view(&self) -> OutcomeV {
        match self {
            Outcome::ArgErrors(errs) => OutcomeV::ArgErrors(err_views(errs@)),
            Outcome::UnsupportedItem => OutcomeV::UnsupportedItem,
            Outcome::DeriveEnum(c) => OutcomeV::DeriveEnum(c@),
            Outcome::DeriveStruct(c) => OutcomeV::DeriveStruct(c@),
        }
    }
}

/// The outcome one invocation owes: argument errors first, then dispatch by
/// the kind of the item.
pub open spec fn invocation_outcome(entries: Seq<MetaEntryV>, kind: ItemKind) -> OutcomeV {
    if !parse_ok(entries) {
        OutcomeV::ArgErrors(arg_errors(entries))
    } else {
        match kind {
            ItemKind::Enum => OutcomeV::DeriveEnum(trait_value(entries)),
            ItemKind::Struct => OutcomeV::DeriveStruct(trait_value(entries)),
            ItemKind::Other => OutcomeV::UnsupportedItem,
        }
    }
}

/// Decides one invocation of the attribute: parses the arguments and
/// dispatches on the kind of the annotated item.
pub fn derive_context_err(entries: &Vec<MetaEntry>, kind: ItemKind) -> (r: Outcome)
    ensures
        r@ == invocation_outcome(entry_views(entries@), kind),
{
    match parse_config(entries) {
        Err(errs) => Outcome::ArgErrors(errs),
        Ok(config) => match kind {
            ItemKind::Enum => Outcome::DeriveEnum(config),
            ItemKind::Struct => Outcome::DeriveStruct(config),
            ItemKind::Other => Outcome::UnsupportedItem,
        },
    }
}

/// The diagnostic text answered on an item that is neither a struct nor an
/// enum.
pub open spec fn unsupported_item_text() -> Seq<char> {
    "this macro only works for structs and enums"@
}

/// The diagnostic for an unsupported item, to stand in a compile error
/// anchored at the item.
pub fn unsupported_item_message() -> (r: String)
    ensures
        r@ == unsupported_item_text(),
{
    "this macro only works for structs and enums".to_owned()
}

/// Malformed arguments always yield the argument diagnostics, whatever the
/// item is: no derivation is reached and nothing is generated.
pub proof fn lemma_bad_args_yield_diagnostic(entries: Seq<MetaEntryV>, kind: ItemKind)
    requires
        !parse_ok(entries),
    ensures
        invocation_outcome(entries, kind) == OutcomeV::ArgErrors(arg_errors(entries)),
        arg_errors(entries).len() > 0,
{
}

/// An invocation with well-formed arguments on an item that is neither a
/// struct nor an enum yields exactly the fixed unsupported-item diagnostic.
pub proof fn lemma_unsupported_item_rejected(entries: Seq<MetaEntryV>)
    requires
        parse_ok(entries),
    ensures
        invocation_outcome(entries, ItemKind::Other) == OutcomeV::UnsupportedItem,
{
}

/// An invocation with well-formed arguments on a struct or an enum reaches
/// the matching derivation, carrying the parsed configuration; neither
/// derivation is written, so expansion aborts there.
pub proof fn lemma_struct_enum_reach_derivation(entries: Seq<MetaEntryV>, kind: ItemKind)
    requires
        parse_ok(entries),
        kind == ItemKind::Enum || kind == ItemKind::Struct,
    ensures
        kind == ItemKind::Enum ==> invocation_outcome(entries, kind) == OutcomeV::DeriveEnum(
            trait_value(entries),
        ),
        kind == ItemKind::Struct ==> invocation_outcome(entries, kind) == OutcomeV::DeriveStruct(
            trait_value(entries),
        ),
{
}

} // verus!
