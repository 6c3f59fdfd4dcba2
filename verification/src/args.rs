//! Attribute arguments and their parsing.
//!
//! An invocation of the attribute carries a comma-separated list of meta
//! items.  The only accepted argument is the named field `trait`, whose value
//! must be a string literal and which may appear at most once; it is optional.
//! Every other argument is an error, and all errors of one list are reported
//! together, in the order of the entries that caused them.

use vstd::prelude::*;
use vstd::string::StringExecFns;

verus! {

/// One attribute argument, reduced to the shape the grammar reads: the kind
/// of meta item and the plain strings it carries.
pub enum MetaEntry {
    /// A bare path, as in `#[attr(name)]`.
    Word { name: String },
    /// A name with a string-literal value, as in `#[attr(name = "v")]`.
    NameStr { name: String, value: String },
    /// A name with a value of any other kind, as in `#[attr(name = 3)]`.
    NameOther { name: String },
    /// A name with a nested list, as in `#[attr(name(..))]`.
    NameList { name: String },
    /// A bare literal, as in `#[attr("v")]`.
    Literal,
}

/// The mathematical shape of a [`MetaEntry`].
pub ghost enum MetaEntryV {
    Word { name: Seq<char> },
    NameStr { name: Seq<char>, value: Seq<char> },
    NameOther { name: Seq<char> },
    NameList { name: Seq<char> },
    Literal,
}

impl View for MetaEntry {
    type V = MetaEntryV;

    open spec fn view(&self) -> MetaEntryV {
        match self {
            MetaEntry::Word { name } => MetaEntryV::Word { name: name@ },
            MetaEntry::NameStr { name, value } => MetaEntryV::NameStr {
                name: name@,
                value: value@,
            },
            MetaEntry::NameOther { name } => MetaEntryV::NameOther { name: name@ },
            MetaEntry::NameList { name } => MetaEntryV::NameList { name: name@ },
            MetaEntry::Literal => MetaEntryV::Literal,
        }
    }
}

/// The views of a list of entries, in order.
pub open spec fn entry_views(entries: Seq<MetaEntry>) -> Seq<MetaEntryV> {
    entries.map_values(|e: MetaEntry| e@)
}

/// The one field name the grammar accepts.
pub open spec fn trait_field_name() -> Seq<char> {
    "trait"@
}

/// What a malformed argument list reports, one value per offending entry.
pub enum ConfigError {
    /// A field other than `trait` was named.
    UnknownField { name: String },
    /// The field `trait` appeared a second time.
    DuplicateField,
    /// The field `trait` appeared as a bare word, with no value.
    MissingValue,
    /// The field `trait` was given a nested list instead of a value.
    UnexpectedList,
    /// The field `trait` was given a value that is not a string literal.
    WrongValueType,
    /// A bare literal stood among the arguments.
    UnexpectedLiteral,
}

/// The mathematical shape of a [`ConfigError`].
pub ghost enum ConfigErrorV {
    UnknownField { name: Seq<char> },
    DuplicateField,
    MissingValue,
    UnexpectedList,
    WrongValueType,
    UnexpectedLiteral,
}

impl View for ConfigError {
    type V = ConfigErrorV;

    open spec fn view(&self) -> ConfigErrorV {
        match self {
            ConfigError::UnknownField { name } => ConfigErrorV::UnknownField { name: name@ },
            ConfigError::DuplicateField => ConfigErrorV::DuplicateField,
            ConfigError::MissingValue => ConfigErrorV::MissingValue,
            ConfigError::UnexpectedList => ConfigErrorV::UnexpectedList,
            ConfigError::WrongValueType => ConfigErrorV::WrongValueType,
            ConfigError::UnexpectedLiteral => ConfigErrorV::UnexpectedLiteral,
        }
    }
}

/// The views of a list of errors, in order.
pub open spec fn err_views(errs: Seq<ConfigError>) -> Seq<ConfigErrorV> {
    errs.map_values(|e: ConfigError| e@)
}

/// The configuration of one invocation: the optional `trait` override.
pub struct Config {
    pub trait_name: Option<String>,
}

impl View for Config {
    type V = Option<Seq<char>>;

    open spec fn view(&self) -> Option<Seq<char>> {
        match &self.trait_name {
            Some(s) => Some(s@),
            None => None,
        }
    }
}

/// The view of an optional string.
pub open spec fn opt_view(o: Option<String>) -> Option<Seq<char>> {
    match o {
        Some(s) => Some(s@),
        None => None,
    }
}

/// The name an entry carries; meaningless for a bare literal.
pub open spec fn entry_name(e: MetaEntryV) -> Seq<char> {
    match e {
        MetaEntryV::Word { name } => name,
        MetaEntryV::NameStr { name, .. } => name,
        MetaEntryV::NameOther { name } => name,
        MetaEntryV::NameList { name } => name,
        MetaEntryV::Literal => Seq::empty(),
    }
}

/// Whether an entry names the field `trait` (in whatever form).
pub open spec fn names_trait(e: MetaEntryV) -> bool {
    !(e is Literal) && entry_name(e) == trait_field_name()
}

/// The error one entry contributes, given whether `trait` was already named
/// by an earlier entry.  `None` means the entry is well-formed.
pub open spec fn entry_error(e: MetaEntryV, seen: bool) -> Option<ConfigErrorV> {
    match e {
        MetaEntryV::Literal => Some(ConfigErrorV::UnexpectedLiteral),
        _ => if entry_name(e) != trait_field_name() {
            Some(ConfigErrorV::UnknownField { name: entry_name(e) })
        } else if seen {
            Some(ConfigErrorV::DuplicateField)
        } else {
            match e {
                MetaEntryV::NameStr { .. } => None,
                MetaEntryV::Word { .. } => Some(ConfigErrorV::MissingValue),
                MetaEntryV::NameList { .. } => Some(ConfigErrorV::UnexpectedList),
                MetaEntryV::NameOther { .. } => Some(ConfigErrorV::WrongValueType),
                MetaEntryV::Literal => None,
            }
        },
    }
}

/// Whether some entry of the list names the field `trait`.
pub open spec fn trait_seen(entries: Seq<MetaEntryV>) -> bool
    decreases entries.len(),
{
    if entries.len() == 0 {
        false
    } else {
        trait_seen(entries.drop_last()) || names_trait(entries.last())
    }
}

/// The errors of a whole argument list, in the order of the entries.
pub open spec fn arg_errors(entries: Seq<MetaEntryV>) -> Seq<ConfigErrorV>
    decreases entries.len(),
{
    if entries.len() == 0 {
        Seq::empty()
    } else {
        let pre = arg_errors(entries.drop_last());
        match entry_error(entries.last(), trait_seen(entries.drop_last())) {
            Some(e) => pre.push(e),
            None => pre,
        }
    }
}

/// The value of the `trait` field: the string of its first well-formed
/// occurrence, which counts only if no earlier entry named `trait`.
pub open spec fn trait_value(entries: Seq<MetaEntryV>) -> Option<Seq<char>>
    decreases entries.len(),
{
    if entries.len() == 0 {
        None
    } else {
        let prev = trait_value(entries.drop_last());
        if trait_seen(entries.drop_last()) {
            prev
        } else {
            match entries.last() {
                MetaEntryV::NameStr { name, value } => if name == trait_field_name() {
                    Some(value)
                } else {
                    prev
                },
                _ => prev,
            }
        }
    }
}

/// An argument list is well-formed when no entry contributes an error.
pub open spec fn parse_ok(entries: Seq<MetaEntryV>) -> bool {
    arg_errors(entries).len() == 0
}

/// The diagnostic text of one argument error.
pub open spec fn error_message(e: ConfigErrorV) -> Seq<char> {
    match e {
        ConfigErrorV::UnknownField { name } => "unknown field `"@ + name
            + "`; the only accepted field is `trait`"@,
        ConfigErrorV::DuplicateField => "duplicate field `trait`"@,
        ConfigErrorV::MissingValue => "field `trait` requires a value"@,
        ConfigErrorV::UnexpectedList => "field `trait` takes a string value, not a list"@,
        ConfigErrorV::WrongValueType => "field `trait` requires a string value"@,
        ConfigErrorV::UnexpectedLiteral => "unexpected literal"@,
    }
}

impl ConfigError {
    /// The diagnostic text for this error, to stand in a compile error.
    pub fn message(&self) -> (r: String)
        ensures
            r@ == error_message(self@),
    {
        match self {
            ConfigError::UnknownField { name } => {
                let mut m: String = "unknown field `".to_owned();
                m.append(name.as_str());
                m.append("`; the only accepted field is `trait`");
                m
            },
            ConfigError::DuplicateField => "duplicate field `trait`".to_owned(),
            ConfigError::MissingValue => "field `trait` requires a value".to_owned(),
            ConfigError::UnexpectedList => "field `trait` takes a string value, not a list"
                .to_owned(),
            ConfigError::WrongValueType => "field `trait` requires a string value".to_owned(),
            ConfigError::UnexpectedLiteral => "unexpected literal".to_owned(),
        }
    }
}

/// Whether the argument list is exactly one `trait = "..."` entry.
pub open spec fn single_trait_entry(entries: Seq<MetaEntryV>) -> bool {
    &&& entries.len() == 1
    &&& entries[0] matches MetaEntryV::NameStr { name, .. }
    &&& name == trait_field_name()
}

/// A well-formed argument list is empty or a single `trait = "..."` entry,
/// and its configuration is that entry's string, or `None` when it is empty.
pub proof fn lemma_parse_ok_characterization(entries: Seq<MetaEntryV>)
    ensures
        parse_ok(entries) <==> (entries.len() == 0 || single_trait_entry(entries)),
        parse_ok(entries) && entries.len() == 0 ==> trait_value(entries) is None,
        parse_ok(entries) && entries.len() == 1 ==> trait_value(entries) == Some(
            entries[0]->NameStr_value,
        ),
    decreases entries.len(),
{
    if entries.len() > 0 {
        let pre = entries.drop_last();
        lemma_parse_ok_characterization(pre);
        assert(entries.last() == entries[entries.len() - 1]);
        if parse_ok(entries) {
            // The last entry contributed no error, so it is a first,
            // well-formed `trait = "..."`; the prefix is error-free too,
            // and cannot itself hold a `trait` entry, so it is empty.
            assert(parse_ok(pre));
            assert(entry_error(entries.last(), trait_seen(pre)) is None);
            if pre.len() == 1 {
                assert(names_trait(pre.last()));
                assert(trait_seen(pre));
            }
            assert(pre.len() == 0);
        }
        if single_trait_entry(entries) {
            assert(arg_errors(pre) =~= Seq::<ConfigErrorV>::empty());
            assert(entry_error(entries.last(), trait_seen(pre)) is None);
        }
    }
}

proof fn lemma_err_views_push(s: Seq<ConfigError>, e: ConfigError)
    ensures
        err_views(s.push(e)) == err_views(s).push(e@),
{
    assert(err_views(s.push(e)) =~= err_views(s).push(e@));
}

/// Whether `name` is exactly the field name `trait`.
fn name_is_trait(name: &String) -> (r: bool)
    ensures
        r == (name@ == trait_field_name()),
{
    let t: String = "trait".to_owned();
    *name == t
}

/// Parses an argument list into a [`Config`], or reports every error in it.
///
/// Succeeds exactly on the well-formed lists; the configuration then holds
/// the value of the `trait` field, or `None` where the field is absent.
pub fn parse_config(entries: &Vec<MetaEntry>) -> (r: Result<Config, Vec<ConfigError>>)
    ensures
        parse_ok(entry_views(entries@)) ==> (r matches Ok(c)
            && c@ == trait_value(entry_views(entries@))),
        !parse_ok(entry_views(entries@)) ==> (r matches Err(es)
            && err_views(es@) == arg_errors(entry_views(entries@))),
{
    let ghost vs = entry_views(entries@);
    let mut errs: Vec<ConfigError> = Vec::new();
    let mut seen: bool = false;
    let mut value: Option<String> = None;
    let mut i: usize = 0;
    while i < entries.len()
        invariant
            i <= entries.len(),
            vs == entry_views(entries@),
            vs.len() == entries@.len(),
            err_views(errs@) == arg_errors(vs.take(i as int)),
            seen == trait_seen(vs.take(i as int)),
            opt_view(value) == trait_value(vs.take(i as int)),
        decreases entries@.len() - i,
    {
        let ghost pre = vs.take(i as int);
        let ghost cur = vs.take(i as int + 1);
        let ghost errs_before = errs@;
        proof {
            assert(cur.drop_last() =~= pre);
            assert(cur.last() == entries@[i as int]@);
        }
        let e = &entries[i];
        match e {
            MetaEntry::Literal => {
                errs.push(ConfigError::UnexpectedLiteral);
            },
            MetaEntry::Word { name } => {
                if name_is_trait(name) {
                    if seen {
                        errs.push(ConfigError::DuplicateField);
                    } else {
                        seen = true;
                        errs.push(ConfigError::MissingValue);
                    }
                } else {
                    errs.push(ConfigError::UnknownField { name: name.clone() });
                }
            },
            MetaEntry::NameStr { name, value: v } => {
                if name_is_trait(name) {
                    if seen {
                        errs.push(ConfigError::DuplicateField);
                    } else {
                        seen = true;
                        value = Some(v.clone());
                    }
                } else {
                    errs.push(ConfigError::UnknownField { name: name.clone() });
                }
            },
            MetaEntry::NameOther { name } => {
                if name_is_trait(name) {
                    if seen {
                        errs.push(ConfigError::DuplicateField);
                    } else {
                        seen = true;
                        errs.push(ConfigError::WrongValueType);
                    }
                } else {
                    errs.push(ConfigError::UnknownField { name: name.clone() });
                }
            },
            MetaEntry::NameList { name } => {
                if name_is_trait(name) {
                    if seen {
                        errs.push(ConfigError::DuplicateField);
                    } else {
                        seen = true;
                        errs.push(ConfigError::UnexpectedList);
                    }
                } else {
                    errs.push(ConfigError::UnknownField { name: name.clone() });
                }
            },
        }
        proof {
            if errs@ != errs_before {
                lemma_err_views_push(errs_before, errs@.last());
            }
        }
        i = i + 1;
    }
    proof {
        assert(vs.take(entries@.len() as int) =~= vs);
    }
    if errs.len() == 0 {
        Ok(Config { trait_name: value })
    } else {
        Err(errs)
    }
}

} // verus!
