use context_err_derive::args::{parse_config, ConfigError, MetaEntry};
use context_err_derive::dispatch::{
    derive_context_err, unsupported_item_message, ItemKind, Outcome,
};

fn trait_entry(value: &str) -> MetaEntry {
    MetaEntry::NameStr { name: "trait".to_string(), value: value.to_string() }
}

#[test]
fn empty_args_parse_to_no_override() {
    let entries: Vec<MetaEntry> = Vec::new();
    match parse_config(&entries) {
        Ok(config) => assert_eq!(config.trait_name, None),
        Err(_) => panic!("empty arguments must parse"),
    }
}

#[test]
fn trait_arg_parses_to_its_string() {
    let entries = vec![trait_entry("Context")];
    match parse_config(&entries) {
        Ok(config) => assert_eq!(config.trait_name, Some("Context".to_string())),
        Err(_) => panic!("a single trait argument must parse"),
    }
}

#[test]
fn unknown_field_is_reported() {
    let entries = vec![MetaEntry::Word { name: "foo".to_string() }];
    match parse_config(&entries) {
        Ok(_) => panic!("an unknown field must not parse"),
        Err(errs) => {
            assert_eq!(errs.len(), 1);
            assert!(matches!(&errs[0], ConfigError::UnknownField { name } if name == "foo"));
            assert_eq!(
                errs[0].message(),
                "unknown field `foo`; the only accepted field is `trait`"
            );
        }
    }
}

#[test]
fn duplicate_trait_is_reported() {
    let entries = vec![trait_entry("A"), trait_entry("B")];
    match parse_config(&entries) {
        Ok(_) => panic!("a duplicate field must not parse"),
        Err(errs) => {
            assert_eq!(errs.len(), 1);
            assert!(matches!(errs[0], ConfigError::DuplicateField));
            assert_eq!(errs[0].message(), "duplicate field `trait`");
        }
    }
}

#[test]
fn bare_trait_word_is_reported() {
    let entries = vec![MetaEntry::Word { name: "trait".to_string() }];
    match parse_config(&entries) {
        Ok(_) => panic!("a bare `trait` must not parse"),
        Err(errs) => {
            assert_eq!(errs.len(), 1);
            assert!(matches!(errs[0], ConfigError::MissingValue));
            assert_eq!(errs[0].message(), "field `trait` requires a value");
        }
    }
}

#[test]
fn trait_list_is_reported() {
    let entries = vec![MetaEntry::NameList { name: "trait".to_string() }];
    match parse_config(&entries) {
        Ok(_) => panic!("a nested list must not parse"),
        Err(errs) => {
            assert_eq!(errs.len(), 1);
            assert!(matches!(errs[0], ConfigError::UnexpectedList));
            assert_eq!(errs[0].message(), "field `trait` takes a string value, not a list");
        }
    }
}

#[test]
fn non_string_trait_value_is_reported() {
    let entries = vec![MetaEntry::NameOther { name: "trait".to_string() }];
    match parse_config(&entries) {
        Ok(_) => panic!("a non-string value must not parse"),
        Err(errs) => {
            assert_eq!(errs.len(), 1);
            assert!(matches!(errs[0], ConfigError::WrongValueType));
            assert_eq!(errs[0].message(), "field `trait` requires a string value");
        }
    }
}

#[test]
fn bare_literal_is_reported() {
    let entries = vec![MetaEntry::Literal];
    match parse_config(&entries) {
        Ok(_) => panic!("a bare literal must not parse"),
        Err(errs) => {
            assert_eq!(errs.len(), 1);
            assert!(matches!(errs[0], ConfigError::UnexpectedLiteral));
            assert_eq!(errs[0].message(), "unexpected literal");
        }
    }
}

#[test]
fn all_errors_are_reported_in_entry_order() {
    let entries = vec![
        MetaEntry::Word { name: "foo".to_string() },
        trait_entry("A"),
        trait_entry("B"),
        MetaEntry::Literal,
    ];
    match parse_config(&entries) {
        Ok(_) => panic!("a malformed list must not parse"),
        Err(errs) => {
            assert_eq!(errs.len(), 3);
            assert!(matches!(&errs[0], ConfigError::UnknownField { name } if name == "foo"));
            assert!(matches!(errs[1], ConfigError::DuplicateField));
            assert!(matches!(errs[2], ConfigError::UnexpectedLiteral));
        }
    }
}

#[test]
fn first_trait_value_is_kept_on_duplicate() {
    let entries = vec![trait_entry("A"), trait_entry("B")];
    match derive_context_err(&entries, ItemKind::Struct) {
        Outcome::ArgErrors(errs) => {
            assert_eq!(errs.len(), 1);
            assert!(matches!(errs[0], ConfigError::DuplicateField));
        }
        _ => panic!("a duplicate field must yield the argument diagnostics"),
    }
}

#[test]
fn bad_args_yield_diagnostics_not_derivation() {
    let entries = vec![MetaEntry::Word { name: "foo".to_string() }];
    for kind in [ItemKind::Enum, ItemKind::Struct, ItemKind::Other] {
        match derive_context_err(&entries, kind) {
            Outcome::ArgErrors(errs) => assert_eq!(errs.len(), 1),
            _ => panic!("malformed arguments must yield the argument diagnostics"),
        }
    }
}

#[test]
fn unsupported_item_gets_the_fixed_diagnostic() {
    let entries: Vec<MetaEntry> = Vec::new();
    match derive_context_err(&entries, ItemKind::Other) {
        Outcome::UnsupportedItem => {}
        _ => panic!("an unsupported item must be rejected"),
    }
    assert_eq!(
        unsupported_item_message(),
        "this macro only works for structs and enums"
    );
}

#[test]
fn enum_invocation_reaches_enum_derivation() {
    let entries = vec![trait_entry("Context")];
    match derive_context_err(&entries, ItemKind::Enum) {
        Outcome::DeriveEnum(config) => {
            assert_eq!(config.trait_name, Some("Context".to_string()))
        }
        _ => panic!("an enum must reach the enum derivation"),
    }
}

#[test]
fn struct_invocation_reaches_struct_derivation() {
    let entries: Vec<MetaEntry> = Vec::new();
    match derive_context_err(&entries, ItemKind::Struct) {
        Outcome::DeriveStruct(config) => assert_eq!(config.trait_name, None),
        _ => panic!("a struct must reach the struct derivation"),
    }
}

#[test]
fn arg_errors_take_precedence_over_unsupported_item() {
    let entries = vec![MetaEntry::Literal];
    match derive_context_err(&entries, ItemKind::Other) {
        Outcome::ArgErrors(errs) => {
            assert_eq!(errs.len(), 1);
            assert!(matches!(errs[0], ConfigError::UnexpectedLiteral));
        }
        _ => panic!("argument diagnostics come before the item check"),
    }
}
