use std::str::FromStr;

use serde_enum_str::rename_rule::{ParseError, RenameRule};
use RenameRule::{
    CamelCase, KebabCase, LowerCase, PascalCase, ScreamingKebabCase, ScreamingSnakeCase, SnakeCase,
    UpperCase,
};

const RENAME_RULES: &[(&str, RenameRule)] = &[
    ("lowercase", RenameRule::LowerCase),
    ("UPPERCASE", RenameRule::UpperCase),
    ("PascalCase", RenameRule::PascalCase),
    ("camelCase", RenameRule::CamelCase),
    ("snake_case", RenameRule::SnakeCase),
    ("SCREAMING_SNAKE_CASE", RenameRule::ScreamingSnakeCase),
    ("kebab-case", RenameRule::KebabCase),
    ("SCREAMING-KEBAB-CASE", RenameRule::ScreamingKebabCase),
];

#[test]
fn test_from_rename_all_str_and_to_rename_all_str() {
    for (name, rule) in RENAME_RULES {
        assert_eq!(&RenameRule::from_rename_all_str(name).unwrap(), rule);
        assert_eq!(&rule.to_rename_all_str(), name);
    }

    match RenameRule::from_rename_all_str("foo") {
        Ok(_) => panic!(""),
        Err(ParseError::Unknown(s)) => assert_eq!(s, "foo"),
    }
}

#[test]
fn test_impl_trait() {
    let (name, rule) = RENAME_RULES.first().unwrap().to_owned();
    assert_eq!(RenameRule::from_str(name).unwrap(), rule);
    assert_eq!(name.parse::<RenameRule>().unwrap(), rule);
    assert_eq!(RenameRule::try_from(name).unwrap(), rule);
    assert_eq!(rule.to_string(), name);
}

#[test]
fn test_parse_error_msg() {
    match RenameRule::from_rename_all_str("foo") {
        Ok(_) => panic!(""),
        Err(err) => assert_eq!(
            err.msg_for_rename_all(),
            r#"unknown rename rule `rename_all = "foo"`, expected one of "lowercase", "UPPERCASE", "PascalCase", "camelCase", "snake_case", "SCREAMING_SNAKE_CASE", "kebab-case", "SCREAMING-KEBAB-CASE""#
        ),
    }
}

#[test]
fn rename_variants() {
    for &(original, lower, upper, camel, snake, screaming, kebab, screaming_kebab) in &[
        (
            "Outcome", "outcome", "OUTCOME", "outcome", "outcome", "OUTCOME", "outcome",
            "OUTCOME",
        ),
        (
            "VeryTasty",
            "verytasty",
            "VERYTASTY",
            "veryTasty",
            "very_tasty",
            "VERY_TASTY",
            "very-tasty",
            "VERY-TASTY",
        ),
        ("A", "a", "A", "a", "a", "A", "a", "A"),
        ("Z42", "z42", "Z42", "z42", "z42", "Z42", "z42", "Z42"),
    ] {
        assert_eq!(LowerCase.apply_to_variant(original), lower);
        assert_eq!(UpperCase.apply_to_variant(original), upper);
        assert_eq!(PascalCase.apply_to_variant(original), original);
        assert_eq!(CamelCase.apply_to_variant(original), camel);
        assert_eq!(SnakeCase.apply_to_variant(original), snake);
        assert_eq!(ScreamingSnakeCase.apply_to_variant(original), screaming);
        assert_eq!(KebabCase.apply_to_variant(original), kebab);
        assert_eq!(
            ScreamingKebabCase.apply_to_variant(original),
            screaming_kebab
        );
    }
}

#[test]
fn rename_fields() {
    for &(original, upper, pascal, camel, screaming, kebab, screaming_kebab) in &[
        (
            "outcome", "OUTCOME", "Outcome", "outcome", "OUTCOME", "outcome", "OUTCOME",
        ),
        (
            "very_tasty",
            "VERY_TASTY",
            "VeryTasty",
            "veryTasty",
            "VERY_TASTY",
            "very-tasty",
            "VERY-TASTY",
        ),
        ("a", "A", "A", "a", "A", "a", "A"),
        ("z42", "Z42", "Z42", "z42", "Z42", "z42", "Z42"),
    ] {
        assert_eq!(UpperCase.apply_to_field(original), upper);
        assert_eq!(PascalCase.apply_to_field(original), pascal);
        assert_eq!(CamelCase.apply_to_field(original), camel);
        assert_eq!(SnakeCase.apply_to_field(original), original);
        assert_eq!(ScreamingSnakeCase.apply_to_field(original), screaming);
        assert_eq!(KebabCase.apply_to_field(original), kebab);
        assert_eq!(ScreamingKebabCase.apply_to_field(original), screaming_kebab);
    }
}

#[test]
fn every_canonical_key_parses_back_to_its_rule() {
    for rule in RenameRule::all() {
        assert_eq!(
            RenameRule::from_rename_all_str(rule.to_rename_all_str()).unwrap(),
            rule
        );
    }
}

#[test]
fn parsing_is_exact_and_case_sensitive() {
    for name in ["SnakeCase", "snake_case ", "", "Lowercase", "kebab_case"] {
        match RenameRule::from_rename_all_str(name) {
            Ok(rule) => panic!("{name:?} parsed as {rule:?}"),
            Err(ParseError::Unknown(s)) => assert_eq!(s, name),
        }
    }
}

#[test]
fn pascal_case_keeps_any_identifier() {
    for ident in ["", "VeryTasty", "already_snake", "ÉtéX", "a-b"] {
        assert_eq!(RenameRule::PascalCase.apply_to_variant(ident), ident);
    }
}

#[test]
fn kebab_is_snake_with_hyphens() {
    for ident in ["VeryTastyFood", "A", "Z42", "HTTPServer", "x_Y", ""] {
        assert_eq!(
            RenameRule::KebabCase.apply_to_variant(ident),
            RenameRule::SnakeCase.apply_to_variant(ident).replace('_', "-")
        );
        assert_eq!(
            RenameRule::ScreamingKebabCase.apply_to_variant(ident),
            RenameRule::ScreamingSnakeCase
                .apply_to_variant(ident)
                .replace('_', "-")
        );
    }
}

#[test]
fn snake_case_segments_on_every_capital() {
    assert_eq!(RenameRule::SnakeCase.apply_to_variant("HTTPServer"), "h_t_t_p_server");
    assert_eq!(RenameRule::SnakeCase.apply_to_variant("x_Y"), "x__y");
    assert_eq!(RenameRule::ScreamingSnakeCase.apply_to_variant("OnHold"), "ON_HOLD");
}

#[test]
fn non_ascii_characters_are_not_case_folded() {
    assert_eq!(RenameRule::LowerCase.apply_to_variant("ÉtéA"), "Étéa");
    assert_eq!(RenameRule::UpperCase.apply_to_variant("étéa"), "éTéA");
    assert_eq!(RenameRule::SnakeCase.apply_to_variant("AÉ"), "a_É");
    assert_eq!(RenameRule::CamelCase.apply_to_variant("Été"), "Été");
}

#[test]
fn empty_names_stay_empty() {
    for rule in RenameRule::all() {
        assert_eq!(rule.apply_to_variant(""), "");
        assert_eq!(rule.apply_to_field(""), "");
    }
    assert_eq!(RenameRule::CamelCase.apply_to_field("_"), "");
}

#[test]
fn pascal_field_drops_underscores() {
    assert_eq!(RenameRule::PascalCase.apply_to_field("__a__b_"), "AB");
    assert_eq!(RenameRule::CamelCase.apply_to_field("_x_yz"), "xYz");
}
