use serde_enum_str::alias::{Alias, FromMetaError as AliasFromMetaError};
use serde_enum_str::meta::{Lit, Meta, MetaList, MetaNameValue, NestedMeta};
use serde_enum_str::rename::FromMetaError as RenameFromMetaError;
use serde_enum_str::rename_all::FromMetaError as RenameAllFromMetaError;
use serde_enum_str::rename_rule::{ParseError, RenameRule};
use serde_enum_str::{Rename, RenameAll, RenameAllIndependent, RenameIndependent};

fn name_value(path: &str, value: &str) -> Meta {
    Meta::NameValue(MetaNameValue {
        path: path.to_owned(),
        lit: Lit::Str(value.to_owned()),
    })
}

fn list(path: &str, items: &[(&str, &str)]) -> Meta {
    Meta::List(MetaList {
        path: path.to_owned(),
        nested: items
            .iter()
            .map(|(k, v)| NestedMeta::Meta(name_value(k, v)))
            .collect(),
    })
}

#[test]
fn test_ser_name_and_de_name() {
    assert_eq!(Rename::Normal("foo".into()).ser_name(), Some("foo"));
    assert_eq!(Rename::Normal("foo".into()).de_name(), Some("foo"));

    assert_eq!(
        Rename::Independent(RenameIndependent::Serialize("ser".into())).ser_name(),
        Some("ser")
    );
    assert_eq!(
        Rename::Independent(RenameIndependent::Serialize("ser".into())).de_name(),
        None
    );

    assert_eq!(
        Rename::Independent(RenameIndependent::Deserialize("de".into())).ser_name(),
        None
    );
    assert_eq!(
        Rename::Independent(RenameIndependent::Deserialize("de".into())).de_name(),
        Some("de")
    );

    assert_eq!(
        Rename::Independent(RenameIndependent::Both {
            serialize: "ser".into(),
            deserialize: "de".into(),
        })
        .ser_name(),
        Some("ser")
    );
    assert_eq!(
        Rename::Independent(RenameIndependent::Both {
            serialize: "ser".into(),
            deserialize: "de".into(),
        })
        .de_name(),
        Some("de")
    );
}

#[test]
fn test_ser_rule_and_de_rule() {
    assert_eq!(
        RenameAll::Normal(RenameRule::SnakeCase).ser_rule(),
        Some(&RenameRule::SnakeCase)
    );
    assert_eq!(
        RenameAll::Normal(RenameRule::SnakeCase).de_rule(),
        Some(&RenameRule::SnakeCase)
    );

    assert_eq!(
        RenameAll::Independent(RenameAllIndependent::Serialize(RenameRule::LowerCase)).ser_rule(),
        Some(&RenameRule::LowerCase)
    );
    assert_eq!(
        RenameAll::Independent(RenameAllIndependent::Serialize(RenameRule::LowerCase)).de_rule(),
        None
    );

    assert_eq!(
        RenameAll::Independent(RenameAllIndependent::Deserialize(RenameRule::UpperCase)).ser_rule(),
        None
    );
    assert_eq!(
        RenameAll::Independent(RenameAllIndependent::Deserialize(RenameRule::UpperCase)).de_rule(),
        Some(&RenameRule::UpperCase)
    );

    assert_eq!(
        RenameAll::Independent(RenameAllIndependent::Both {
            serialize: RenameRule::LowerCase,
            deserialize: RenameRule::UpperCase,
        })
        .ser_rule(),
        Some(&RenameRule::LowerCase)
    );
    assert_eq!(
        RenameAll::Independent(RenameAllIndependent::Both {
            serialize: RenameRule::LowerCase,
            deserialize: RenameRule::UpperCase,
        })
        .de_rule(),
        Some(&RenameRule::UpperCase)
    );
}

// The attributes `#[serde(rename = "name")]`, `#[serde(rename(serialize = "ser_name"))]`,
// `#[serde(rename(deserialize = "de_name"))]`,
// `#[serde(rename(serialize = "ser_name", deserialize = "de_name"))]`, the same four
// shapes of `rename_all`, and `#[serde(alias = ...)]` on a variant, as parsed.
#[test]
fn mod_simple() {
    assert_eq!(
        Rename::try_from(&name_value("rename", "name")).unwrap(),
        Rename::Normal("name".to_owned())
    );
    assert_eq!(
        Rename::try_from(&list("rename", &[("serialize", "ser_name")])).unwrap(),
        Rename::Independent(RenameIndependent::Serialize("ser_name".to_owned()))
    );
    assert_eq!(
        Rename::try_from(&list("rename", &[("deserialize", "de_name")])).unwrap(),
        Rename::Independent(RenameIndependent::Deserialize("de_name".to_owned()))
    );
    assert_eq!(
        Rename::try_from(&list(
            "rename",
            &[("serialize", "ser_name"), ("deserialize", "de_name")]
        ))
        .unwrap(),
        Rename::Independent(RenameIndependent::Both {
            serialize: "ser_name".to_owned(),
            deserialize: "de_name".to_owned()
        })
    );

    assert_eq!(
        RenameAll::try_from(&name_value("rename_all", "snake_case")).unwrap(),
        RenameAll::Normal(RenameRule::SnakeCase)
    );
    assert_eq!(
        RenameAll::try_from(&list("rename_all", &[("serialize", "lowercase")])).unwrap(),
        RenameAll::Independent(RenameAllIndependent::Serialize(RenameRule::LowerCase))
    );
    assert_eq!(
        RenameAll::try_from(&list("rename_all", &[("deserialize", "UPPERCASE")])).unwrap(),
        RenameAll::Independent(RenameAllIndependent::Deserialize(RenameRule::UpperCase))
    );
    assert_eq!(
        RenameAll::try_from(&list(
            "rename_all",
            &[("serialize", "lowercase"), ("deserialize", "UPPERCASE")]
        ))
        .unwrap(),
        RenameAll::Independent(RenameAllIndependent::Both {
            serialize: RenameRule::LowerCase,
            deserialize: RenameRule::UpperCase
        })
    );

    assert_eq!(
        [name_value("alias", "name")]
            .iter()
            .map(|x| Alias::try_from(x).unwrap())
            .collect::<Vec<_>>(),
        vec![Alias("name".to_owned())]
    );
    assert_eq!(
        [name_value("alias", "name_a"), name_value("alias", "name_b")]
            .iter()
            .map(|x| Alias::try_from(x).unwrap())
            .collect::<Vec<_>>(),
        vec![Alias("name_a".to_owned()), Alias("name_b".to_owned())]
    );
}

#[test]
fn rename_with_neither_name_is_rejected() {
    assert_eq!(
        Rename::try_from(&list("rename", &[])),
        Err(RenameFromMetaError::AtLeastOneOfSerAndDe)
    );
    assert!(matches!(
        RenameAll::try_from(&list("rename_all", &[])),
        Err(RenameAllFromMetaError::AtLeastOneOfSerAndDe)
    ));
}

#[test]
fn rename_attribute_shape_errors() {
    assert_eq!(
        Rename::try_from(&name_value("alias", "x")),
        Err(RenameFromMetaError::MetaTypeOrPathMismatch)
    );
    assert_eq!(
        Rename::try_from(&Meta::Path("rename".to_owned())),
        Err(RenameFromMetaError::MetaTypeOrPathMismatch)
    );
    assert_eq!(
        Rename::try_from(&Meta::NameValue(MetaNameValue {
            path: "rename".to_owned(),
            lit: Lit::Other("1".to_owned()),
        })),
        Err(RenameFromMetaError::LitTypeMismatch)
    );
    assert_eq!(
        Rename::try_from(&list("rename", &[("serialize", "a"), ("other", "b")])),
        Err(RenameFromMetaError::NestedMetaPathMismatch(1))
    );
    assert_eq!(
        Rename::try_from(&Meta::List(MetaList {
            path: "rename".to_owned(),
            nested: vec![NestedMeta::Lit(Lit::Str("a".to_owned()))],
        })),
        Err(RenameFromMetaError::NestedMetaTypeMismatch(0))
    );
    assert_eq!(
        Rename::try_from(&Meta::List(MetaList {
            path: "rename".to_owned(),
            nested: vec![NestedMeta::Meta(Meta::NameValue(MetaNameValue {
                path: "deserialize".to_owned(),
                lit: Lit::Other("true".to_owned()),
            }))],
        })),
        Err(RenameFromMetaError::LitTypeMismatch)
    );
}

#[test]
fn later_name_of_a_key_wins() {
    assert_eq!(
        Rename::try_from(&list("rename", &[("serialize", "a"), ("serialize", "b")])).unwrap(),
        Rename::Independent(RenameIndependent::Serialize("b".to_owned()))
    );
}

#[test]
fn rename_all_with_unknown_rule() {
    match RenameAll::try_from(&list(
        "rename_all",
        &[("serialize", "lowercase"), ("deserialize", "Upper")],
    )) {
        Err(RenameAllFromMetaError::RenameRuleParseError(ParseError::Unknown(s))) => {
            assert_eq!(s, "Upper")
        }
        other => panic!("{other:?}"),
    }
    match RenameAll::try_from(&name_value("rename_all", "foo")) {
        Err(RenameAllFromMetaError::RenameRuleParseError(err)) => assert!(err
            .msg_for_rename_all()
            .starts_with(r#"unknown rename rule `rename_all = "foo"`"#)),
        other => panic!("{other:?}"),
    }
}

#[test]
fn alias_errors() {
    assert_eq!(
        Alias::try_from(&list("alias", &[("serialize", "a")])),
        Err(AliasFromMetaError::MetaTypeOrPathMismatch)
    );
    assert_eq!(
        Alias::try_from(&Meta::NameValue(MetaNameValue {
            path: "alias".to_owned(),
            lit: Lit::Other("1".to_owned()),
        })),
        Err(AliasFromMetaError::LitTypeMismatch)
    );
}
