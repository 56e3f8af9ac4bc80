//! The eight case conventions a container may ask its members to be renamed to.
use vstd::prelude::*;

use crate::text::{
    ascii_lower, ascii_upper, char_is_uppercase, lower_char, lower_str, owned,
    push_char, push_rest, replace_char, replace_str, str_eq, to_lower_char, to_upper_char,
    upper_char, upper_letter, upper_str,
};

verus! {

#[derive(PartialEq, Eq, Structural, Hash, Debug, Clone, Copy)]
pub enum RenameRule {
    /// Rename direct children to "lowercase" style.
    LowerCase,
    /// Rename direct children to "UPPERCASE" style.
    UpperCase,
    /// Rename direct children to "PascalCase" style, as typically used for
    /// enum variants.
    PascalCase,
    /// Rename direct children to "camelCase" style.
    CamelCase,
    /// Rename direct children to "snake_case" style, as commonly used for
    /// fields.
    SnakeCase,
    /// Rename direct children to "SCREAMING_SNAKE_CASE" style, as commonly
    /// used for constants.
    ScreamingSnakeCase,
    /// Rename direct children to "kebab-case" style.
    KebabCase,
    /// Rename direct children to "SCREAMING-KEBAB-CASE" style.
    ScreamingKebabCase,
}

/// The rules in declaration order.
pub open spec fn all_rules() -> Seq<RenameRule> {
    seq![
        RenameRule::LowerCase,
        RenameRule::UpperCase,
        RenameRule::PascalCase,
        RenameRule::CamelCase,
        RenameRule::SnakeCase,
        RenameRule::ScreamingSnakeCase,
        RenameRule::KebabCase,
        RenameRule::ScreamingKebabCase,
    ]
}

/// The rule whose canonical key is `s`, if any.
pub open spec fn parse_rule(s: Seq<char>) -> Option<RenameRule> {
    if exists|r: RenameRule| r.key() == s {
        Some(choose|r: RenameRule| r.key() == s)
    } else {
        None
    }
}

/// Snake-casing of a variant name: each character ASCII-lowered, and an
/// underscore put before each upper-case character but the first.
pub open spec fn snake_of_variant(s: Seq<char>) -> Seq<char>
    decreases s.len(),
{
    if s.len() == 0 {
        Seq::empty()
    } else {
        let pre = snake_of_variant(s.drop_last());
        if s.len() > 1 && upper_letter(s.last()) {
            pre.push('_').push(lower_char(s.last()))
        } else {
            pre.push(lower_char(s.last()))
        }
    }
}

/// The first character ASCII-lowered, the rest kept.
pub open spec fn lower_first(s: Seq<char>) -> Seq<char> {
    if s.len() == 0 {
        s
    } else {
        seq![lower_char(s[0])] + s.skip(1)
    }
}

/// Pascal-casing of a field name, with whether the next kept character is
/// to be capitalized: underscores are dropped and the character after each,
/// and the first, is ASCII-uppered.
pub open spec fn pascal_of_field_state(s: Seq<char>) -> (Seq<char>, bool)
    decreases s.len(),
{
    if s.len() == 0 {
        (Seq::empty(), true)
    } else {
        let (pre, capitalize) = pascal_of_field_state(s.drop_last());
        let ch = s.last();
        if ch == '_' {
            (pre, true)
        } else if capitalize {
            (pre.push(upper_char(ch)), false)
        } else {
            (pre.push(ch), false)
        }
    }
}

pub open spec fn pascal_of_field(s: Seq<char>) -> Seq<char> {
    pascal_of_field_state(s).0
}

impl RenameRule {
    /// The canonical key of the rule, used both to print and to parse it.
    pub open spec fn key(self) -> Seq<char> {
        match self {
            RenameRule::LowerCase => "lowercase"@,
            RenameRule::UpperCase => "UPPERCASE"@,
            RenameRule::PascalCase => "PascalCase"@,
            RenameRule::CamelCase => "camelCase"@,
            RenameRule::SnakeCase => "snake_case"@,
            RenameRule::ScreamingSnakeCase => "SCREAMING_SNAKE_CASE"@,
            RenameRule::KebabCase => "kebab-case"@,
            RenameRule::ScreamingKebabCase => "SCREAMING-KEBAB-CASE"@,
        }
    }

    /// A variant name (written in PascalCase) under this rule.
    pub open spec fn variant_name(self, s: Seq<char>) -> Seq<char> {
        match self {
            RenameRule::PascalCase => s,
            RenameRule::LowerCase => ascii_lower(s),
            RenameRule::UpperCase => ascii_upper(s),
            RenameRule::CamelCase => lower_first(s),
            RenameRule::SnakeCase => snake_of_variant(s),
            RenameRule::ScreamingSnakeCase => ascii_upper(snake_of_variant(s)),
            RenameRule::KebabCase => replace_char(snake_of_variant(s), '_', '-'),
            RenameRule::ScreamingKebabCase => replace_char(
                ascii_upper(snake_of_variant(s)),
                '_',
                '-',
            ),
        }
    }

    /// A field name (written in snake_case) under this rule.
    pub open spec fn field_name(self, s: Seq<char>) -> Seq<char> {
        match self {
            RenameRule::LowerCase | RenameRule::SnakeCase => s,
            RenameRule::UpperCase | RenameRule::ScreamingSnakeCase => ascii_upper(s),
            RenameRule::PascalCase => pascal_of_field(s),
            RenameRule::CamelCase => lower_first(pascal_of_field(s)),
            RenameRule::KebabCase => replace_char(s, '_', '-'),
            RenameRule::ScreamingKebabCase => replace_char(ascii_upper(s), '_', '-'),
        }
    }

    /// All rules, in declaration order.
    pub fn all() -> (r: Vec<RenameRule>)
        ensures
            r@ == all_rules(),
    {
        let r = vec![
            RenameRule::LowerCase,
            RenameRule::UpperCase,
            RenameRule::PascalCase,
            RenameRule::CamelCase,
            RenameRule::SnakeCase,
            RenameRule::ScreamingSnakeCase,
            RenameRule::KebabCase,
            RenameRule::ScreamingKebabCase,
        ];
        assert(r@ =~= all_rules());
        r
    }

    pub fn from_rename_all_str(s: &str) -> (r: Result<Self, ParseError>)
        ensures
            match r {
                Ok(rule) => parse_rule(s@) == Some(rule),
                Err(ParseError::Unknown(t)) => parse_rule(s@) is None && t@ == s@,
            },
    {
        let rules = RenameRule::all();
        let mut i: usize = 0;
        while i < rules.len()
            invariant
                i <= rules@.len(),
                rules@ == all_rules(),
                forall|j: int| 0 <= j < i ==> (#[trigger] rules@[j]).key() != s@,
            decreases rules.len() - i,
        {
            let rule = rules[i];
            if str_eq(s, rule.to_rename_all_str()) {
                proof {
                    lemma_key_injective(rule);
                }
                return Ok(rule);
            }
            i = i + 1;
        }
        proof {
            assert forall|x: RenameRule| x.key() != s@ by {
                lemma_in_all_rules(x);
            }
        }
        Err(ParseError::Unknown(owned(s)))
    }

    pub fn to_rename_all_str(&self) -> (r: &'static str)
        ensures
            r@ == self.key(),
    {
        match self {
            RenameRule::LowerCase => "lowercase",
            RenameRule::UpperCase => "UPPERCASE",
            RenameRule::PascalCase => "PascalCase",
            RenameRule::CamelCase => "camelCase",
            RenameRule::SnakeCase => "snake_case",
            RenameRule::ScreamingSnakeCase => "SCREAMING_SNAKE_CASE",
            RenameRule::KebabCase => "kebab-case",
            RenameRule::ScreamingKebabCase => "SCREAMING-KEBAB-CASE",
        }
    }

    /// The canonical key as an owned string.
    pub fn to_string(&self) -> (r: String)
        ensures
            r@ == self.key(),
    {
        owned(self.to_rename_all_str())
    }

    /// Parses a canonical key; the same as `from_rename_all_str`.
    pub fn try_from(s: &str) -> (r: Result<Self, ParseError>)
        ensures
            match r {
                Ok(rule) => parse_rule(s@) == Some(rule),
                Err(ParseError::Unknown(t)) => parse_rule(s@) is None && t@ == s@,
            },
    {
        Self::from_rename_all_str(s)
    }

    /// Apply a renaming rule to an enum variant, returning the version expected in the source.
    pub fn apply_to_variant(&self, variant: &str) -> (r: String)
        ensures
            r@ == self.variant_name(variant@),
    {
        match self {
            RenameRule::PascalCase => owned(variant),
            RenameRule::LowerCase => lower_str(variant),
            RenameRule::UpperCase => upper_str(variant),
            RenameRule::CamelCase => lower_first_str(variant),
            RenameRule::SnakeCase => snake_variant(variant),
            RenameRule::ScreamingSnakeCase => {
                let snake = snake_variant(variant);
                upper_str(snake.as_str())
            },
            RenameRule::KebabCase => {
                let snake = snake_variant(variant);
                replace_str(snake.as_str(), '_', '-')
            },
            RenameRule::ScreamingKebabCase => {
                let snake = snake_variant(variant);
                let screaming = upper_str(snake.as_str());
                replace_str(screaming.as_str(), '_', '-')
            },
        }
    }

    /// Apply a renaming rule to a struct field, returning the version expected in the source.
    pub fn apply_to_field(&self, field: &str) -> (r: String)
        ensures
            r@ == self.field_name(field@),
    {
        match self {
            RenameRule::LowerCase | RenameRule::SnakeCase => owned(field),
            RenameRule::UpperCase | RenameRule::ScreamingSnakeCase => upper_str(field),
            RenameRule::PascalCase => pascal_field(field),
            RenameRule::CamelCase => {
                let pascal = pascal_field(field);
                lower_first_str(pascal.as_str())
            },
            RenameRule::KebabCase => replace_str(field, '_', '-'),
            RenameRule::ScreamingKebabCase => {
                let screaming = upper_str(field);
                replace_str(screaming.as_str(), '_', '-')
            },
        }
    }
}

impl std::str::FromStr for RenameRule {
    type Err = ParseError;

    fn from_str(s: &str) -> Result<Self, Self::Err> {
        Self::from_rename_all_str(s)
    }
}

fn lower_first_str(s: &str) -> (r: String)
    ensures
        r@ == lower_first(s@),
{
    let mut out = String::new();
    if s.unicode_len() == 0 {
        return out;
    }
    push_char(&mut out, to_lower_char(s.get_char(0)));
    push_rest(&mut out, s, 1);
    assert(out@ =~= lower_first(s@));
    out
}

fn snake_variant(s: &str) -> (r: String)
    ensures
        r@ == snake_of_variant(s@),
{
    let n = s.unicode_len();
    let mut snake = String::new();
    let mut i: usize = 0;
    while i < n
        invariant
            i <= n,
            n == s@.len(),
            snake@ == snake_of_variant(s@.take(i as int)),
        decreases n - i,
    {
        let ch = s.get_char(i);
        if i > 0 && char_is_uppercase(ch) {
            push_char(&mut snake, '_');
        }
        push_char(&mut snake, to_lower_char(ch));
        i = i + 1;
        assert(s@.take(i as int).drop_last() =~= s@.take(i - 1));
    }
    assert(s@.take(n as int) =~= s@);
    snake
}

fn pascal_field(s: &str) -> (r: String)
    ensures
        r@ == pascal_of_field(s@),
{
    let n = s.unicode_len();
    let mut pascal = String::new();
    let mut capitalize = true;
    let mut i: usize = 0;
    while i < n
        invariant
            i <= n,
            n == s@.len(),
            (pascal@, capitalize) == pascal_of_field_state(s@.take(i as int)),
        decreases n - i,
    {
        let ch = s.get_char(i);
        if ch == '_' {
            capitalize = true;
        } else if capitalize {
            push_char(&mut pascal, to_upper_char(ch));
            capitalize = false;
        } else {
            push_char(&mut pascal, ch);
        }
        i = i + 1;
        assert(s@.take(i as int).drop_last() =~= s@.take(i - 1));
    }
    assert(s@.take(n as int) =~= s@);
    pascal
}

/// Every rule is among `all_rules()`.
pub proof fn lemma_in_all_rules(rule: RenameRule)
    ensures
        exists|j: int| 0 <= j < 8 && all_rules()[j] == rule,
{
    let j: int = match rule {
        RenameRule::LowerCase => 0,
        RenameRule::UpperCase => 1,
        RenameRule::PascalCase => 2,
        RenameRule::CamelCase => 3,
        RenameRule::SnakeCase => 4,
        RenameRule::ScreamingSnakeCase => 5,
        RenameRule::KebabCase => 6,
        RenameRule::ScreamingKebabCase => 7,
    };
    assert(all_rules()[j] == rule);
}

/// No two rules share a canonical key.
pub proof fn lemma_key_injective(rule: RenameRule)
    ensures
        forall|other: RenameRule| #[trigger] other.key() == rule.key() ==> other == rule,
        parse_rule(rule.key()) == Some(rule),
{
    reveal_strlit("lowercase");
    reveal_strlit("UPPERCASE");
    reveal_strlit("PascalCase");
    reveal_strlit("camelCase");
    reveal_strlit("snake_case");
    reveal_strlit("SCREAMING_SNAKE_CASE");
    reveal_strlit("kebab-case");
    reveal_strlit("SCREAMING-KEBAB-CASE");
    assert forall|other: RenameRule| #[trigger] other.key() == rule.key() implies other == rule by {
        if other != rule {
            assert(other.key()[0] != rule.key()[0] || other.key()[9] != rule.key()[9]);
        }
    }
}

/// Parsing the canonical key of any rule gives that rule back.
pub proof fn lemma_parse_canonical_key(rule: RenameRule)
    ensures
        parse_rule(rule.key()) == Some(rule),
{
    lemma_key_injective(rule);
}

/// PascalCase leaves every variant name as it is.
pub proof fn lemma_pascal_is_identity(s: Seq<char>)
    ensures
        RenameRule::PascalCase.variant_name(s) == s,
{
}

/// kebab-case is snake_case with each underscore turned into a hyphen, and
/// SCREAMING-KEBAB-CASE is SCREAMING_SNAKE_CASE likewise.
pub proof fn lemma_kebab_is_dashed_snake(s: Seq<char>)
    ensures
        RenameRule::KebabCase.variant_name(s) == replace_char(
            RenameRule::SnakeCase.variant_name(s),
            '_',
            '-',
        ),
        RenameRule::ScreamingKebabCase.variant_name(s) == replace_char(
            RenameRule::ScreamingSnakeCase.variant_name(s),
            '_',
            '-',
        ),
{
}

#[derive(Debug)]
pub enum ParseError {
    Unknown(String),
}

/// The quoted keys of `rules`, separated by `", "`.
pub open spec fn quoted_keys(rules: Seq<RenameRule>) -> Seq<char>
    decreases rules.len(),
{
    if rules.len() == 0 {
        Seq::empty()
    } else if rules.len() == 1 {
        "\""@ + rules[0].key() + "\""@
    } else {
        quoted_keys(rules.drop_last()) + ", "@ + "\""@ + rules.last().key() + "\""@
    }
}

/// The message given for an unknown rule name `s` in `rename_all`.
pub open spec fn unknown_rule_message(s: Seq<char>) -> Seq<char> {
    "unknown rename rule `rename_all = \""@ + s + "\"`, expected one of "@ + quoted_keys(
        all_rules(),
    )
}

impl ParseError {
    pub fn msg_for_rename_all(&self) -> (r: String)
        ensures
            match self {
                ParseError::Unknown(s) => r@ == unknown_rule_message(s@),
            },
    {
        match self {
            ParseError::Unknown(s) => {
                let mut msg = String::from_str("unknown rename rule `rename_all = \"");
                msg.append(s.as_str());
                msg.append("\"`, expected one of ");
                let ghost head = msg@;
                let rules = RenameRule::all();
                let mut i: usize = 0;
                while i < rules.len()
                    invariant
                        i <= rules@.len(),
                        rules@ == all_rules(),
                        msg@ == head + quoted_keys(rules@.take(i as int)),
                    decreases rules.len() - i,
                {
                    if i > 0 {
                        msg.append(", ");
                    }
                    msg.append("\"");
                    msg.append(rules[i].to_rename_all_str());
                    msg.append("\"");
                    i = i + 1;
                    assert(rules@.take(i as int).drop_last() =~= rules@.take(i - 1));
                    assert(msg@ =~= head + quoted_keys(rules@.take(i as int)));
                }
                assert(rules@.take(8) =~= rules@);
                msg
            },
        }
    }
}

} // verus!
