//! serde's case-conversion rules (`rename_all = "..."`), applied to a field name written in
//! `snake_case` or to a variant name written in `PascalCase`.

use crate::text::{
    ascii_lower, ascii_upper, char_at, char_count, is_ascii_char, is_uppercase, push_char,
    same_text, to_ascii_lower, to_ascii_upper, unicode_uppercase,
};
use vstd::prelude::*;

verus! {

/// One of serde's `rename_all` spellings, or `Verbatim` for "leave the name as written".
#[derive(Clone, Copy, Debug, PartialEq, Eq, Structural)]
pub enum RenameRule {
    Verbatim,
    LowerCase,
    UpperCase,
    PascalCase,
    CamelCase,
    SnakeCase,
    ScreamingSnakeCase,
    KebabCase,
    ScreamingKebabCase,
}

pub open spec fn upper_all(s: Seq<char>) -> Seq<char> {
    Seq::new(s.len(), |i: int| ascii_upper(s[i]))
}

pub open spec fn lower_all(s: Seq<char>) -> Seq<char> {
    Seq::new(s.len(), |i: int| ascii_lower(s[i]))
}

/// Every `_` written as `-`.
pub open spec fn dashed(s: Seq<char>) -> Seq<char> {
    Seq::new(s.len(), |i: int| if s[i] == '_' { '-' } else { s[i] })
}

/// The first character moved to ASCII lower case.
pub open spec fn lower_first(s: Seq<char>) -> Seq<char> {
    Seq::new(s.len(), |i: int| if i == 0 { ascii_lower(s[i]) } else { s[i] })
}

/// The first `n` characters of a `snake_case` name read into `PascalCase`: each `_` dropped, and
/// the character after it (and the very first) moved to upper case. The flag is whether the next
/// character would be capitalized.
pub open spec fn pascal_prefix(s: Seq<char>, n: nat) -> (Seq<char>, bool)
    recommends
        n <= s.len(),
    decreases n,
{
    if n == 0 {
        (Seq::empty(), true)
    } else {
        let (out, capitalize) = pascal_prefix(s, (n - 1) as nat);
        let ch = s[n - 1];
        if ch == '_' {
            (out, true)
        } else if capitalize {
            (out.push(ascii_upper(ch)), false)
        } else {
            (out.push(ch), false)
        }
    }
}

pub open spec fn pascal_field(s: Seq<char>) -> Seq<char> {
    pascal_prefix(s, s.len()).0
}

pub open spec fn camel_field(s: Seq<char>) -> Seq<char> {
    lower_first(pascal_field(s))
}

/// The first `n` characters of a `PascalCase` name read into `snake_case`: an `_` ahead of every
/// upper-case character but the first, every character moved to ASCII lower case.
pub open spec fn snake_prefix(s: Seq<char>, n: nat) -> Seq<char>
    recommends
        n <= s.len(),
    decreases n,
{
    if n == 0 {
        Seq::empty()
    } else {
        let before = snake_prefix(s, (n - 1) as nat);
        let ch = s[n - 1];
        let marked = if n - 1 > 0 && unicode_uppercase(ch) {
            before.push('_')
        } else {
            before
        };
        marked.push(ascii_lower(ch))
    }
}

pub open spec fn snake_variant(s: Seq<char>) -> Seq<char> {
    snake_prefix(s, s.len())
}

/// Whether `s` has a first character that slicing one byte off can take, the way serde's own
/// `camelCase` rule takes it: present, and ASCII.
pub open spec fn ascii_led(s: Seq<char>) -> bool {
    s.len() > 0 && is_ascii_char(s[0])
}

/// Whether `rule` can be applied to the variant name `s` without failing.
pub open spec fn variant_rule_applies(rule: RenameRule, s: Seq<char>) -> bool {
    rule == RenameRule::CamelCase ==> ascii_led(s)
}

/// Whether `rule` can be applied to the field name `s` without failing.
pub open spec fn field_rule_applies(rule: RenameRule, s: Seq<char>) -> bool {
    rule == RenameRule::CamelCase ==> ascii_led(pascal_field(s))
}

/// What `rule` makes of the `PascalCase` variant name `s`.
pub open spec fn variant_renamed(rule: RenameRule, s: Seq<char>) -> Seq<char> {
    match rule {
        RenameRule::Verbatim | RenameRule::PascalCase => s,
        RenameRule::LowerCase => lower_all(s),
        RenameRule::UpperCase => upper_all(s),
        RenameRule::CamelCase => lower_first(s),
        RenameRule::SnakeCase => snake_variant(s),
        RenameRule::ScreamingSnakeCase => upper_all(snake_variant(s)),
        RenameRule::KebabCase => dashed(snake_variant(s)),
        RenameRule::ScreamingKebabCase => dashed(upper_all(snake_variant(s))),
    }
}

/// What `rule` makes of the `snake_case` field name `s`.
pub open spec fn field_renamed(rule: RenameRule, s: Seq<char>) -> Seq<char> {
    match rule {
        RenameRule::Verbatim | RenameRule::LowerCase | RenameRule::SnakeCase => s,
        RenameRule::UpperCase | RenameRule::ScreamingSnakeCase => upper_all(s),
        RenameRule::PascalCase => pascal_field(s),
        RenameRule::CamelCase => camel_field(s),
        RenameRule::KebabCase => dashed(s),
        RenameRule::ScreamingKebabCase => dashed(upper_all(s)),
    }
}

fn upper_text(s: &str) -> (r: String)
    ensures
        r@ == upper_all(s@),
{
    let n = char_count(s);
    let mut r = String::new();
    let mut i: usize = 0;
    while i < n
        invariant
            n == s@.len(),
            i <= n,
            r@ =~= upper_all(s@).take(i as int),
        decreases n - i,
    {
        let c = to_ascii_upper(char_at(s, i));
        push_char(&mut r, c);
        i = i + 1;
    }
    r
}

fn lower_text(s: &str) -> (r: String)
    ensures
        r@ == lower_all(s@),
{
    let n = char_count(s);
    let mut r = String::new();
    let mut i: usize = 0;
    while i < n
        invariant
            n == s@.len(),
            i <= n,
            r@ =~= lower_all(s@).take(i as int),
        decreases n - i,
    {
        let c = to_ascii_lower(char_at(s, i));
        push_char(&mut r, c);
        i = i + 1;
    }
    r
}

fn dashed_text(s: &str) -> (r: String)
    ensures
        r@ == dashed(s@),
{
    let n = char_count(s);
    let mut r = String::new();
    let mut i: usize = 0;
    while i < n
        invariant
            n == s@.len(),
            i <= n,
            r@ =~= dashed(s@).take(i as int),
        decreases n - i,
    {
        let c = char_at(s, i);
        if c == '_' {
            push_char(&mut r, '-');
        } else {
            push_char(&mut r, c);
        }
        i = i + 1;
    }
    r
}

fn lower_first_text(s: &str) -> (r: String)
    ensures
        r@ == lower_first(s@),
{
    let n = char_count(s);
    let mut r = String::new();
    let mut i: usize = 0;
    while i < n
        invariant
            n == s@.len(),
            i <= n,
            r@ =~= lower_first(s@).take(i as int),
        decreases n - i,
    {
        let c = char_at(s, i);
        if i == 0 {
            push_char(&mut r, to_ascii_lower(c));
        } else {
            push_char(&mut r, c);
        }
        i = i + 1;
    }
    r
}

fn pascal_text(s: &str) -> (r: String)
    ensures
        r@ == pascal_field(s@),
{
    let n = char_count(s);
    let mut r = String::new();
    let mut capitalize = true;
    let mut i: usize = 0;
    while i < n
        invariant
            n == s@.len(),
            i <= n,
            (r@, capitalize) == pascal_prefix(s@, i as nat),
        decreases n - i,
    {
        let c = char_at(s, i);
        if c == '_' {
            capitalize = true;
        } else if capitalize {
            push_char(&mut r, to_ascii_upper(c));
            capitalize = false;
        } else {
            push_char(&mut r, c);
        }
        i = i + 1;
    }
    r
}

fn snake_text(s: &str) -> (r: String)
    ensures
        r@ == snake_variant(s@),
{
    let n = char_count(s);
    let mut r = String::new();
    let mut i: usize = 0;
    while i < n
        invariant
            n == s@.len(),
            i <= n,
            r@ == snake_prefix(s@, i as nat),
        decreases n - i,
    {
        let c = char_at(s, i);
        if i > 0 && is_uppercase(c) {
            push_char(&mut r, '_');
        }
        push_char(&mut r, to_ascii_lower(c));
        i = i + 1;
    }
    r
}

/// Whether `s` has a first character, and it is ASCII: see [`ascii_led`].
pub fn is_ascii_led(s: &str) -> (r: bool)
    ensures
        r == ascii_led(s@),
{
    let n = char_count(s);
    if n == 0 {
        return false;
    }
    let c = char_at(s, 0);
    (c as u32) < 128
}

impl RenameRule {
    /// The variant name `variant`, written `PascalCase`, renamed under this rule.
    pub fn apply_to_variant(&self, variant: &str) -> (r: String)
        requires
            variant_rule_applies(*self, variant@),
        ensures
            r@ == variant_renamed(*self, variant@),
    {
        match self {
            RenameRule::Verbatim | RenameRule::PascalCase => String::from_str(variant),
            RenameRule::LowerCase => lower_text(variant),
            RenameRule::UpperCase => upper_text(variant),
            RenameRule::CamelCase => lower_first_text(variant),
            RenameRule::SnakeCase => snake_text(variant),
            RenameRule::ScreamingSnakeCase => {
                let snake = snake_text(variant);
                upper_text(snake.as_str())
            },
            RenameRule::KebabCase => {
                let snake = snake_text(variant);
                dashed_text(snake.as_str())
            },
            RenameRule::ScreamingKebabCase => {
                let snake = snake_text(variant);
                let upper = upper_text(snake.as_str());
                dashed_text(upper.as_str())
            },
        }
    }

    /// The field name `field`, written `snake_case`, renamed under this rule.
    pub fn apply_to_field(&self, field: &str) -> (r: String)
        requires
            field_rule_applies(*self, field@),
        ensures
            r@ == field_renamed(*self, field@),
    {
        match self {
            RenameRule::Verbatim | RenameRule::LowerCase | RenameRule::SnakeCase => String::from_str(
                field,
            ),
            RenameRule::UpperCase | RenameRule::ScreamingSnakeCase => upper_text(field),
            RenameRule::PascalCase => pascal_text(field),
            RenameRule::CamelCase => {
                let pascal = pascal_text(field);
                lower_first_text(pascal.as_str())
            },
            RenameRule::KebabCase => dashed_text(field),
            RenameRule::ScreamingKebabCase => {
                let upper = upper_text(field);
                dashed_text(upper.as_str())
            },
        }
    }
}

/// The rule a `rename_all` spelling names; `Verbatim` for no spelling or one serde does not know.
pub open spec fn rule_named(name: Option<Seq<char>>) -> RenameRule {
    match name {
        Option::None => RenameRule::Verbatim,
        Option::Some(n) => if n == "lowercase"@ {
            RenameRule::LowerCase
        } else if n == "UPPERCASE"@ {
            RenameRule::UpperCase
        } else if n == "PascalCase"@ {
            RenameRule::PascalCase
        } else if n == "camelCase"@ {
            RenameRule::CamelCase
        } else if n == "snake_case"@ {
            RenameRule::SnakeCase
        } else if n == "SCREAMING_SNAKE_CASE"@ {
            RenameRule::ScreamingSnakeCase
        } else if n == "kebab-case"@ {
            RenameRule::KebabCase
        } else if n == "SCREAMING-KEBAB-CASE"@ {
            RenameRule::ScreamingKebabCase
        } else {
            RenameRule::Verbatim
        },
    }
}

/// The rule a container's own `rename_all` names.
pub fn resolve_rename_rule(name: Option<&str>) -> (r: RenameRule)
    ensures
        r == rule_named(
            match name {
                Option::Some(n) => Option::Some(n@),
                Option::None => Option::None,
            },
        ),
{
    match name {
        Option::None => RenameRule::Verbatim,
        Option::Some(n) => {
            if same_text(n, "lowercase") {
                RenameRule::LowerCase
            } else if same_text(n, "UPPERCASE") {
                RenameRule::UpperCase
            } else if same_text(n, "PascalCase") {
                RenameRule::PascalCase
            } else if same_text(n, "camelCase") {
                RenameRule::CamelCase
            } else if same_text(n, "snake_case") {
                RenameRule::SnakeCase
            } else if same_text(n, "SCREAMING_SNAKE_CASE") {
                RenameRule::ScreamingSnakeCase
            } else if same_text(n, "kebab-case") {
                RenameRule::KebabCase
            } else if same_text(n, "SCREAMING-KEBAB-CASE") {
                RenameRule::ScreamingKebabCase
            } else {
                RenameRule::Verbatim
            }
        },
    }
}

/// `PascalCase` `ident` written `snake_case`, the spelling a module named after it takes.
pub fn to_snake_case(ident: &str) -> (r: String)
    ensures
        r@ == snake_variant(ident@),
{
    snake_text(ident)
}

} // verus!
