//! Conversion of a text into a case style. The splitting into words and the
//! letter case of each word are the work of the `heck` crate; the two folding
//! styles add the standard library's case mapping on top.

use crate::style::RenameWith;
use vstd::prelude::*;
use vstd::string::*;

verus! {

/// What `heck` makes of a text in upper camel case.
pub uninterp spec fn heck_upper_camel_case(text: Seq<char>) -> Seq<char>;

/// What `heck` makes of a text in lower camel case.
pub uninterp spec fn heck_lower_camel_case(text: Seq<char>) -> Seq<char>;

/// What `heck` makes of a text in snake case.
pub uninterp spec fn heck_snake_case(text: Seq<char>) -> Seq<char>;

/// What `heck` makes of a text in shouty snake case.
pub uninterp spec fn heck_shouty_snake_case(text: Seq<char>) -> Seq<char>;

/// What `heck` makes of a text in kebab case.
pub uninterp spec fn heck_kebab_case(text: Seq<char>) -> Seq<char>;

/// What `heck` makes of a text in shouty kebab case.
pub uninterp spec fn heck_shouty_kebab_case(text: Seq<char>) -> Seq<char>;

/// The upper case equivalent of a text, as `str::to_uppercase` gives it.
pub uninterp spec fn std_uppercase(text: Seq<char>) -> Seq<char>;

/// The lower case equivalent of a text, as `str::to_lowercase` gives it.
pub uninterp spec fn std_lowercase(text: Seq<char>) -> Seq<char>;

/// Calls `heck::ToUpperCamelCase::to_upper_camel_case` on a `str`. Trusted:
/// the result is a function of the text alone, and is given the name
/// `heck_upper_camel_case`.
#[verifier::external_body]
pub(crate) fn upper_camel_case_of(text: &str) -> (r: String)
    ensures
        r@ == heck_upper_camel_case(text@),
{
    heck::ToUpperCamelCase::to_upper_camel_case(text)
}

/// Calls `heck::ToPascalCase::to_pascal_case` on a `str`. Trusted: `heck`
/// defines this method as a call of `to_upper_camel_case` on the same text,
/// so the result is the one named `heck_upper_camel_case`.
#[verifier::external_body]
pub(crate) fn pascal_case_of(text: &str) -> (r: String)
    ensures
        r@ == heck_upper_camel_case(text@),
{
    heck::ToPascalCase::to_pascal_case(text)
}

/// Calls `heck::ToLowerCamelCase::to_lower_camel_case` on a `str`. Trusted:
/// the result is a function of the text alone, and is given the name
/// `heck_lower_camel_case`.
#[verifier::external_body]
pub(crate) fn lower_camel_case_of(text: &str) -> (r: String)
    ensures
        r@ == heck_lower_camel_case(text@),
{
    heck::ToLowerCamelCase::to_lower_camel_case(text)
}

/// Calls `heck::ToSnakeCase::to_snake_case` on a `str`. Trusted: the result
/// is a function of the text alone, and is given the name `heck_snake_case`.
#[verifier::external_body]
pub(crate) fn snake_case_of(text: &str) -> (r: String)
    ensures
        r@ == heck_snake_case(text@),
{
    heck::ToSnakeCase::to_snake_case(text)
}

/// Calls `heck::ToShoutySnakeCase::to_shouty_snake_case` on a `str`.
/// Trusted: the result is a function of the text alone, and is given the
/// name `heck_shouty_snake_case`.
#[verifier::external_body]
pub(crate) fn shouty_snake_case_of(text: &str) -> (r: String)
    ensures
        r@ == heck_shouty_snake_case(text@),
{
    heck::ToShoutySnakeCase::to_shouty_snake_case(text)
}

/// Calls `heck::ToKebabCase::to_kebab_case` on a `str`. Trusted: the result
/// is a function of the text alone, and is given the name `heck_kebab_case`.
#[verifier::external_body]
pub(crate) fn kebab_case_of(text: &str) -> (r: String)
    ensures
        r@ == heck_kebab_case(text@),
{
    heck::ToKebabCase::to_kebab_case(text)
}

/// Calls `heck::ToShoutyKebabCase::to_shouty_kebab_case` on a `str`.
/// Trusted: the result is a function of the text alone, and is given the
/// name `heck_shouty_kebab_case`.
#[verifier::external_body]
pub(crate) fn shouty_kebab_case_of(text: &str) -> (r: String)
    ensures
        r@ == heck_shouty_kebab_case(text@),
{
    heck::ToShoutyKebabCase::to_shouty_kebab_case(text)
}

/// Calls `str::to_uppercase`. Trusted: the result is a function of the text
/// alone (the mapping is Unicode's and knows no locale), and is given the
/// name `std_uppercase`.
#[verifier::external_body]
pub(crate) fn uppercase_of(text: &str) -> (r: String)
    ensures
        r@ == std_uppercase(text@),
{
    text.to_uppercase()
}

/// Calls `str::to_lowercase`. Trusted: the result is a function of the text
/// alone (the mapping is Unicode's and knows no locale), and is given the
/// name `std_lowercase`.
#[verifier::external_body]
pub(crate) fn lowercase_of(text: &str) -> (r: String)
    ensures
        r@ == std_lowercase(text@),
{
    text.to_lowercase()
}

/// The text that `text` becomes in `style`.
///
/// An empty text stays empty. Pascal and upper camel case are one rendering
/// under two names. The two folding styles first bring the text into lower
/// camel case and then map every letter to one case.
pub open spec fn rendered(text: Seq<char>, style: RenameWith) -> Seq<char> {
    if text.len() == 0 {
        Seq::empty()
    } else {
        match style {
            RenameWith::LowerCamelCase => heck_lower_camel_case(text),
            RenameWith::UpperCamelCase => heck_upper_camel_case(text),
            RenameWith::Pascal => heck_upper_camel_case(text),
            RenameWith::Snake => heck_snake_case(text),
            RenameWith::ScreamingSnake => heck_shouty_snake_case(text),
            RenameWith::Kebab => heck_kebab_case(text),
            RenameWith::ScreamingKebab => heck_shouty_kebab_case(text),
            RenameWith::UpperCase => std_uppercase(heck_lower_camel_case(text)),
            RenameWith::LowerCase => std_lowercase(heck_lower_camel_case(text)),
        }
    }
}

/// The text that an optional style makes of `text`: with no style, `text`
/// itself.
pub open spec fn rendered_option(text: Seq<char>, style: Option<RenameWith>) -> Seq<char> {
    match style {
        None => text,
        Some(style) => rendered(text, style),
    }
}

/// Converts `text` to `style`. Every text is accepted.
pub fn convert(text: &str, style: RenameWith) -> (r: String)
    ensures
        r@ == rendered(text@, style),
{
    if text.is_empty() {
        return String::new();
    }
    match style {
        RenameWith::LowerCamelCase => lower_camel_case_of(text),
        RenameWith::UpperCamelCase => upper_camel_case_of(text),
        RenameWith::Pascal => pascal_case_of(text),
        RenameWith::Snake => snake_case_of(text),
        RenameWith::ScreamingSnake => shouty_snake_case_of(text),
        RenameWith::Kebab => kebab_case_of(text),
        RenameWith::ScreamingKebab => shouty_kebab_case_of(text),
        RenameWith::UpperCase => {
            let camel = lower_camel_case_of(text);
            uppercase_of(camel.as_str())
        },
        RenameWith::LowerCase => {
            let camel = lower_camel_case_of(text);
            lowercase_of(camel.as_str())
        },
    }
}

/// Converts `text` to `style`, or hands it back as it is where no style is
/// given.
pub fn convert_optional(text: &str, style: Option<RenameWith>) -> (r: String)
    ensures
        r@ == rendered_option(text@, style),
{
    match style {
        None => text.to_owned(),
        Some(style) => convert(text, style),
    }
}

/// An empty text is rendered as an empty text in every style.
pub proof fn lemma_empty_stays_empty(style: RenameWith)
    ensures
        rendered(Seq::empty(), style) == Seq::<char>::empty(),
{
}

/// Pascal case and upper camel case render every text alike.
pub proof fn lemma_pascal_is_upper_camel(text: Seq<char>)
    ensures
        rendered(text, RenameWith::Pascal) == rendered(text, RenameWith::UpperCamelCase),
{
}

/// With no style given a text is rendered as itself.
pub proof fn lemma_no_style_keeps_text(text: Seq<char>)
    ensures
        rendered_option(text, None) == text,
{
}

} // verus!
