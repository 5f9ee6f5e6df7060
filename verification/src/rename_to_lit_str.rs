//! Tokens that can be renamed: a token is a text and the place in the source
//! that it came from. Renaming gives a string literal with the new text at
//! the same place.

use crate::casing::{convert, rendered, rendered_option};
use crate::style::RenameWith;
use proc_macro2::Span;
use vstd::prelude::*;
use vstd::string::*;

verus! {

/// `proc_macro2::Span`: a place in the source. A value is carried from a
/// token to what is made of it and never looked into.
#[verifier::external_type_specification]
#[verifier::external_body]
pub struct ExSpan(proc_macro2::Span);

/// An identifier: its spelling and where it stands.
#[derive(Debug)]
pub struct Ident {
    pub name: String,
    pub span: Span,
}

/// A string literal: the text between its quotes and where it stands.
#[derive(Debug)]
pub struct LitStr {
    pub value: String,
    pub span: Span,
}

/// Can be renamed and converted to a string literal.
///
/// Every method gives a literal at the place of the token it was called on.
pub trait RenameToLitStr {
    /// The text that renaming starts from.
    spec fn text(&self) -> Seq<char>;

    /// The place that renaming keeps.
    spec fn place(&self) -> Span;

    /// The token as a string literal, with its text as it is.
    fn into_lit_str(&self) -> (r: LitStr)
        ensures
            r.value@ == self.text(),
            r.span == self.place(),
    ;

    /// Converts to upper camel case.
    fn to_upper_camel_case(&self) -> (r: LitStr)
        ensures
            r.value@ == rendered(self.text(), RenameWith::UpperCamelCase),
            r.span == self.place(),
    ;

    /// Converts to lower camel case.
    fn to_lower_camel_case(&self) -> (r: LitStr)
        ensures
            r.value@ == rendered(self.text(), RenameWith::LowerCamelCase),
            r.span == self.place(),
    ;

    /// Converts to pascal case.
    fn to_pascal_case(&self) -> (r: LitStr)
        ensures
            r.value@ == rendered(self.text(), RenameWith::Pascal),
            r.span == self.place(),
    ;

    /// Converts to snake case.
    fn to_snake_case(&self) -> (r: LitStr)
        ensures
            r.value@ == rendered(self.text(), RenameWith::Snake),
            r.span == self.place(),
    ;

    /// Converts to screaming snake case.
    fn to_screaming_snake_case(&self) -> (r: LitStr)
        ensures
            r.value@ == rendered(self.text(), RenameWith::ScreamingSnake),
            r.span == self.place(),
    ;

    /// Converts to kebab case.
    fn to_kebab_case(&self) -> (r: LitStr)
        ensures
            r.value@ == rendered(self.text(), RenameWith::Kebab),
            r.span == self.place(),
    ;

    /// Converts to screaming kebab case.
    fn to_screaming_kebab_case(&self) -> (r: LitStr)
        ensures
            r.value@ == rendered(self.text(), RenameWith::ScreamingKebab),
            r.span == self.place(),
    ;

    /// Converts to lower camel case and folds the result to upper case.
    fn to_uppercase(&self) -> (r: LitStr)
        ensures
            r.value@ == rendered(self.text(), RenameWith::UpperCase),
            r.span == self.place(),
    ;

    /// Converts to lower camel case and folds the result to lower case.
    fn to_lowercase(&self) -> (r: LitStr)
        ensures
            r.value@ == rendered(self.text(), RenameWith::LowerCase),
            r.span == self.place(),
    ;

    /// Converts to the target case.
    #[inline]
    fn to_case(&self, case: RenameWith) -> (r: LitStr)
        ensures
            r.value@ == rendered(self.text(), case),
            r.span == self.place(),
    {
        match case {
            RenameWith::Pascal => self.to_pascal_case(),
            RenameWith::Snake => self.to_snake_case(),
            RenameWith::ScreamingSnake => self.to_screaming_snake_case(),
            RenameWith::Kebab => self.to_kebab_case(),
            RenameWith::ScreamingKebab => self.to_screaming_kebab_case(),
            RenameWith::UpperCase => self.to_uppercase(),
            RenameWith::LowerCase => self.to_lowercase(),
            RenameWith::LowerCamelCase => self.to_lower_camel_case(),
            RenameWith::UpperCamelCase => self.to_upper_camel_case(),
        }
    }

    /// Converts to the target case, or keeps the text where none is given.
    #[inline]
    fn to_case_option(&self, case: Option<RenameWith>) -> (r: LitStr)
        ensures
            r.value@ == rendered_option(self.text(), case),
            r.span == self.place(),
    {
        match case {
            None => self.into_lit_str(),
            Some(case) => self.to_case(case),
        }
    }
}

impl LitStr {
    /// A literal with the text `value` at the place `span`.
    pub fn new(value: &str, span: Span) -> (r: LitStr)
        ensures
            r.value@ == value@,
            r.span == span,
    {
        LitStr { value: value.to_owned(), span }
    }

    /// The literal that `self` becomes in `case`.
    fn recase(&self, case: RenameWith) -> (r: LitStr)
        ensures
            r.value@ == rendered(self.value@, case),
            r.span == self.span,
    {
        LitStr { value: convert(self.value.as_str(), case), span: self.span }
    }
}

impl Ident {
    /// An identifier spelled `name` at the place `span`.
    pub fn new(name: &str, span: Span) -> (r: Ident)
        ensures
            r.name@ == name@,
            r.span == span,
    {
        Ident { name: name.to_owned(), span }
    }

    /// The literal that `self` becomes in `case`.
    fn recase(&self, case: RenameWith) -> (r: LitStr)
        ensures
            r.value@ == rendered(self.name@, case),
            r.span == self.span,
    {
        LitStr { value: convert(self.name.as_str(), case), span: self.span }
    }
}

impl RenameToLitStr for Ident {
    open spec fn text(&self) -> Seq<char> {
        self.name@
    }

    open spec fn place(&self) -> Span {
        self.span
    }

    fn to_pascal_case(&self) -> (r: LitStr) {
        self.recase(RenameWith::Pascal)
    }

    fn to_snake_case(&self) -> (r: LitStr) {
        self.recase(RenameWith::Snake)
    }

    fn to_screaming_snake_case(&self) -> (r: LitStr) {
        self.recase(RenameWith::ScreamingSnake)
    }

    fn to_kebab_case(&self) -> (r: LitStr) {
        self.recase(RenameWith::Kebab)
    }

    fn to_screaming_kebab_case(&self) -> (r: LitStr) {
        self.recase(RenameWith::ScreamingKebab)
    }

    fn to_uppercase(&self) -> (r: LitStr) {
        self.recase(RenameWith::UpperCase)
    }

    fn to_lowercase(&self) -> (r: LitStr) {
        self.recase(RenameWith::LowerCase)
    }

    fn into_lit_str(&self) -> (r: LitStr) {
        LitStr { value: self.name.clone(), span: self.span }
    }

    fn to_upper_camel_case(&self) -> (r: LitStr) {
        self.recase(RenameWith::UpperCamelCase)
    }

    fn to_lower_camel_case(&self) -> (r: LitStr) {
        self.recase(RenameWith::LowerCamelCase)
    }
}

impl RenameToLitStr for LitStr {
    open spec fn text(&self) -> Seq<char> {
        self.value@
    }

    open spec fn place(&self) -> Span {
        self.span
    }

    fn to_pascal_case(&self) -> (r: LitStr) {
        self.recase(RenameWith::Pascal)
    }

    fn to_snake_case(&self) -> (r: LitStr) {
        self.recase(RenameWith::Snake)
    }

    fn to_screaming_snake_case(&self) -> (r: LitStr) {
        self.recase(RenameWith::ScreamingSnake)
    }

    fn to_kebab_case(&self) -> (r: LitStr) {
        self.recase(RenameWith::Kebab)
    }

    fn to_screaming_kebab_case(&self) -> (r: LitStr) {
        self.recase(RenameWith::ScreamingKebab)
    }

    fn to_uppercase(&self) -> (r: LitStr) {
        self.recase(RenameWith::UpperCase)
    }

    fn to_lowercase(&self) -> (r: LitStr) {
        self.recase(RenameWith::LowerCase)
    }

    fn into_lit_str(&self) -> (r: LitStr)
        ensures
            r == *self,
    {
        LitStr { value: self.value.clone(), span: self.span }
    }

    fn to_upper_camel_case(&self) -> (r: LitStr) {
        self.recase(RenameWith::UpperCamelCase)
    }

    fn to_lower_camel_case(&self) -> (r: LitStr) {
        self.recase(RenameWith::LowerCamelCase)
    }
}

} // verus!
