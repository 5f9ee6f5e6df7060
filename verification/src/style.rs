//! The closed set of case styles, the names each one answers to, and the
//! lookup from a written directive to a style.

use vstd::prelude::*;
use vstd::string::*;

verus! {

/// The case to convert to.
///
/// Every style has one canonical name, which is the one shown to users, and
/// may have one further spelling that is accepted on input.
#[derive(Debug, Clone, Copy, PartialEq, Eq, Structural)]
pub enum RenameWith {
    /// `camelCase`; `lowerCamelCase` is accepted too.
    LowerCamelCase,
    /// `UpperCamelCase`.
    UpperCamelCase,
    /// `PascalCase`.
    Pascal,
    /// `snake_case`; `lower_snake_case` is accepted too.
    Snake,
    /// `SCREAMING_SNAKE_CASE`; `UPPER_SNAKE_CASE` is accepted too.
    ScreamingSnake,
    /// `kebab-case`; `lower-kebab-case` is accepted too.
    Kebab,
    /// `SCREAMING-KEBAB-CASE`; `UPPER-KEBAB-CASE` is accepted too.
    ScreamingKebab,
    /// `UPPERCASE`: the lower camel case form, folded to upper case.
    UpperCase,
    /// `lowercase`: the lower camel case form, folded to lower case.
    LowerCase,
}

/// What a directive looked like where it was written.
#[derive(Debug, Clone, PartialEq, Eq)]
pub enum Directive {
    /// A bare word, with its spelling.
    Word(String),
    /// A quoted string, with the text between the quotes.
    Quoted(String),
    /// Anything else.
    Other,
}

/// Why a directive names no style.
#[derive(Debug, Clone, PartialEq, Eq)]
pub enum ParseError {
    /// The directive was neither a bare word nor a quoted string.
    UnexpectedShape,
    /// The directive's text, which is no accepted name of any style.
    UnknownStyle(String),
}

/// Every style, in the order of declaration.
pub open spec fn declared_styles() -> Seq<RenameWith> {
    seq![
        RenameWith::LowerCamelCase,
        RenameWith::UpperCamelCase,
        RenameWith::Pascal,
        RenameWith::Snake,
        RenameWith::ScreamingSnake,
        RenameWith::Kebab,
        RenameWith::ScreamingKebab,
        RenameWith::UpperCase,
        RenameWith::LowerCase,
    ]
}

/// The canonical names of `styles`, in order, with `", "` between neighbours.
pub open spec fn joined_names(styles: Seq<RenameWith>) -> Seq<char>
    decreases styles.len(),
{
    if styles.len() == 0 {
        Seq::empty()
    } else if styles.len() == 1 {
        styles[0].canonical_name()
    } else {
        joined_names(styles.drop_last()) + ", "@ + styles.last().canonical_name()
    }
}

/// The style that accepts `name`, if there is one.
pub open spec fn style_named(name: Seq<char>) -> Option<RenameWith> {
    if exists|style: RenameWith| style.accepts(name) {
        Some(choose|style: RenameWith| style.accepts(name))
    } else {
        None
    }
}

impl Directive {
    /// The text that the directive carries, if its shape is one that carries
    /// a style's name.
    pub open spec fn text(self) -> Option<Seq<char>> {
        match self {
            Directive::Word(text) => Some(text@),
            Directive::Quoted(text) => Some(text@),
            Directive::Other => None,
        }
    }
}

impl ParseError {
    /// What the error tells the user. For an unknown name this lists the
    /// canonical name of every style, in the order of declaration.
    pub open spec fn message_text(self) -> Seq<char> {
        match self {
            ParseError::UnexpectedShape => "expected either a bare identifier or a quoted string"@,
            ParseError::UnknownStyle(_) => "Expected one of the following: "@ + joined_names(
                declared_styles(),
            ),
        }
    }

    /// What the error tells the user.
    pub fn message(&self) -> (r: String)
        ensures
            r@ == self.message_text(),
    {
        match self {
            ParseError::UnexpectedShape => {
                "expected either a bare identifier or a quoted string".to_owned()
            },
            ParseError::UnknownStyle(_) => {
                let names = RenameWith::names_joined();
                "Expected one of the following: ".to_owned().concat(names.as_str())
            },
        }
    }
}

impl RenameWith {
    /// The name under which the style is shown.
    pub open spec fn canonical_name(self) -> Seq<char> {
        match self {
            RenameWith::LowerCamelCase => "camelCase"@,
            RenameWith::UpperCamelCase => "UpperCamelCase"@,
            RenameWith::Pascal => "PascalCase"@,
            RenameWith::Snake => "snake_case"@,
            RenameWith::ScreamingSnake => "SCREAMING_SNAKE_CASE"@,
            RenameWith::Kebab => "kebab-case"@,
            RenameWith::ScreamingKebab => "SCREAMING-KEBAB-CASE"@,
            RenameWith::UpperCase => "UPPERCASE"@,
            RenameWith::LowerCase => "lowercase"@,
        }
    }

    /// The second spelling that is accepted on input, where there is one.
    pub open spec fn alias_name(self) -> Option<Seq<char>> {
        match self {
            RenameWith::LowerCamelCase => Some("lowerCamelCase"@),
            RenameWith::Snake => Some("lower_snake_case"@),
            RenameWith::ScreamingSnake => Some("UPPER_SNAKE_CASE"@),
            RenameWith::Kebab => Some("lower-kebab-case"@),
            RenameWith::ScreamingKebab => Some("UPPER-KEBAB-CASE"@),
            _ => None,
        }
    }

    /// Whether `name` is, letter for letter, one of the style's names.
    pub open spec fn accepts(self, name: Seq<char>) -> bool {
        name == self.canonical_name() || self.alias_name() == Some(name)
    }

    /// The name under which the style is shown.
    pub fn name(self) -> (r: &'static str)
        ensures
            r@ == self.canonical_name(),
    {
        match self {
            RenameWith::LowerCamelCase => "camelCase",
            RenameWith::UpperCamelCase => "UpperCamelCase",
            RenameWith::Pascal => "PascalCase",
            RenameWith::Snake => "snake_case",
            RenameWith::ScreamingSnake => "SCREAMING_SNAKE_CASE",
            RenameWith::Kebab => "kebab-case",
            RenameWith::ScreamingKebab => "SCREAMING-KEBAB-CASE",
            RenameWith::UpperCase => "UPPERCASE",
            RenameWith::LowerCase => "lowercase",
        }
    }

    /// The second spelling that is accepted on input, where there is one.
    pub fn alias(self) -> (r: Option<&'static str>)
        ensures
            match r {
                Some(text) => self.alias_name() == Some(text@),
                None => self.alias_name() is None,
            },
    {
        match self {
            RenameWith::LowerCamelCase => Some("lowerCamelCase"),
            RenameWith::Snake => Some("lower_snake_case"),
            RenameWith::ScreamingSnake => Some("UPPER_SNAKE_CASE"),
            RenameWith::Kebab => Some("lower-kebab-case"),
            RenameWith::ScreamingKebab => Some("UPPER-KEBAB-CASE"),
            _ => None,
        }
    }

    /// Every style, in the order of declaration.
    pub fn all() -> (r: Vec<RenameWith>)
        ensures
            r@ == declared_styles(),
    {
        let r = vec![
            RenameWith::LowerCamelCase,
            RenameWith::UpperCamelCase,
            RenameWith::Pascal,
            RenameWith::Snake,
            RenameWith::ScreamingSnake,
            RenameWith::Kebab,
            RenameWith::ScreamingKebab,
            RenameWith::UpperCase,
            RenameWith::LowerCase,
        ];
        assert(r@ =~= declared_styles());
        r
    }

    /// Whether `name` is, letter for letter, one of the style's names.
    pub fn has_name(self, name: &str) -> (r: bool)
        ensures
            r == self.accepts(name@),
    {
        if same_text(name, self.name()) {
            true
        } else {
            match self.alias() {
                Some(other) => same_text(name, other),
                None => false,
            }
        }
    }

    /// The canonical names of all styles, in the order of declaration, with
    /// `", "` between neighbours.
    pub fn names_joined() -> (r: String)
        ensures
            r@ == joined_names(declared_styles()),
    {
        let styles = RenameWith::all();
        let mut out = String::new();
        let mut i: usize = 0;
        while i < styles.len()
            invariant
                styles@ == declared_styles(),
                i <= styles.len(),
                out@ == joined_names(declared_styles().take(i as int)),
            decreases styles.len() - i,
        {
            let ghost before = declared_styles().take(i as int);
            let ghost after = declared_styles().take(i + 1);
            proof {
                assert(after.drop_last() =~= before);
                assert(after.last() == styles@[i as int]);
            }
            if i > 0 {
                out.append(", ");
            }
            out.append(styles[i].name());
            proof {
                assert(out@ =~= joined_names(after));
            }
            i += 1;
        }
        proof {
            assert(declared_styles().take(i as int) =~= declared_styles());
        }
        out
    }

    /// Reads a directive: a bare word or a quoted string whose text is an
    /// accepted name gives that name's style.
    pub fn parse(input: &Directive) -> (r: Result<RenameWith, ParseError>)
        ensures
            match input.text() {
                None => r == Err::<RenameWith, ParseError>(ParseError::UnexpectedShape),
                Some(text) => match style_named(text) {
                    Some(style) => r == Ok::<RenameWith, ParseError>(style),
                    None => r matches Err(ParseError::UnknownStyle(tried)) && tried@ == text,
                },
            },
    {
        let name: &String = match input {
            Directive::Word(text) => text,
            Directive::Quoted(text) => text,
            Directive::Other => {
                return Err(ParseError::UnexpectedShape);
            },
        };
        match RenameWith::from_name(name.as_str()) {
            Some(style) => Ok(style),
            None => Err(ParseError::UnknownStyle(name.clone())),
        }
    }

    /// Looks `name` up among the accepted names of all styles. Nothing is
    /// trimmed and letter case counts.
    pub fn from_name(name: &str) -> (r: Option<RenameWith>)
        ensures
            r == style_named(name@),
    {
        let styles = RenameWith::all();
        let mut i: usize = 0;
        while i < styles.len()
            invariant
                styles@ == declared_styles(),
                i <= styles.len(),
                forall|j: int| 0 <= j < i ==> !(#[trigger] declared_styles()[j]).accepts(name@),
            decreases styles.len() - i,
        {
            let style = styles[i];
            if style.has_name(name) {
                proof {
                    lemma_lookup_accepted(style, name@);
                }
                return Some(style);
            }
            i += 1;
        }
        proof {
            assert forall|style: RenameWith| !style.accepts(name@) by {
                lemma_declared_complete(style);
            }
        }
        None
    }
}

/// Whether two texts are the same, letter for letter.
fn same_text(a: &str, b: &str) -> (r: bool)
    ensures
        r == (a@ == b@),
{
    let left = a.to_owned();
    let right = b.to_owned();
    left == right
}

/// Every style stands in the list of declared styles.
pub proof fn lemma_declared_complete(style: RenameWith)
    ensures
        exists|j: int| 0 <= j < declared_styles().len() && declared_styles()[j] == style,
{
    let j: int = match style {
        RenameWith::LowerCamelCase => 0,
        RenameWith::UpperCamelCase => 1,
        RenameWith::Pascal => 2,
        RenameWith::Snake => 3,
        RenameWith::ScreamingSnake => 4,
        RenameWith::Kebab => 5,
        RenameWith::ScreamingKebab => 6,
        RenameWith::UpperCase => 7,
        RenameWith::LowerCase => 8,
    };
    assert(declared_styles()[j] == style);
}

/// No name is accepted by two styles.
pub proof fn lemma_names_distinct(a: RenameWith, b: RenameWith, name: Seq<char>)
    requires
        a.accepts(name),
        b.accepts(name),
    ensures
        a == b,
{
    reveal_strlit("camelCase");
    reveal_strlit("lowerCamelCase");
    reveal_strlit("UpperCamelCase");
    reveal_strlit("PascalCase");
    reveal_strlit("snake_case");
    reveal_strlit("lower_snake_case");
    reveal_strlit("SCREAMING_SNAKE_CASE");
    reveal_strlit("UPPER_SNAKE_CASE");
    reveal_strlit("kebab-case");
    reveal_strlit("lower-kebab-case");
    reveal_strlit("SCREAMING-KEBAB-CASE");
    reveal_strlit("UPPER-KEBAB-CASE");
    reveal_strlit("UPPERCASE");
    reveal_strlit("lowercase");
    assert("camelCase"@.len() == 9 && "camelCase"@[0] == 'c');
    assert("lowerCamelCase"@.len() == 14 && "lowerCamelCase"@[0] == 'l');
    assert("UpperCamelCase"@.len() == 14 && "UpperCamelCase"@[0] == 'U');
    assert("PascalCase"@.len() == 10 && "PascalCase"@[0] == 'P');
    assert("snake_case"@.len() == 10 && "snake_case"@[0] == 's');
    assert("lower_snake_case"@.len() == 16 && "lower_snake_case"@[0] == 'l');
    assert("lower_snake_case"@[5] == '_');
    assert("SCREAMING_SNAKE_CASE"@.len() == 20 && "SCREAMING_SNAKE_CASE"@[9] == '_');
    assert("UPPER_SNAKE_CASE"@.len() == 16 && "UPPER_SNAKE_CASE"@[0] == 'U');
    assert("UPPER_SNAKE_CASE"@[5] == '_');
    assert("kebab-case"@.len() == 10 && "kebab-case"@[0] == 'k');
    assert("lower-kebab-case"@.len() == 16 && "lower-kebab-case"@[0] == 'l');
    assert("lower-kebab-case"@[5] == '-');
    assert("SCREAMING-KEBAB-CASE"@.len() == 20 && "SCREAMING-KEBAB-CASE"@[9] == '-');
    assert("UPPER-KEBAB-CASE"@.len() == 16 && "UPPER-KEBAB-CASE"@[0] == 'U');
    assert("UPPER-KEBAB-CASE"@[5] == '-');
    assert("UPPERCASE"@.len() == 9 && "UPPERCASE"@[0] == 'U');
    assert("lowercase"@.len() == 9 && "lowercase"@[0] == 'l');
}

/// The canonical names of all styles, joined, are this text letter for
/// letter: each name once, in the order of declaration.
pub proof fn lemma_joined_names_listing()
    ensures
        joined_names(declared_styles())
            == "camelCase, UpperCamelCase, PascalCase, snake_case, SCREAMING_SNAKE_CASE, kebab-case, SCREAMING-KEBAB-CASE, UPPERCASE, lowercase"@,
{
    reveal_strlit("camelCase");
    reveal_strlit("UpperCamelCase");
    reveal_strlit("PascalCase");
    reveal_strlit("snake_case");
    reveal_strlit("SCREAMING_SNAKE_CASE");
    reveal_strlit("kebab-case");
    reveal_strlit("SCREAMING-KEBAB-CASE");
    reveal_strlit("UPPERCASE");
    reveal_strlit("lowercase");
    reveal_strlit(", ");
    reveal_strlit(
        "camelCase, UpperCamelCase, PascalCase, snake_case, SCREAMING_SNAKE_CASE, kebab-case, SCREAMING-KEBAB-CASE, UPPERCASE, lowercase",
    );
    let all = declared_styles();
    let s1 = all.take(1);
    let s2 = all.take(2);
    let s3 = all.take(3);
    let s4 = all.take(4);
    let s5 = all.take(5);
    let s6 = all.take(6);
    let s7 = all.take(7);
    let s8 = all.take(8);
    assert(s2.drop_last() =~= s1);
    assert(s3.drop_last() =~= s2);
    assert(s4.drop_last() =~= s3);
    assert(s5.drop_last() =~= s4);
    assert(s6.drop_last() =~= s5);
    assert(s7.drop_last() =~= s6);
    assert(s8.drop_last() =~= s7);
    assert(all.drop_last() =~= s8);
    assert(joined_names(s1) =~= "camelCase"@);
    assert(joined_names(s2) =~= joined_names(s1) + ", "@ + "UpperCamelCase"@);
    assert(joined_names(s3) =~= joined_names(s2) + ", "@ + "PascalCase"@);
    assert(joined_names(s4) =~= joined_names(s3) + ", "@ + "snake_case"@);
    assert(joined_names(s5) =~= joined_names(s4) + ", "@ + "SCREAMING_SNAKE_CASE"@);
    assert(joined_names(s6) =~= joined_names(s5) + ", "@ + "kebab-case"@);
    assert(joined_names(s7) =~= joined_names(s6) + ", "@ + "SCREAMING-KEBAB-CASE"@);
    assert(joined_names(s8) =~= joined_names(s7) + ", "@ + "UPPERCASE"@);
    assert(joined_names(all) =~= joined_names(s8) + ", "@ + "lowercase"@);
    assert(joined_names(all)
        =~= "camelCase, UpperCamelCase, PascalCase, snake_case, SCREAMING_SNAKE_CASE, kebab-case, SCREAMING-KEBAB-CASE, UPPERCASE, lowercase"@);
}

/// Each name that a style accepts, canonical or not, is looked up to that
/// style and to no other.
pub proof fn lemma_lookup_accepted(style: RenameWith, name: Seq<char>)
    requires
        style.accepts(name),
    ensures
        style_named(name) == Some(style),
{
    let found = choose|s: RenameWith| s.accepts(name);
    lemma_names_distinct(found, style, name);
}

/// A text that no style accepts is looked up to nothing.
pub proof fn lemma_lookup_unknown(name: Seq<char>)
    requires
        forall|style: RenameWith| !style.accepts(name),
    ensures
        style_named(name) is None,
{
}

} // verus!
