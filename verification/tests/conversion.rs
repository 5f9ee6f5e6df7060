use case_rename::{convert, convert_optional, Ident, LitStr, RenameToLitStr, RenameWith};
use proc_macro2::Span;

#[test]
fn camel_to_snake() {
    assert_eq!(convert("fooBar", RenameWith::Snake), "foo_bar");
}

#[test]
fn snake_to_pascal() {
    assert_eq!(convert("foo_bar", RenameWith::Pascal), "FooBar");
}

#[test]
fn acronym_to_kebab() {
    assert_eq!(convert("HTTPServer", RenameWith::Kebab), "http-server");
}

#[test]
fn kebab_to_screaming_snake() {
    assert_eq!(convert("foo-bar", RenameWith::ScreamingSnake), "FOO_BAR");
}

#[test]
fn snake_to_uppercase_goes_through_lower_camel() {
    assert_eq!(convert("foo_bar", RenameWith::UpperCase), "FOOBAR");
}

#[test]
fn snake_to_lowercase_goes_through_lower_camel() {
    assert_eq!(convert("foo_bar", RenameWith::LowerCase), "foobar");
    assert_eq!(convert("FooBar", RenameWith::LowerCase), "foobar");
}

#[test]
fn empty_text_stays_empty_in_every_style() {
    assert_eq!(convert("", RenameWith::Kebab), "");
    for style in RenameWith::all() {
        assert_eq!(convert("", style), "");
    }
}

#[test]
fn text_without_words_renders_empty() {
    for style in RenameWith::all() {
        assert_eq!(convert("__--  ", style), "");
    }
}

#[test]
fn one_text_in_every_style() {
    let text = "some_mixedUP-text here";
    assert_eq!(convert(text, RenameWith::LowerCamelCase), "someMixedUpTextHere");
    assert_eq!(convert(text, RenameWith::UpperCamelCase), "SomeMixedUpTextHere");
    assert_eq!(convert(text, RenameWith::Pascal), "SomeMixedUpTextHere");
    assert_eq!(convert(text, RenameWith::Snake), "some_mixed_up_text_here");
    assert_eq!(convert(text, RenameWith::ScreamingSnake), "SOME_MIXED_UP_TEXT_HERE");
    assert_eq!(convert(text, RenameWith::Kebab), "some-mixed-up-text-here");
    assert_eq!(convert(text, RenameWith::ScreamingKebab), "SOME-MIXED-UP-TEXT-HERE");
    assert_eq!(convert(text, RenameWith::UpperCase), "SOMEMIXEDUPTEXTHERE");
    assert_eq!(convert(text, RenameWith::LowerCase), "somemixeduptexthere");
}

#[test]
fn repeated_separators_fold_into_one() {
    assert_eq!(convert("foo__bar--baz", RenameWith::Snake), "foo_bar_baz");
    assert_eq!(convert("_foo_", RenameWith::Kebab), "foo");
}

#[test]
fn digits_stay_inside_their_word() {
    assert_eq!(convert("ID2Name", RenameWith::Snake), "id2_name");
    assert_eq!(convert("abc123def", RenameWith::Kebab), "abc123def");
}

#[test]
fn pascal_and_upper_camel_agree() {
    for text in ["foo_bar", "HTTPServer", "a-b c", "x", "fooBar"] {
        assert_eq!(
            convert(text, RenameWith::Pascal),
            convert(text, RenameWith::UpperCamelCase)
        );
    }
}

#[test]
fn styled_text_is_kept_by_its_own_style() {
    assert_eq!(convert("foo_bar_baz", RenameWith::Snake), "foo_bar_baz");
    assert_eq!(convert("FOO_BAR_BAZ", RenameWith::ScreamingSnake), "FOO_BAR_BAZ");
    assert_eq!(convert("foo-bar-baz", RenameWith::Kebab), "foo-bar-baz");
    assert_eq!(convert("FOO-BAR-BAZ", RenameWith::ScreamingKebab), "FOO-BAR-BAZ");
    assert_eq!(convert("FooBarBaz", RenameWith::Pascal), "FooBarBaz");
    assert_eq!(convert("FooBarBaz", RenameWith::UpperCamelCase), "FooBarBaz");
    assert_eq!(convert("fooBarBaz", RenameWith::LowerCamelCase), "fooBarBaz");
}

#[test]
fn folded_text_is_kept_by_the_same_fold() {
    assert_eq!(convert("FOOBAR", RenameWith::UpperCase), "FOOBAR");
    assert_eq!(convert("foobar", RenameWith::LowerCase), "foobar");
}

#[test]
fn no_style_keeps_the_text() {
    assert_eq!(convert_optional("Foo_Bar-Baz", None), "Foo_Bar-Baz");
    assert_eq!(convert_optional("", None), "");
}

#[test]
fn some_style_converts() {
    assert_eq!(convert_optional("Foo_Bar-Baz", Some(RenameWith::Snake)), "foo_bar_baz");
    assert_eq!(convert_optional("Foo_Bar-Baz", Some(RenameWith::UpperCase)), "FOOBARBAZ");
}

#[test]
fn every_style_takes_every_text() {
    let texts = [
        "",
        " ",
        "___",
        "123",
        "!!!",
        "a",
        "A",
        "héllo wörld",
        "ΣΑΣ",
        "straße",
        "tab\tand\nline",
        "mixed_UP-Every which.way",
        "\u{0}\u{7f}",
    ];
    for text in texts {
        for style in RenameWith::all() {
            let out = convert(text, style);
            assert!(out.len() <= 3 * text.len() + 3 * text.chars().count());
            assert_eq!(convert_optional(text, Some(style)), out);
        }
    }
}

#[test]
fn literal_into_lit_str_is_the_same_literal() {
    let lit = LitStr::new("Foo_Bar-Baz", Span::call_site());
    assert_eq!(lit.into_lit_str().value, "Foo_Bar-Baz");
    assert_eq!(lit.to_case_option(None).value, "Foo_Bar-Baz");
}

#[test]
fn ident_into_lit_str_keeps_the_spelling() {
    let ident = Ident::new("fooBar", Span::call_site());
    assert_eq!(ident.name, "fooBar");
    assert_eq!(ident.into_lit_str().value, "fooBar");
    assert_eq!(ident.to_case_option(None).value, "fooBar");
}

#[test]
fn ident_methods_convert() {
    let ident = Ident::new("some_fieldName", Span::call_site());
    assert_eq!(ident.to_pascal_case().value, "SomeFieldName");
    assert_eq!(ident.to_upper_camel_case().value, "SomeFieldName");
    assert_eq!(ident.to_lower_camel_case().value, "someFieldName");
    assert_eq!(ident.to_snake_case().value, "some_field_name");
    assert_eq!(ident.to_screaming_snake_case().value, "SOME_FIELD_NAME");
    assert_eq!(ident.to_kebab_case().value, "some-field-name");
    assert_eq!(ident.to_screaming_kebab_case().value, "SOME-FIELD-NAME");
    assert_eq!(ident.to_uppercase().value, "SOMEFIELDNAME");
    assert_eq!(ident.to_lowercase().value, "somefieldname");
}

#[test]
fn literal_methods_convert() {
    let lit = LitStr::new("some text-here", Span::call_site());
    assert_eq!(lit.to_pascal_case().value, "SomeTextHere");
    assert_eq!(lit.to_upper_camel_case().value, "SomeTextHere");
    assert_eq!(lit.to_lower_camel_case().value, "someTextHere");
    assert_eq!(lit.to_snake_case().value, "some_text_here");
    assert_eq!(lit.to_screaming_snake_case().value, "SOME_TEXT_HERE");
    assert_eq!(lit.to_kebab_case().value, "some-text-here");
    assert_eq!(lit.to_screaming_kebab_case().value, "SOME-TEXT-HERE");
    assert_eq!(lit.to_uppercase().value, "SOMETEXTHERE");
    assert_eq!(lit.to_lowercase().value, "sometexthere");
}

#[test]
fn to_case_agrees_with_convert() {
    let ident = Ident::new("some_fieldName", Span::call_site());
    let lit = LitStr::new("some_fieldName", Span::call_site());
    for style in RenameWith::all() {
        let expected = convert("some_fieldName", style);
        assert_eq!(ident.to_case(style).value, expected);
        assert_eq!(lit.to_case(style).value, expected);
        assert_eq!(ident.to_case_option(Some(style)).value, expected);
        assert_eq!(lit.to_case_option(Some(style)).value, expected);
    }
}
