use ezregexp::builder::{
    any_except, at_start, digit, either, letter, start_with, text, word_character,
};
use ezregexp::ToCode;

#[test]
fn test_basic_build() {
    assert_eq!("Handel", text("Handel").to_string());
    assert_eq!("gray|grey", either(("gray", "grey")).to_string());
    assert_eq!(
        "gr(a|e)y",
        start_with("gr")
            .and_either(("a", "e"))
            .and_then("y")
            .to_string()
    );
    assert_eq!(
        "colou?r",
        start_with("colo").and_maybe("u").and_then("r").to_string()
    );
    assert_eq!(r"\d{2,3}", digit().many(2, 3).to_string());
    assert_eq!(
        r"^\d{4}-\d{2}-\d{2}$",
        at_start()
            .and_then(digit())
            .times(4)
            .and_then("-")
            .and_then(digit())
            .times(2)
            .and_then("-")
            .and_then(digit())
            .times(2)
            .must_end()
            .to_string()
    );
    assert_eq!(
        r#"\D\PN\W"#,
        any_except(digit())
            .and_then(any_except(letter()))
            .and_then(any_except(word_character()))
            .to_string()
    );
    assert_eq!(
        r"(?P<y>\d{4})-(?P<m>\d{2})-(?P<d>\d{2})",
        start_with(digit().times(4).named("y"))
            .and_then("-")
            .and_then(digit().times(2).named("m"))
            .and_then("-")
            .and_then(digit().times(2).named("d"))
            .to_string()
    );
}

#[test]
fn test_basic_tocode() {
    assert_eq!(r#"text("Handel")"#, text("Handel").to_code());
    assert_eq!(
        r#"either(("gray", "grey"))"#,
        either(("gray", "grey")).to_code()
    );
    assert_eq!(
        r#"start_with("gr").and_either(("a", "e")).and_then("y")"#,
        start_with("gr")
            .and_either(("a", "e"))
            .and_then("y")
            .to_code()
    );
    assert_eq!(
        r#"start_with("colo").and_maybe("u").and_then("r")"#,
        start_with("colo").and_maybe("u").and_then("r").to_code()
    );
    assert_eq!(r#"digit().many(2, 3)"#, digit().many(2, 3).to_code());
    assert_eq!(
        r#"at_start().and_then(digit()).times(4).and_then("-").and_then(digit()).times(2).and_then("-").and_then(digit()).times(2).must_end()"#,
        at_start()
            .and_then(digit().times(4))
            .and_then("-")
            .and_then(digit().times(2))
            .and_then("-")
            .and_then(digit().times(2))
            .must_end()
            .to_code()
    );
    assert_eq!(
        r#"any_except(digit()).and_then(any_except(letter())).and_then(any_except(word_character()))"#,
        any_except(digit())
            .and_then(any_except(letter()))
            .and_then(any_except(word_character()))
            .to_code()
    );
    assert_eq!(
        r#"start_with(digit().times(4).named("y")).and_then("-").and_then(digit().times(2).named("m")).and_then("-").and_then(digit().times(2).named("d"))"#,
        start_with(digit().times(4).named("y"))
            .and_then("-")
            .and_then(digit().times(2).named("m"))
            .and_then("-")
            .and_then(digit().times(2).named("d"))
            .to_code()
    );
}
