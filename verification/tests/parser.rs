use ezregexp::parser::explain;
use ezregexp::ToCode;

fn assert_explain(expected: &str, regex: &str) {
    assert_eq!(
        Ok(expected.to_owned()),
        explain(regex).map(|p| p.to_code())
    );
}

#[test]
fn test_basic_explain() {
    assert_explain(r#"text("Handel")"#, "Handel");
    assert_explain(r#"word_character()"#, r"\w");
    assert_explain(r#"letter()"#, r"\pN");
    assert_explain(r#"either(("gray", "grey"))"#, "gray|grey");
    assert_explain(
        r#"start_with("gr").and_either(("a", "e")).and_then("y")"#,
        "gr(a|e)y",
    );
    assert_explain(
        r#"start_with("colo").and_maybe("u").and_then("r")"#,
        "colou?r",
    );
    assert_explain(r#"digit().many(2, 3)"#, r#"\d{2,3}"#);
    assert_explain(
        r#"at_start().and_then(digit()).times(4).and_then("-").and_then(digit()).times(2).and_then("-").and_then(digit()).times(2).must_end()"#,
        r"^\d{4}-\d{2}-\d{2}$",
    );
    assert_explain(
        r#"any_except(digit()).and_then(any_except(letter())).and_then(any_except(word_character()))"#,
        r#"\D\PN\W"#,
    );
}
