use ezregexp::builder::Pattern;
use ezregexp::parser::{bounds, do_explain, explain, simplify, ExplainError};
use ezregexp::syntax::{Anchor, PerlClass, Repeat, Syntax, UnicodeClass};
use ezregexp::ToCode;

fn same(expected: &Pattern, actual: &Pattern) -> bool {
    format!("{:?}", expected) == format!("{:?}", actual)
}

fn text(s: &str) -> Pattern {
    Pattern::Text(s.to_owned())
}

fn many(exp: Pattern, low: u32, high: u32) -> Pattern {
    Pattern::Many {
        exp: Box::new(exp),
        low,
        high,
    }
}

fn explained(regex: &str) -> Pattern {
    match explain(regex) {
        Ok(p) => p,
        Err(e) => panic!("{:?}", e),
    }
}

#[test]
fn bounds_of_each_operator() {
    assert_eq!((0, 1), bounds(&Repeat::ZeroOrOne));
    assert_eq!((0, 0), bounds(&Repeat::ZeroOrMore));
    assert_eq!((1, 0), bounds(&Repeat::OneOrMore));
    assert_eq!((7, 7), bounds(&Repeat::Exactly(7)));
    assert_eq!((7, 0), bounds(&Repeat::AtLeast(7)));
    assert_eq!((2, 5), bounds(&Repeat::Bounded(2, 5)));
    assert_eq!((0, 0), bounds(&Repeat::Exactly(0)));
    assert_eq!((u32::MAX, 0), bounds(&Repeat::AtLeast(u32::MAX)));
}

#[test]
fn simplify_merges_runs_of_text() {
    assert!(same(
        &text("abcd"),
        &simplify(vec![text("ab"), text("cd")])
    ));
    assert!(same(
        &text("abc"),
        &simplify(vec![text("a"), text("b"), text("c")])
    ));
    assert!(same(
        &Pattern::Sequence(vec![text("ab"), Pattern::Digit, text("cd")]),
        &simplify(vec![
            text("a"),
            text("b"),
            Pattern::Digit,
            text("c"),
            text("d")
        ])
    ));
    assert!(same(
        &Pattern::Sequence(vec![Pattern::Digit, text("ab"), Pattern::Letter]),
        &simplify(vec![Pattern::Digit, text("a"), text("b"), Pattern::Letter])
    ));
    assert!(same(
        &Pattern::Sequence(vec![Pattern::Digit, Pattern::Digit]),
        &simplify(vec![Pattern::Digit, Pattern::Digit])
    ));
}

#[test]
fn simplify_collapses_a_single_element() {
    assert!(same(&Pattern::Digit, &simplify(vec![Pattern::Digit])));
    assert!(same(&text("a"), &simplify(vec![text("a")])));
    assert!(same(&Pattern::Sequence(vec![]), &simplify(vec![])));
    assert!(same(
        &Pattern::Sequence(vec![text("a")]),
        &simplify(vec![Pattern::Sequence(vec![text("a")])])
    ));
}

#[test]
fn simplify_keeps_raw_apart_from_text() {
    assert!(same(
        &Pattern::Sequence(vec![text("a"), Pattern::Raw("b".to_owned()), text("c")]),
        &simplify(vec![text("a"), Pattern::Raw("b".to_owned()), text("c")])
    ));
}

#[test]
fn simplify_twice_changes_nothing_more() {
    let once = simplify(vec![text("a"), text("b"), Pattern::Digit, text("c")]);
    let items = match once {
        Pattern::Sequence(items) => items,
        other => panic!("{:?}", other),
    };
    assert_eq!(3, items.len());
    assert!(same(
        &Pattern::Sequence(vec![text("ab"), Pattern::Digit, text("c")]),
        &simplify(items)
    ));
}

#[test]
fn simplify_keeps_the_rendering() {
    let lists: Vec<fn() -> Vec<Pattern>> = vec![
        || vec![],
        || vec![text("a")],
        || vec![text("a"), text("b")],
        || vec![text("a"), text("b"), Pattern::Digit, text("c"), text("d")],
        || vec![Pattern::Or(vec![text("a"), text("b")])],
        || vec![text("x"), Pattern::Or(vec![text("a"), text("b")])],
        || vec![Pattern::Or(vec![text("a"), text("b")]), text("x"), text("y")],
        || vec![text("x"), text("y"), many(text("zz"), 0, 1), text("w")],
    ];
    for list in lists {
        assert_eq!(
            Pattern::Sequence(list()).to_string(),
            simplify(list()).to_string()
        );
    }
}

#[test]
fn every_node_kind_is_explained() {
    assert!(same(&text("a"), &do_explain(&Syntax::Literal('a'))));
    assert!(same(&Pattern::Any, &do_explain(&Syntax::Dot)));
    assert!(same(
        &Pattern::InputStart,
        &do_explain(&Syntax::Assertion(Anchor::StartLine))
    ));
    assert!(same(
        &Pattern::InputEnd,
        &do_explain(&Syntax::Assertion(Anchor::EndLine))
    ));
    assert!(same(
        &Pattern::Digit,
        &do_explain(&Syntax::ClassPerl {
            perl: PerlClass::Digit,
            negated: false
        })
    ));
    assert!(same(
        &Pattern::Not(Box::new(Pattern::Digit)),
        &do_explain(&Syntax::ClassPerl {
            perl: PerlClass::Digit,
            negated: true
        })
    ));
    assert!(same(
        &Pattern::WordCharacter,
        &do_explain(&Syntax::ClassPerl {
            perl: PerlClass::Word,
            negated: false
        })
    ));
    assert!(same(
        &Pattern::Not(Box::new(Pattern::WordCharacter)),
        &do_explain(&Syntax::ClassPerl {
            perl: PerlClass::Word,
            negated: true
        })
    ));
    assert!(same(
        &Pattern::Letter,
        &do_explain(&Syntax::ClassUnicode {
            unicode: UnicodeClass::OneLetter('N'),
            negated: false
        })
    ));
    assert!(same(
        &Pattern::Not(Box::new(Pattern::Letter)),
        &do_explain(&Syntax::ClassUnicode {
            unicode: UnicodeClass::OneLetter('N'),
            negated: true
        })
    ));
    assert!(same(
        &text("a"),
        &do_explain(&Syntax::Group(Box::new(Syntax::Literal('a'))))
    ));
    assert!(same(
        &Pattern::Or(vec![text("a"), Pattern::Any]),
        &do_explain(&Syntax::Alternation(vec![Syntax::Literal('a'), Syntax::Dot]))
    ));
    assert!(same(
        &many(Pattern::Any, 2, 5),
        &do_explain(&Syntax::Repetition {
            op: Repeat::Bounded(2, 5),
            ast: Box::new(Syntax::Dot)
        })
    ));
}

#[test]
fn unsupported_nodes_explain_to_empty_raw() {
    let raw = Pattern::Raw(String::new());
    assert!(same(&raw, &do_explain(&Syntax::Empty)));
    assert!(same(&raw, &do_explain(&Syntax::Flags)));
    assert!(same(&raw, &do_explain(&Syntax::ClassBracketed)));
    assert!(same(
        &raw,
        &do_explain(&Syntax::ClassPerl {
            perl: PerlClass::Space,
            negated: false
        })
    ));
    assert!(same(
        &raw,
        &do_explain(&Syntax::ClassUnicode {
            unicode: UnicodeClass::OneLetter('L'),
            negated: false
        })
    ));
    assert!(same(
        &raw,
        &do_explain(&Syntax::ClassUnicode {
            unicode: UnicodeClass::Named,
            negated: true
        })
    ));
    assert!(same(
        &raw,
        &do_explain(&Syntax::ClassUnicode {
            unicode: UnicodeClass::NamedValue,
            negated: false
        })
    ));
    assert!(same(&raw, &do_explain(&Syntax::Assertion(Anchor::StartText))));
    assert!(same(&raw, &do_explain(&Syntax::Assertion(Anchor::EndText))));
    assert!(same(
        &raw,
        &do_explain(&Syntax::Assertion(Anchor::WordBoundary))
    ));
    assert!(same(
        &raw,
        &do_explain(&Syntax::Assertion(Anchor::NotWordBoundary))
    ));
}

#[test]
fn concatenation_is_simplified() {
    let ast = Syntax::Concat(vec![
        Syntax::Literal('g'),
        Syntax::Literal('r'),
        Syntax::Group(Box::new(Syntax::Alternation(vec![
            Syntax::Literal('a'),
            Syntax::Literal('e'),
        ]))),
        Syntax::Literal('y'),
    ]);
    assert!(same(
        &Pattern::Sequence(vec![
            text("gr"),
            Pattern::Or(vec![text("a"), text("e")]),
            text("y")
        ]),
        &do_explain(&ast)
    ));
    assert!(same(
        &text("ab"),
        &do_explain(&Syntax::Concat(vec![
            Syntax::Literal('a'),
            Syntax::Literal('b')
        ]))
    ));
    assert!(same(
        &Pattern::Sequence(vec![]),
        &do_explain(&Syntax::Concat(vec![]))
    ));
    assert!(same(
        &text("ab"),
        &do_explain(&Syntax::Concat(vec![
            Syntax::Group(Box::new(Syntax::Literal('a'))),
            Syntax::Literal('b')
        ]))
    ));
}

#[test]
fn literal_run_becomes_one_text() {
    assert!(same(&text("abcd"), &explained("abcd")));
    assert!(same(&text("ab"), &explained("ab")));
    assert!(same(&text("a"), &explained("a")));
    assert_eq!(r#"text("abcd")"#, explained("abcd").to_code());
}

#[test]
fn parsed_nodes_are_explained() {
    assert!(same(&Pattern::Any, &explained(".")));
    assert!(same(&Pattern::Digit, &explained(r"\d")));
    assert!(same(&Pattern::Not(Box::new(Pattern::Digit)), &explained(r"\D")));
    assert!(same(&Pattern::WordCharacter, &explained(r"\w")));
    assert!(same(
        &Pattern::Not(Box::new(Pattern::WordCharacter)),
        &explained(r"\W")
    ));
    assert!(same(&Pattern::Letter, &explained(r"\pN")));
    assert!(same(&Pattern::Not(Box::new(Pattern::Letter)), &explained(r"\PN")));
    assert!(same(&Pattern::InputStart, &explained("^")));
    assert!(same(&Pattern::InputEnd, &explained("$")));
    assert!(same(&text("."), &explained(r"\.")));
    assert!(same(&text("é"), &explained("é")));
    assert!(same(&text("a"), &explained("(a)")));
    assert!(same(&text("ab"), &explained("(?:ab)")));
    assert!(same(&text("a"), &explained("(?P<n>a)")));
    assert!(same(
        &Pattern::Or(vec![text("gray"), text("grey")]),
        &explained("gray|grey")
    ));
}

#[test]
fn parsed_repetitions_have_their_bounds() {
    assert!(same(&many(text("a"), 0, 1), &explained("a?")));
    assert!(same(&many(text("a"), 0, 0), &explained("a*")));
    assert!(same(&many(text("a"), 1, 0), &explained("a+")));
    assert!(same(&many(text("a"), 3, 3), &explained("a{3}")));
    assert!(same(&many(text("a"), 3, 0), &explained("a{3,}")));
    assert!(same(&many(text("a"), 2, 5), &explained("a{2,5}")));
    assert!(same(&many(text("a"), 0, 1), &explained("a??")));
    assert!(same(
        &Pattern::Sequence(vec![text("colo"), many(text("u"), 0, 1), text("r")]),
        &explained("colou?r")
    ));
    assert!(same(&many(many(text("a"), 1, 0), 0, 0), &explained("(a+)*")));
}

#[test]
fn unsupported_syntax_degrades_to_empty_raw() {
    let raw = Pattern::Raw(String::new());
    assert!(same(&raw, &explained("")));
    assert!(same(&raw, &explained(r"\s")));
    assert!(same(&raw, &explained("[a-z]")));
    assert!(same(&raw, &explained(r"\b")));
    assert!(same(&raw, &explained(r"\pL")));
    assert!(same(&raw, &explained(r"\p{Greek}")));
    assert!(same(&raw, &explained(r"\A")));
    assert!(same(
        &Pattern::Sequence(vec![text("a"), raw, text("b")]),
        &explained(r"a\sb")
    ));
    assert!(same(
        &Pattern::Sequence(vec![Pattern::Raw(String::new()), text("a")]),
        &explained("(?i)a")
    ));
}

#[test]
fn malformed_patterns_are_rejected() {
    assert!(matches!(explain("("), Err(ExplainError::Syntax(_))));
    assert!(matches!(explain("a{2,1}"), Err(ExplainError::Syntax(_))));
    assert!(matches!(explain("*"), Err(ExplainError::Syntax(_))));
    assert!(matches!(explain("[a"), Err(ExplainError::Syntax(_))));
    assert!(matches!(explain(r"\"), Err(ExplainError::Syntax(_))));
    assert!(matches!(explain("a)"), Err(ExplainError::Syntax(_))));
}

#[test]
fn rejection_carries_the_parser_error() {
    let expected = regex_syntax::ast::parse::Parser::new()
        .parse("(a")
        .unwrap_err();
    match explain("(a") {
        Err(ExplainError::Syntax(error)) => {
            assert_eq!(expected, error);
            assert_eq!(
                &regex_syntax::ast::ErrorKind::GroupUnclosed,
                error.kind()
            );
        }
        other => panic!("{:?}", other),
    }
}

#[test]
fn explained_date_has_source() {
    assert_eq!(
        r#"at_start().and_then(digit()).times(4).and_then("-").and_then(digit()).times(2).and_then("-").and_then(digit()).times(2).must_end()"#,
        explained(r"^\d{4}-\d{2}-\d{2}$").to_code()
    );
}

#[test]
fn explained_alternation_in_group_has_source() {
    assert_eq!(
        r#"start_with("gr").and_either(("a", "e")).and_then("y")"#,
        explained("gr(a|e)y").to_code()
    );
}

#[test]
fn explained_source_of_other_patterns() {
    assert_eq!("anything()", explained(".").to_code());
    assert_eq!(
        r#"start_with("a").and_maybe_many(anything())"#,
        explained("a.*").to_code()
    );
    assert_eq!(
        r#"start_with("a").and_many(digit()).and_then(letter()).many(3,0)"#,
        explained(r"a\d+\pN{3,}").to_code()
    );
    assert_eq!(
        r#""ab".times(2)"#,
        explained("(ab){2}").to_code()
    );
}

fn round_trip(regex: &str) {
    let first = explained(regex).to_string();
    let second = explained(&first).to_string();
    let third = explained(&second).to_string();
    assert_eq!(second, third);
}

#[test]
fn rendering_is_stable_after_one_round_trip() {
    round_trip("Handel");
    round_trip("gray|grey");
    round_trip("gr(a|e)y");
    round_trip("colou?r");
    round_trip(r"\d{2,3}");
    round_trip(r"^\d{4}-\d{2}-\d{2}$");
    round_trip(r"\D\PN\W");
    round_trip(r"(abc){2,3}x*.+");
    round_trip(r"(a|b)(c|d)+");
    round_trip(r"\w+\d{4}(ab)?");
}

#[test]
fn supported_patterns_render_back_unchanged() {
    for regex in [
        "Handel",
        "gray|grey",
        "gr(a|e)y",
        "colou?r",
        r"\d{2,3}",
        r"^\d{4}-\d{2}-\d{2}$",
        r"\D\PN\W",
        r"(abc){2}",
        r"a.b*c+",
    ] {
        assert_eq!(regex, explained(regex).to_string());
    }
}
