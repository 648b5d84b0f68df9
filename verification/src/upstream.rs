//! The parser of `regex_syntax`, and its syntax tree brought into
//! [`Syntax`]. Nothing in this file is proved: it holds what the library
//! takes on trust from the parser.

use crate::syntax::{Anchor, PerlClass, Repeat, Syntax, SyntaxTree, UnicodeClass};
use regex_syntax::ast::parse::Parser;
use regex_syntax::ast::{
    AssertionKind, Ast, Class, ClassPerlKind, ClassUnicodeKind, RepetitionKind, RepetitionRange,
};
use vstd::prelude::*;

verus! {

/// `regex_syntax::ast::Ast`, a node of the syntax tree.
#[verifier::external_type_specification]
#[verifier::external_body]
pub struct ExAst(regex_syntax::ast::Ast);

/// `regex_syntax::ast::AssertionKind`, the kind of an assertion.
#[verifier::external_type_specification]
#[verifier::external_body]
pub struct ExAssertionKind(regex_syntax::ast::AssertionKind);

/// `regex_syntax::ast::Class`, a character class.
#[verifier::external_type_specification]
#[verifier::external_body]
pub struct ExClass(regex_syntax::ast::Class);

/// `regex_syntax::ast::ClassPerlKind`, the kind of a Perl class.
#[verifier::external_type_specification]
#[verifier::external_body]
pub struct ExClassPerlKind(regex_syntax::ast::ClassPerlKind);

/// `regex_syntax::ast::ClassUnicodeKind`, the form of a Unicode class.
#[verifier::external_type_specification]
#[verifier::external_body]
pub struct ExClassUnicodeKind(regex_syntax::ast::ClassUnicodeKind);

/// `regex_syntax::ast::RepetitionKind`, the kind of a repetition operator.
#[verifier::external_type_specification]
#[verifier::external_body]
pub struct ExRepetitionKind(regex_syntax::ast::RepetitionKind);

/// `regex_syntax::ast::Error`, the error for which the parser rejects a pattern.
#[verifier::external_type_specification]
#[verifier::external_body]
pub struct ExError(regex_syntax::ast::Error);

/// The syntax tree that `regex_syntax` parses a pattern into, or `None`
/// for a pattern that it rejects.
pub uninterp spec fn parsed(pattern: Seq<char>) -> Option<SyntaxTree>;

/// Calls `regex_syntax::ast::parse::Parser::parse` on a parser with the
/// default configuration, which gives the syntax tree of the pattern or
/// the error for which it rejects it. The answer depends on the pattern
/// alone; [`parsed`] names it.
#[verifier::external_body]
pub(crate) fn parse(regex: &str) -> (r: Result<Syntax, regex_syntax::ast::Error>)
    ensures
        match r {
            Ok(syntax) => parsed(regex@) == Some(syntax@),
            Err(_) => parsed(regex@) is None,
        },
{
    match Parser::new().parse(regex) {
        Ok(node) => Ok(syntax(&node)),
        Err(error) => Err(error),
    }
}

/// Brings a node of `regex_syntax::ast::Ast` into [`Syntax`], variant by
/// variant. Spans, flags, group kinds, greediness and what a bracketed
/// class holds are left behind.
#[verifier::external_body]
fn syntax(node: &regex_syntax::ast::Ast) -> Syntax {
    match node {
        Ast::Empty(_) => Syntax::Empty,
        Ast::Flags(_) => Syntax::Flags,
        Ast::Literal(x) => Syntax::Literal(x.c),
        Ast::Dot(_) => Syntax::Dot,
        Ast::Assertion(x) => Syntax::Assertion(assertion_kind(&x.kind)),
        Ast::Class(x) => class(x),
        Ast::Repetition(x) => Syntax::Repetition { op: repetition_kind(&x.op.kind), ast: Box::new(syntax(&x.ast)) },
        Ast::Group(x) => Syntax::Group(Box::new(syntax(&x.ast))),
        Ast::Alternation(x) => Syntax::Alternation(syntaxes(&x.asts)),
        Ast::Concat(x) => Syntax::Concat(syntaxes(&x.asts)),
    }
}

/// Brings each node of a list into [`Syntax`], in order.
#[verifier::external_body]
fn syntaxes(nodes: &Vec<regex_syntax::ast::Ast>) -> Vec<Syntax> {
    nodes.iter().map(syntax).collect()
}

/// Brings a `regex_syntax::ast::Class` into [`Syntax`], variant by
/// variant, with its `negated` flag.
#[verifier::external_body]
fn class(class: &regex_syntax::ast::Class) -> Syntax {
    match class {
        Class::Unicode(x) => Syntax::ClassUnicode { unicode: unicode_kind(&x.kind), negated: x.negated },
        Class::Perl(x) => Syntax::ClassPerl { perl: perl_kind(&x.kind), negated: x.negated },
        Class::Bracketed(_) => Syntax::ClassBracketed,
    }
}

/// Brings a `regex_syntax::ast::ClassPerlKind` into [`PerlClass`].
#[verifier::external_body]
fn perl_kind(kind: &regex_syntax::ast::ClassPerlKind) -> PerlClass {
    match kind {
        ClassPerlKind::Digit => PerlClass::Digit,
        ClassPerlKind::Space => PerlClass::Space,
        ClassPerlKind::Word => PerlClass::Word,
    }
}

/// Brings a `regex_syntax::ast::ClassUnicodeKind` into
/// [`UnicodeClass`]; the names and values of named classes are left
/// behind.
#[verifier::external_body]
fn unicode_kind(kind: &regex_syntax::ast::ClassUnicodeKind) -> UnicodeClass {
    match kind {
        ClassUnicodeKind::OneLetter(c) => UnicodeClass::OneLetter(*c),
        ClassUnicodeKind::Named(_) => UnicodeClass::Named,
        ClassUnicodeKind::NamedValue { .. } => UnicodeClass::NamedValue,
    }
}

/// Brings a `regex_syntax::ast::AssertionKind` into [`Anchor`].
#[verifier::external_body]
fn assertion_kind(kind: &regex_syntax::ast::AssertionKind) -> Anchor {
    match kind {
        AssertionKind::StartLine => Anchor::StartLine,
        AssertionKind::EndLine => Anchor::EndLine,
        AssertionKind::StartText => Anchor::StartText,
        AssertionKind::EndText => Anchor::EndText,
        AssertionKind::WordBoundary => Anchor::WordBoundary,
        AssertionKind::NotWordBoundary => Anchor::NotWordBoundary,
    }
}

/// Brings a `regex_syntax::ast::RepetitionKind` into [`Repeat`],
/// with the counts of a range.
#[verifier::external_body]
fn repetition_kind(kind: &regex_syntax::ast::RepetitionKind) -> Repeat {
    match kind {
        RepetitionKind::ZeroOrOne => Repeat::ZeroOrOne,
        RepetitionKind::ZeroOrMore => Repeat::ZeroOrMore,
        RepetitionKind::OneOrMore => Repeat::OneOrMore,
        RepetitionKind::Range(RepetitionRange::Exactly(m)) => Repeat::Exactly(*m),
        RepetitionKind::Range(RepetitionRange::AtLeast(m)) => Repeat::AtLeast(*m),
        RepetitionKind::Range(RepetitionRange::Bounded(m, n)) => Repeat::Bounded(*m, *n),
    }
}

} // verus!
