//! Explaining a regular expression: from its syntax tree to a pattern.

use crate::builder::{trees, Expression, Pattern};
use crate::strings::char_string;
use crate::syntax::{
    syntax_trees, Anchor, PerlClass, Repeat, Syntax, SyntaxTree, UnicodeClass,
};
use crate::upstream::{parse, parsed};
use vstd::prelude::*;

verus! {

/// The bounds of a repetition operator: the least number of times, then
/// the greatest, where zero stands for no upper bound.
pub open spec fn bounds_of(op: Repeat) -> (nat, nat) {
    match op {
        Repeat::ZeroOrOne => (0, 1),
        Repeat::ZeroOrMore => (0, 0),
        Repeat::OneOrMore => (1, 0),
        Repeat::AtLeast(m) => (m as nat, 0),
        Repeat::Exactly(m) => (m as nat, m as nat),
        Repeat::Bounded(l, h) => (l as nat, h as nat),
    }
}

/// `next` added at the end of a list in which text runs are merged: a
/// text that follows a text is appended to it, anything else is added as
/// a further element.
pub open spec fn absorb(list: Seq<Expression>, next: Expression) -> Seq<Expression> {
    if list.len() > 0 && list.last() is Text && next is Text {
        list.drop_last().push(Expression::Text(list.last()->Text_0 + next->Text_0))
    } else {
        list.push(next)
    }
}

/// The list with every run of adjacent texts merged into one text.
pub open spec fn merged(items: Seq<Expression>) -> Seq<Expression>
    decreases items.len(),
{
    if items.len() == 0 {
        Seq::empty()
    } else {
        absorb(merged(items.drop_last()), items.last())
    }
}

/// The expression that a list of expressions simplifies to: its text
/// runs are merged, and a single element that is left stands for itself.
pub open spec fn simplified(items: Seq<Expression>) -> Expression {
    let list = merged(items);
    if list.len() == 1 {
        list[0]
    } else {
        Expression::Sequence(list)
    }
}

/// The explanation of each syntax tree of a list.
pub open spec fn explained_each(items: Seq<SyntaxTree>) -> Seq<Expression>
    decreases items,
{
    Seq::new(
        items.len(),
        |i: int|
            if 0 <= i < items.len() {
                items[i].explained()
            } else {
                arbitrary()
            },
    )
}

/// The expression for a character class, or for its negation.
pub open spec fn class(class: Expression, negated: bool) -> Expression {
    if negated {
        Expression::Not(Box::new(class))
    } else {
        class
    }
}

/// What stands for a construct that has no expression of its own.
pub open spec fn unsupported() -> Expression {
    Expression::Raw(Seq::empty())
}

impl SyntaxTree {
    /// The expression tree that explains this syntax tree.
    pub open spec fn explained(self) -> Expression
        decreases self,
    {
        match self {
            SyntaxTree::Concat(asts) => simplified(explained_each(asts)),
            SyntaxTree::Literal(c) => Expression::Text(seq![c]),
            SyntaxTree::Alternation(asts) => Expression::Or(explained_each(asts)),
            SyntaxTree::Group(ast) => ast.explained(),
            SyntaxTree::Repetition { op, ast } => Expression::Many {
                exp: Box::new(ast.explained()),
                low: bounds_of(op).0,
                high: bounds_of(op).1,
            },
            SyntaxTree::ClassPerl { perl: PerlClass::Digit, negated } => class(
                Expression::Digit,
                negated,
            ),
            SyntaxTree::ClassPerl { perl: PerlClass::Word, negated } => class(
                Expression::WordCharacter,
                negated,
            ),
            SyntaxTree::Assertion(Anchor::StartLine) => Expression::InputStart,
            SyntaxTree::Assertion(Anchor::EndLine) => Expression::InputEnd,
            SyntaxTree::ClassUnicode { unicode: UnicodeClass::OneLetter(c), negated } => if c
                == 'N' {
                class(Expression::Letter, negated)
            } else {
                unsupported()
            },
            SyntaxTree::Dot => Expression::Any,
            _ => unsupported(),
        }
    }
}

impl SyntaxTree {
    /// Whether the explainer has an expression for every node of this
    /// tree, and every repetition in it has bounds in order.
    pub open spec fn supported(self) -> bool
        decreases self,
    {
        match self {
            SyntaxTree::Literal(_) => true,
            SyntaxTree::Dot => true,
            SyntaxTree::Assertion(anchor) => anchor is StartLine || anchor is EndLine,
            SyntaxTree::ClassPerl { perl, .. } => perl is Digit || perl is Word,
            SyntaxTree::ClassUnicode { unicode, .. } => unicode == UnicodeClass::OneLetter('N'),
            SyntaxTree::Repetition { op, ast } => (bounds_of(op).1 == 0 || bounds_of(op).0
                <= bounds_of(op).1) && ast.supported(),
            SyntaxTree::Group(ast) => ast.supported(),
            SyntaxTree::Alternation(asts) => forall|i: int|
                0 <= i < asts.len() ==> (#[trigger] asts[i]).supported(),
            SyntaxTree::Concat(asts) => forall|i: int|
                0 <= i < asts.len() ==> (#[trigger] asts[i]).supported(),
            _ => false,
        }
    }
}

/// Why a regular expression could not be explained.
#[derive(Debug, PartialEq, Eq)]
pub enum ExplainError {
    /// The parser rejected the pattern, for the reason that it gives.
    Syntax(regex_syntax::ast::Error),
}

/// Explain a regular expression: parse it, and give the pattern that
/// stands for it
pub fn explain(regex: &str) -> (r: Result<Pattern, ExplainError>)
    ensures
        match parsed(regex@) {
            Some(tree) => r is Ok && r->Ok_0@ == tree.explained(),
            None => r is Err,
        },
{
    match parse(regex) {
        Ok(ast) => Ok(do_explain(&ast)),
        Err(error) => Err(ExplainError::Syntax(error)),
    }
}

/// The bounds of a repetition operator
pub fn bounds(op: &Repeat) -> (b: (u32, u32))
    ensures
        b.0 == bounds_of(*op).0,
        b.1 == bounds_of(*op).1,
{
    match op {
        Repeat::ZeroOrOne => (0, 1),
        Repeat::ZeroOrMore => (0, 0),
        Repeat::OneOrMore => (1, 0),
        Repeat::AtLeast(m) => (*m, 0),
        Repeat::Exactly(m) => (*m, *m),
        Repeat::Bounded(l, h) => (*l, *h),
    }
}

/// Simplify a list of patterns: merge its runs of text, and let a single
/// pattern that is left stand for itself
pub fn simplify(exps: Vec<Pattern>) -> (p: Pattern)
    ensures
        p@ == simplified(trees(exps@)),
{
    let ghost items = exps@;
    let ghost all = trees(items);
    let mut nexps: Vec<Pattern> = Vec::new();
    for p in it: exps
        invariant
            it.seq() == items,
            all == trees(items),
            trees(nexps@) == merged(all.take(it.index() as int)),
    {
        let ghost before = trees(nexps@);
        assert(all.take(it.index() + 1).drop_last() =~= all.take(it.index() as int));
        match p {
            Pattern::Text(t) => {
                match nexps.pop() {
                    Some(Pattern::Text(run)) => {
                        let mut run = run;
                        run.append(t.as_str());
                        nexps.push(Pattern::Text(run));
                    },
                    Some(previous) => {
                        nexps.push(previous);
                        nexps.push(Pattern::Text(t));
                    },
                    None => {
                        nexps.push(Pattern::Text(t));
                    },
                }
            },
            other => {
                nexps.push(other);
            },
        }
        assert(trees(nexps@) =~= absorb(before, p@));
    }
    assert(all.take(items.len() as int) =~= all);
    if nexps.len() == 1 {
        nexps.pop().unwrap()
    } else {
        Pattern::Sequence(nexps)
    }
}

/// Explains each syntax tree of a list.
fn explain_each(asts: &Vec<Syntax>) -> (exps: Vec<Pattern>)
    ensures
        trees(exps@) == explained_each(syntax_trees(asts@)),
    decreases asts,
{
    let mut exps: Vec<Pattern> = Vec::new();
    let mut i: usize = 0;
    while i < asts.len()
        invariant
            i <= asts.len(),
            exps@.len() == i,
            forall|j: int| 0 <= j < i ==> (#[trigger] exps@[j])@ == asts@[j]@.explained(),
        decreases asts.len() - i,
    {
        let exp = do_explain(&asts[i]);
        exps.push(exp);
        i += 1;
    }
    assert(trees(exps@) =~= explained_each(syntax_trees(asts@)));
    exps
}

/// The pattern of a character class, or of its negation.
fn class_pattern(class: Pattern, negated: bool) -> (p: Pattern)
    ensures
        p@ == self::class(class@, negated),
{
    if negated {
        Pattern::Not(Box::new(class))
    } else {
        class
    }
}

/// Give the pattern that stands for a syntax tree
pub fn do_explain(ast: &Syntax) -> (p: Pattern)
    ensures
        p@ == ast@.explained(),
    decreases ast,
{
    match ast {
        Syntax::Concat(asts) => simplify(explain_each(asts)),
        Syntax::Literal(c) => Pattern::Text(char_string(*c)),
        Syntax::Alternation(asts) => Pattern::Or(explain_each(asts)),
        Syntax::Group(ast) => do_explain(ast),
        Syntax::Repetition { op, ast } => {
            let bds = bounds(op);
            Pattern::Many { exp: Box::new(do_explain(ast)), low: bds.0, high: bds.1 }
        },
        Syntax::ClassPerl { perl: PerlClass::Digit, negated } => class_pattern(
            Pattern::Digit,
            *negated,
        ),
        Syntax::ClassPerl { perl: PerlClass::Word, negated } => class_pattern(
            Pattern::WordCharacter,
            *negated,
        ),
        Syntax::Assertion(Anchor::StartLine) => Pattern::InputStart,
        Syntax::Assertion(Anchor::EndLine) => Pattern::InputEnd,
        Syntax::ClassUnicode { unicode: UnicodeClass::OneLetter(c), negated } => {
            if *c == 'N' {
                class_pattern(Pattern::Letter, *negated)
            } else {
                Pattern::Raw(String::new())
            }
        },
        Syntax::Dot => Pattern::Any,
        _ => Pattern::Raw(String::new()),
    }
}

} // verus!
