//! The syntax tree of a parsed regular expression, as far as the
//! explainer reads it.

use vstd::prelude::*;

verus! {

/// A position that an assertion tests.
#[derive(Debug, Clone, Copy, PartialEq, Eq)]
pub enum Anchor {
    /// `^`: where a line starts
    StartLine,
    /// `$`: where a line ends
    EndLine,
    /// `\A`: where the text starts
    StartText,
    /// `\z`: where the text ends
    EndText,
    /// `\b`: between a word character and another character
    WordBoundary,
    /// `\B`: anywhere else
    NotWordBoundary,
}

/// A character class with an escape of one letter.
#[derive(Debug, Clone, Copy, PartialEq, Eq)]
pub enum PerlClass {
    /// `\d`
    Digit,
    /// `\s`
    Space,
    /// `\w`
    Word,
}

/// How a Unicode character class is written.
#[derive(Debug, Clone, Copy, PartialEq, Eq)]
pub enum UnicodeClass {
    /// By one letter, as in `\pN`; this is the letter
    OneLetter(char),
    /// By a name, as in `\p{Greek}`
    Named,
    /// By a name and a value, as in `\p{scx=Katakana}`
    NamedValue,
}

/// A repetition operator.
#[derive(Debug, Clone, Copy, PartialEq, Eq)]
pub enum Repeat {
    /// `?`
    ZeroOrOne,
    /// `*`
    ZeroOrMore,
    /// `+`
    OneOrMore,
    /// `{m}`
    Exactly(u32),
    /// `{m,}`
    AtLeast(u32),
    /// `{m,n}`
    Bounded(u32, u32),
}

/// The mathematical tree that a [`Syntax`] stands for, variant by
/// variant.
pub enum SyntaxTree {
    Empty,
    Flags,
    Literal(char),
    Dot,
    Assertion(Anchor),
    ClassPerl { perl: PerlClass, negated: bool },
    ClassUnicode { unicode: UnicodeClass, negated: bool },
    ClassBracketed,
    Repetition { op: Repeat, ast: Box<SyntaxTree> },
    Group(Box<SyntaxTree>),
    Alternation(Seq<SyntaxTree>),
    Concat(Seq<SyntaxTree>),
}

/// The syntax tree of a regular expression.
#[derive(Debug)]
pub enum Syntax {
    /// Nothing at all
    Empty,
    /// Flags that stand by themselves, as in `(?i)`
    Flags,
    /// One character, written as itself or as an escape
    Literal(char),
    /// `.`
    Dot,
    /// A test of the position, which takes no character
    Assertion(Anchor),
    /// `\d`, `\s` or `\w`, or one of their negations
    ClassPerl { perl: PerlClass, negated: bool },
    /// `\p` or its negation `\P`, with what follows it
    ClassUnicode { unicode: UnicodeClass, negated: bool },
    /// A class in square brackets
    ClassBracketed,
    /// An operand with the operator that repeats it
    Repetition { op: Repeat, ast: Box<Syntax> },
    /// A group of any kind, with what stands in it
    Group(Box<Syntax>),
    /// Branches with `|` between them
    Alternation(Vec<Syntax>),
    /// Elements in a row
    Concat(Vec<Syntax>),
}

/// The mathematical trees that a list of syntax trees stands for.
pub open spec fn syntax_trees(items: Seq<Syntax>) -> Seq<SyntaxTree>
    decreases items,
{
    Seq::new(
        items.len(),
        |i: int|
            if 0 <= i < items.len() {
                items[i].tree()
            } else {
                arbitrary()
            },
    )
}

impl Syntax {
    /// The mathematical tree that this syntax tree stands for.
    pub open spec fn tree(&self) -> SyntaxTree
        decreases self,
    {
        match self {
            Syntax::Empty => SyntaxTree::Empty,
            Syntax::Flags => SyntaxTree::Flags,
            Syntax::Literal(c) => SyntaxTree::Literal(*c),
            Syntax::Dot => SyntaxTree::Dot,
            Syntax::Assertion(kind) => SyntaxTree::Assertion(*kind),
            Syntax::ClassPerl { perl, negated } => SyntaxTree::ClassPerl {
                perl: *perl,
                negated: *negated,
            },
            Syntax::ClassUnicode { unicode, negated } => SyntaxTree::ClassUnicode {
                unicode: *unicode,
                negated: *negated,
            },
            Syntax::ClassBracketed => SyntaxTree::ClassBracketed,
            Syntax::Repetition { op, ast } => SyntaxTree::Repetition {
                op: *op,
                ast: Box::new(ast.tree()),
            },
            Syntax::Group(ast) => SyntaxTree::Group(Box::new(ast.tree())),
            Syntax::Alternation(asts) => SyntaxTree::Alternation(syntax_trees(asts@)),
            Syntax::Concat(asts) => SyntaxTree::Concat(syntax_trees(asts@)),
        }
    }
}

impl View for Syntax {
    type V = SyntaxTree;

    open spec fn view(&self) -> SyntaxTree {
        self.tree()
    }
}

} // verus!
