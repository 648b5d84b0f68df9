//! The pattern tree and the fluent combinators that build it.

use vstd::prelude::*;

verus! {

/// The mathematical expression tree that a [`Pattern`] stands for.
pub enum Expression {
    /// Ordered concatenation.
    Sequence(Seq<Expression>),
    /// Literal characters.
    Text(Seq<char>),
    /// Unprocessed text; empty, it stands for a construct that has no
    /// expression of its own.
    Raw(Seq<char>),
    /// Alternation, in order of priority.
    Or(Seq<Expression>),
    /// Repetition within bounds; a `high` of zero means unbounded.
    Many { exp: Box<Expression>, low: nat, high: nat },
    /// A single decimal digit.
    Digit,
    /// A single letter.
    Letter,
    /// A single word character.
    WordCharacter,
    /// The start of the input.
    InputStart,
    /// The end of the input.
    InputEnd,
    /// Negation of a digit, a letter or a word character.
    Not(Box<Expression>),
    /// Any single character.
    Any,
    /// Named capturing group.
    Named { exp: Box<Expression>, name: Seq<char> },
}

/// A regular expression pattern
#[derive(Debug)]
pub enum Pattern {
    /// Patterns that follow one another
    Sequence(Vec<Pattern>),
    /// Text that is matched as it is written
    Text(String),
    /// Unprocessed text
    Raw(String),
    /// One of several patterns
    Or(Vec<Pattern>),
    /// A pattern repeated from `low` to `high` times, or without an
    /// upper bound where `high` is zero
    Many { exp: Box<Pattern>, low: u32, high: u32 },
    /// A digit
    Digit,
    /// A letter
    Letter,
    /// A word character
    WordCharacter,
    /// The start of the input
    InputStart,
    /// The end of the input
    InputEnd,
    /// Anything but the digit, letter or word character that it holds
    Not(Box<Pattern>),
    /// Any character
    Any,
    /// A group that captures under a name
    Named { exp: Box<Pattern>, name: String },
}

/// The expression trees that a list of patterns stands for.
pub open spec fn trees(items: Seq<Pattern>) -> Seq<Expression>
    decreases items,
{
    Seq::new(
        items.len(),
        |i: int|
            if 0 <= i < items.len() {
                items[i].tree()
            } else {
                arbitrary()
            },
    )
}

impl Pattern {
    /// The expression tree that this pattern stands for.
    pub open spec fn tree(&self) -> Expression
        decreases self,
    {
        match self {
            Pattern::Sequence(items) => Expression::Sequence(trees(items@)),
            Pattern::Text(text) => Expression::Text(text@),
            Pattern::Raw(text) => Expression::Raw(text@),
            Pattern::Or(items) => Expression::Or(trees(items@)),
            Pattern::Many { exp, low, high } => Expression::Many {
                exp: Box::new(exp.tree()),
                low: *low as nat,
                high: *high as nat,
            },
            Pattern::Digit => Expression::Digit,
            Pattern::Letter => Expression::Letter,
            Pattern::WordCharacter => Expression::WordCharacter,
            Pattern::InputStart => Expression::InputStart,
            Pattern::InputEnd => Expression::InputEnd,
            Pattern::Not(exp) => Expression::Not(Box::new(exp.tree())),
            Pattern::Any => Expression::Any,
            Pattern::Named { exp, name } => Expression::Named {
                exp: Box::new(exp.tree()),
                name: name@,
            },
        }
    }
}

impl View for Pattern {
    type V = Expression;

    open spec fn view(&self) -> Expression {
        self.tree()
    }
}

impl Expression {
    /// Whether this tree keeps the invariants of a pattern: the bounds of
    /// a repetition are in order unless the upper one is zero, which
    /// stands for no bound; a negation holds a digit, a letter or a word
    /// character; and no raw text is left in it.
    pub open spec fn well_formed(self) -> bool
        decreases self,
    {
        match self {
            Expression::Sequence(items) => forall|i: int|
                0 <= i < items.len() ==> (#[trigger] items[i]).well_formed(),
            Expression::Or(items) => forall|i: int|
                0 <= i < items.len() ==> (#[trigger] items[i]).well_formed(),
            Expression::Many { exp, low, high } => exp.well_formed() && (high == 0 || low <= high),
            Expression::Not(exp) => *exp is Digit || *exp is Letter || *exp is WordCharacter,
            Expression::Named { exp, name } => exp.well_formed(),
            Expression::Raw(_) => false,
            _ => true,
        }
    }

    /// This expression with `next` appended: a sequence takes `next` as a
    /// further element, any other expression becomes the first of two.
    pub open spec fn followed_by(self, next: Expression) -> Expression {
        match self {
            Expression::Sequence(items) => Expression::Sequence(items.push(next)),
            _ => Expression::Sequence(seq![self, next]),
        }
    }

    /// This expression with its most recently appended element repeated:
    /// the last element of a sequence that has one, else the whole.
    pub open spec fn repeat_last(self, low: nat, high: nat) -> Expression {
        match self {
            Expression::Sequence(items) if items.len() > 0 => Expression::Sequence(
                items.drop_last().push(
                    Expression::Many { exp: Box::new(items.last()), low, high },
                ),
            ),
            _ => Expression::Many { exp: Box::new(self), low, high },
        }
    }

    /// This expression with its most recently appended element captured
    /// under `name`: the last element of a sequence that has one, else the
    /// whole.
    pub open spec fn name_last(self, name: Seq<char>) -> Expression {
        match self {
            Expression::Sequence(items) if items.len() > 0 => Expression::Sequence(
                items.drop_last().push(Expression::Named { exp: Box::new(items.last()), name }),
            ),
            _ => Expression::Named { exp: Box::new(self), name },
        }
    }
}

/// Conversion into a pattern: what the combinators take as an operand
pub trait IntoPattern: Sized {
    /// The expression tree of the pattern that `self` converts into.
    spec fn expression(self) -> Expression;

    fn into_pattern(self) -> (p: Pattern)
        ensures
            p@ == self.expression(),
    ;
}

/// A pattern is itself
impl IntoPattern for Pattern {
    open spec fn expression(self) -> Expression {
        self@
    }

    fn into_pattern(self) -> (p: Pattern) {
        self
    }
}

/// A string slice is the text that it holds
impl<'a> IntoPattern for &'a str {
    open spec fn expression(self) -> Expression {
        Expression::Text(self@)
    }

    fn into_pattern(self) -> (p: Pattern) {
        Pattern::Text(self.to_owned())
    }
}

/// A string is the text that it holds
impl IntoPattern for String {
    open spec fn expression(self) -> Expression {
        Expression::Text(self@)
    }

    fn into_pattern(self) -> (p: Pattern) {
        Pattern::Text(self)
    }
}

/// Conversion into the name of a group
pub trait IntoName: Sized {
    /// The characters of the name that `self` converts into.
    spec fn characters(self) -> Seq<char>;

    fn into_name(self) -> (name: String)
        ensures
            name@ == self.characters(),
    ;
}

/// A string slice names a group by its characters
impl<'a> IntoName for &'a str {
    open spec fn characters(self) -> Seq<char> {
        self@
    }

    fn into_name(self) -> (name: String) {
        self.to_owned()
    }
}

/// A string names a group by its characters
impl IntoName for String {
    open spec fn characters(self) -> Seq<char> {
        self@
    }

    fn into_name(self) -> (name: String) {
        self
    }
}

/// Convert a string slice into a text pattern
impl From<&str> for Pattern {
    fn from(s: &str) -> (p: Pattern)
        ensures
            p@ == Expression::Text(s@),
    {
        Pattern::Text(s.to_owned())
    }
}

/// `from` is specified by its own `ensures`: two strings with the same
/// characters are not known to be one value, so no value is named here.
impl vstd::std_specs::convert::FromSpecImpl<&str> for Pattern {
    open spec fn obeys_from_spec() -> bool {
        false
    }

    open spec fn from_spec(s: &str) -> Pattern {
        choose|p: Pattern| p@ == Expression::Text(s@)
    }
}

/// Convert a string into a text pattern
impl From<String> for Pattern {
    fn from(s: String) -> (p: Pattern)
        ensures
            p@ == Expression::Text(s@),
    {
        Pattern::Text(s)
    }
}

/// The string moves into the pattern.
impl vstd::std_specs::convert::FromSpecImpl<String> for Pattern {
    open spec fn obeys_from_spec() -> bool {
        true
    }

    open spec fn from_spec(s: String) -> Pattern {
        Pattern::Text(s)
    }
}

/// Conversion into a list of patterns
pub trait PatternList: Sized {
    /// The expression trees of the patterns that `self` converts into.
    spec fn expressions(self) -> Seq<Expression>;

    fn into_patterns(self) -> (patterns: Vec<Pattern>)
        ensures
            trees(patterns@) == self.expressions(),
    ;
}

/// A vector of patterns is the list that it holds
impl PatternList for Vec<Pattern> {
    open spec fn expressions(self) -> Seq<Expression> {
        trees(self@)
    }

    fn into_patterns(self) -> (patterns: Vec<Pattern>) {
        self
    }
}

/// Convert a tuple of patterns into a list of two
impl<T1, T2> PatternList for (T1, T2) where T1: IntoPattern, T2: IntoPattern {
    open spec fn expressions(self) -> Seq<Expression> {
        seq![self.0.expression(), self.1.expression()]
    }

    fn into_patterns(self) -> (patterns: Vec<Pattern>) {
        let mut patterns = Vec::new();
        patterns.push(self.0.into_pattern());
        patterns.push(self.1.into_pattern());
        assert(trees(patterns@) =~= self.expressions());
        patterns
    }
}

/// Convert a triple of patterns into a list of three
impl<T1, T2, T3> PatternList for (T1, T2, T3) where
    T1: IntoPattern,
    T2: IntoPattern,
    T3: IntoPattern,
 {
    open spec fn expressions(self) -> Seq<Expression> {
        seq![self.0.expression(), self.1.expression(), self.2.expression()]
    }

    fn into_patterns(self) -> (patterns: Vec<Pattern>) {
        let mut patterns = Vec::new();
        patterns.push(self.0.into_pattern());
        patterns.push(self.1.into_pattern());
        patterns.push(self.2.into_pattern());
        assert(trees(patterns@) =~= self.expressions());
        patterns
    }
}

impl Pattern {
    /// Append one of several patterns
    pub fn and_either<PL: PatternList>(self, branches: PL) -> (r: Self)
        ensures
            r@ == self@.followed_by(Expression::Or(branches.expressions())),
    {
        self.push(Pattern::Or(branches.into_patterns()))
    }

    /// Append a pattern
    pub fn and_then<T: IntoPattern>(self, exp: T) -> (r: Self)
        ensures
            r@ == self@.followed_by(exp.expression()),
    {
        self.push(exp.into_pattern())
    }

    /// Append an optional pattern
    pub fn and_maybe<T: IntoPattern>(self, exp: T) -> (r: Self)
        ensures
            r@ == self@.followed_by(
                Expression::Many { exp: Box::new(exp.expression()), low: 0, high: 1 },
            ),
    {
        self.push(Pattern::Many { exp: Box::new(exp.into_pattern()), low: 0, high: 1 })
    }

    /// Append a pattern zero or more times
    pub fn and_maybe_many<T: IntoPattern>(self, exp: T) -> (r: Self)
        ensures
            r@ == self@.followed_by(
                Expression::Many { exp: Box::new(exp.expression()), low: 0, high: 0 },
            ),
    {
        self.push(Pattern::Many { exp: Box::new(exp.into_pattern()), low: 0, high: 0 })
    }

    /// Append a pattern one or more times
    pub fn and_many<T: IntoPattern>(self, exp: T) -> (r: Self)
        ensures
            r@ == self@.followed_by(
                Expression::Many { exp: Box::new(exp.expression()), low: 1, high: 0 },
            ),
    {
        self.push(Pattern::Many { exp: Box::new(exp.into_pattern()), low: 1, high: 0 })
    }

    /// Repeat the pattern appended last from `low` to `high` times
    pub fn many(self, low: u32, high: u32) -> (r: Self)
        ensures
            r@ == self@.repeat_last(low as nat, high as nat),
    {
        match self {
            Pattern::Sequence(mut exps) => {
                if exps.len() > 0 {
                    let ghost before = trees(exps@);
                    let e = exps.pop().unwrap();
                    exps.push(Pattern::Many { exp: Box::new(e), low: low, high: high });
                    assert(trees(exps@) =~= before.drop_last().push(
                        Expression::Many {
                            exp: Box::new(before.last()),
                            low: low as nat,
                            high: high as nat,
                        },
                    ));
                    Pattern::Sequence(exps)
                } else {
                    Pattern::Many { exp: Box::new(Pattern::Sequence(exps)), low: low, high: high }
                }
            },
            other => Pattern::Many { exp: Box::new(other), low: low, high: high },
        }
    }

    /// Repeat the pattern appended last `n` times
    pub fn times(self, n: u32) -> (r: Self)
        ensures
            r@ == self@.repeat_last(n as nat, n as nat),
    {
        self.many(n, n)
    }

    /// Capture the pattern appended last under a name
    pub fn named<S: IntoName>(self, name: S) -> (r: Self)
        ensures
            r@ == self@.name_last(name.characters()),
    {
        match self {
            Pattern::Sequence(mut exps) => {
                if exps.len() > 0 {
                    let ghost before = trees(exps@);
                    let e = exps.pop().unwrap();
                    exps.push(Pattern::Named { exp: Box::new(e), name: name.into_name() });
                    assert(trees(exps@) =~= before.drop_last().push(
                        Expression::Named {
                            exp: Box::new(before.last()),
                            name: name.characters(),
                        },
                    ));
                    Pattern::Sequence(exps)
                } else {
                    Pattern::Named {
                        exp: Box::new(Pattern::Sequence(exps)),
                        name: name.into_name(),
                    }
                }
            },
            other => Pattern::Named { exp: Box::new(other), name: name.into_name() },
        }
    }

    /// Require the end of the input
    pub fn must_end(self) -> (r: Self)
        ensures
            r@ == self@.followed_by(Expression::InputEnd),
    {
        self.push(Pattern::InputEnd)
    }

    /// Put a pattern after this one, which becomes a sequence if it is
    /// none yet
    fn push(self, next: Pattern) -> (r: Self)
        ensures
            r@ == self@.followed_by(next@),
    {
        match self {
            Pattern::Sequence(mut exps) => {
                let ghost before = trees(exps@);
                exps.push(next);
                assert(trees(exps@) =~= before.push(next@));
                Pattern::Sequence(exps)
            },
            other => {
                let mut exps = Vec::new();
                exps.push(other);
                exps.push(next);
                assert(trees(exps@) =~= seq![other@, next@]);
                Pattern::Sequence(exps)
            },
        }
    }
}

/// Match the start of the input
pub fn at_start() -> (p: Pattern)
    ensures
        p@ == Expression::InputStart,
{
    Pattern::InputStart
}

/// Start with the given pattern
pub fn start_with<T: IntoPattern>(exp: T) -> (p: Pattern)
    ensures
        p@ == exp.expression(),
{
    exp.into_pattern()
}

/// Match the given text
pub fn text(literal: &str) -> (p: Pattern)
    ensures
        p@ == Expression::Text(literal@),
{
    Pattern::Text(literal.to_owned())
}

/// Match a digit
pub fn digit() -> (p: Pattern)
    ensures
        p@ == Expression::Digit,
{
    Pattern::Digit
}

/// Match a letter
pub fn letter() -> (p: Pattern)
    ensures
        p@ == Expression::Letter,
{
    Pattern::Letter
}

/// Match any character
pub fn anything() -> (p: Pattern)
    ensures
        p@ == Expression::Any,
{
    Pattern::Any
}

/// Match a word character
pub fn word_character() -> (p: Pattern)
    ensures
        p@ == Expression::WordCharacter,
{
    Pattern::WordCharacter
}

/// Match anything but the given digit, letter or word character
pub fn any_except<T: IntoPattern>(exp: T) -> (p: Pattern)
    ensures
        p@ == Expression::Not(Box::new(exp.expression())),
{
    Pattern::Not(Box::new(exp.into_pattern()))
}

/// Match one of the given patterns
pub fn either<PL: PatternList>(branches: PL) -> (p: Pattern)
    ensures
        p@ == Expression::Or(branches.expressions()),
{
    Pattern::Or(branches.into_patterns())
}

} // verus!
