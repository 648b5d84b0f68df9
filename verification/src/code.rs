//! Rendering a pattern tree as the builder source that constructs it.

use crate::builder::{trees, Expression, Pattern};
use crate::strings::{concat, contents, decimal, decimal_string, join, joined};
use vstd::prelude::*;

verus! {

/// Writing a value as the source that constructs it
pub trait ToCode {
    /// The source text that `to_code` writes.
    spec fn source(&self) -> Seq<char>;

    fn to_code(&self) -> (code: String)
        ensures
            code@ == self.source(),
    ;
}

/// Where a fragment of source stands
#[derive(Clone, Copy)]
pub struct CodeState {
    /// Whether it is the very first leaf of the whole
    pub root: bool,
    /// Whether it opens a chain, rather than continues one
    pub first: bool,
}

impl CodeState {
    /// The state of [`CodeState::root`].
    pub open spec fn spec_root() -> Self {
        CodeState { root: true, first: true }
    }

    /// The state of [`CodeState::first`].
    pub open spec fn spec_first() -> Self {
        CodeState { root: false, first: true }
    }

    /// The state of [`CodeState::next`].
    pub open spec fn spec_next() -> Self {
        CodeState { root: false, first: false }
    }

    /// The first leaf of the whole
    #[verifier::when_used_as_spec(spec_root)]
    pub fn root() -> (state: Self)
        ensures
            state == Self::spec_root(),
    {
        CodeState { root: true, first: true }
    }

    /// The start of a chain below the root
    #[verifier::when_used_as_spec(spec_first)]
    pub fn first() -> (state: Self)
        ensures
            state == Self::spec_first(),
    {
        CodeState { root: false, first: true }
    }

    /// The continuation of a chain
    #[verifier::when_used_as_spec(spec_next)]
    pub fn next() -> (state: Self)
        ensures
            state == Self::spec_next(),
    {
        CodeState { root: false, first: false }
    }
}

/// Whether `item` reads as the start of a chain by itself, so that a
/// sequence which begins with it needs no `start_with`.
pub open spec fn starts_chain(item: Expression) -> bool {
    item is InputStart || item is Not || item is Digit || item is Letter || item is WordCharacter
}

/// The source of the first element of a sequence, given its own source.
pub open spec fn opened(item: Expression, code: Seq<char>) -> Seq<char> {
    if starts_chain(item) {
        code
    } else {
        "start_with("@ + code + ")"@
    }
}

/// The source of a repetition that opens a chain, given its operand's.
pub open spec fn repeated(code: Seq<char>, low: nat, high: nat) -> Seq<char> {
    if low == high {
        code + ".times("@ + decimal(low) + ")"@
    } else {
        code + ".many("@ + decimal(low) + ", "@ + decimal(high) + ")"@
    }
}

/// The source of a repetition that continues a chain, given its operand's.
pub open spec fn and_repeated(code: Seq<char>, low: nat, high: nat) -> Seq<char> {
    if low == 0 && high == 1 {
        ".and_maybe("@ + code + ")"@
    } else if low == 0 && high == 0 {
        ".and_maybe_many("@ + code + ")"@
    } else if low == 1 && high == 0 {
        ".and_many("@ + code + ")"@
    } else if low == high {
        ".and_then("@ + code + ").times("@ + decimal(low) + ")"@
    } else {
        ".and_then("@ + code + ").many("@ + decimal(low) + ","@ + decimal(high) + ")"@
    }
}

/// The source of each expression of a list, each as the start of a chain
/// that is not the root.
pub open spec fn codes(items: Seq<Expression>) -> Seq<Seq<char>>
    decreases items, 0nat,
{
    Seq::new(
        items.len(),
        |i: int|
            if 0 <= i < items.len() {
                items[i].code(CodeState::first())
            } else {
                Seq::empty()
            },
    )
}

/// The source of each element of a sequence: the first one opens the
/// chain, every other one continues it.
pub open spec fn links(items: Seq<Expression>) -> Seq<Seq<char>>
    decreases items, 0nat,
{
    Seq::new(
        items.len(),
        |i: int|
            if i == 0 && 0 < items.len() {
                opened(items[0], items[0].code(CodeState::first()))
            } else if 0 < i < items.len() {
                items[i].code(CodeState::next())
            } else {
                Seq::empty()
            },
    )
}

impl Expression {
    /// The builder source of this tree, where it stands as `state` says.
    pub open spec fn code(self, state: CodeState) -> Seq<char>
        decreases self, (if state.first { 0nat } else { 1nat }),
    {
        if state.first {
            match self {
                Expression::Text(text) => if state.root {
                    "text(\""@ + text + "\")"@
                } else {
                    "\""@ + text + "\""@
                },
                Expression::Digit => "digit()"@,
                Expression::Any => "anything()"@,
                Expression::Letter => "letter()"@,
                Expression::WordCharacter => "word_character()"@,
                Expression::Or(items) => "either(("@ + joined(codes(items), ", "@) + "))"@,
                Expression::Not(exp) => "any_except("@ + exp.code(CodeState::first()) + ")"@,
                Expression::Many { exp, low, high } => repeated(
                    exp.code(CodeState::first()),
                    low,
                    high,
                ),
                Expression::Named { exp, name } => exp.code(CodeState::first()) + ".named(\""@
                    + name + "\")"@,
                Expression::Sequence(items) => links(items).flatten(),
                Expression::InputStart => "at_start()"@,
                Expression::InputEnd => Seq::empty(),
                Expression::Raw(_) => Seq::empty(),
            }
        } else {
            match self {
                Expression::Or(items) => ".and_either(("@ + joined(codes(items), ", "@) + "))"@,
                Expression::Many { exp, low, high } => and_repeated(
                    exp.code(CodeState::first()),
                    low,
                    high,
                ),
                Expression::InputEnd => ".must_end()"@,
                Expression::Named { exp, name } => ".and_then("@ + exp.code(CodeState::first())
                    + ".named(\""@ + name + "\"))"@,
                _ => ".and_then("@ + self.code(CodeState::first()) + ")"@,
            }
        }
    }
}

/// A pattern is written as the chain of builder calls that constructs it
impl ToCode for Pattern {
    open spec fn source(&self) -> Seq<char> {
        self@.code(CodeState::root())
    }

    fn to_code(&self) -> (code: String) {
        self.to_inner_code(CodeState::root())
    }
}

/// The source of a repetition at the start of a chain.
fn repeated_code(code: String, low: u32, high: u32) -> (s: String)
    ensures
        s@ == repeated(code@, low as nat, high as nat),
{
    let mut s = code;
    if low == high {
        s.append(".times(");
        s.append(decimal_string(low).as_str());
        s.append(")");
    } else {
        s.append(".many(");
        s.append(decimal_string(low).as_str());
        s.append(", ");
        s.append(decimal_string(high).as_str());
        s.append(")");
    }
    s
}

/// The source of a repetition that continues a chain.
fn and_repeated_code(code: String, low: u32, high: u32) -> (s: String)
    ensures
        s@ == and_repeated(code@, low as nat, high as nat),
{
    if low == 0 && high == 1 {
        let mut s = String::from_str(".and_maybe(");
        s.append(code.as_str());
        s.append(")");
        s
    } else if low == 0 && high == 0 {
        let mut s = String::from_str(".and_maybe_many(");
        s.append(code.as_str());
        s.append(")");
        s
    } else if low == 1 && high == 0 {
        let mut s = String::from_str(".and_many(");
        s.append(code.as_str());
        s.append(")");
        s
    } else if low == high {
        let mut s = String::from_str(".and_then(");
        s.append(code.as_str());
        s.append(").times(");
        s.append(decimal_string(low).as_str());
        s.append(")");
        s
    } else {
        let mut s = String::from_str(".and_then(");
        s.append(code.as_str());
        s.append(").many(");
        s.append(decimal_string(low).as_str());
        s.append(",");
        s.append(decimal_string(high).as_str());
        s.append(")");
        s
    }
}

/// The source of each pattern of a list, each as the start of a chain.
fn code_each(items: &Vec<Pattern>) -> (parts: Vec<String>)
    ensures
        contents(parts@) == codes(trees(items@)),
    decreases items, 0nat,
{
    let mut parts: Vec<String> = Vec::new();
    let mut i: usize = 0;
    while i < items.len()
        invariant
            i <= items.len(),
            parts@.len() == i,
            forall|j: int|
                0 <= j < i ==> (#[trigger] parts@[j])@ == items@[j]@.code(CodeState::first()),
        decreases items.len() - i,
    {
        let part = items[i].to_inner_code(CodeState::first());
        parts.push(part);
        i += 1;
    }
    assert(contents(parts@) =~= codes(trees(items@)));
    parts
}

/// The source of each element of a sequence.
fn link_each(items: &Vec<Pattern>) -> (parts: Vec<String>)
    ensures
        contents(parts@) == links(trees(items@)),
    decreases items, 0nat,
{
    let mut parts: Vec<String> = Vec::new();
    let mut i: usize = 0;
    while i < items.len()
        invariant
            i <= items.len(),
            parts@.len() == i,
            forall|j: int| 0 <= j < i ==> (#[trigger] parts@[j])@ == links(trees(items@))[j],
        decreases items.len() - i,
    {
        let part = if i == 0 {
            let code = items[i].to_inner_code(CodeState::first());
            match &items[i] {
                Pattern::InputStart => code,
                Pattern::Not(..) => code,
                Pattern::Digit => code,
                Pattern::Letter => code,
                Pattern::WordCharacter => code,
                _ => {
                    let mut s = String::from_str("start_with(");
                    s.append(code.as_str());
                    s.append(")");
                    s
                },
            }
        } else {
            items[i].to_inner_code(CodeState::next())
        };
        parts.push(part);
        i += 1;
    }
    assert(contents(parts@) =~= links(trees(items@)));
    parts
}

impl Pattern {
    /// Write this pattern as source where it stands as `state` says
    pub fn to_inner_code(&self, state: CodeState) -> (s: String)
        ensures
            s@ == self@.code(state),
        decreases self, (if state.first { 0nat } else { 1nat }),
    {
        if state.first {
            match self {
                Pattern::Text(txt) => {
                    if state.root {
                        let mut s = String::from_str("text(\"");
                        s.append(txt.as_str());
                        s.append("\")");
                        s
                    } else {
                        let mut s = String::from_str("\"");
                        s.append(txt.as_str());
                        s.append("\"");
                        s
                    }
                },
                Pattern::Digit => String::from_str("digit()"),
                Pattern::Any => String::from_str("anything()"),
                Pattern::Letter => String::from_str("letter()"),
                Pattern::WordCharacter => String::from_str("word_character()"),
                Pattern::Or(exps) => {
                    let mut s = String::from_str("either((");
                    s.append(join(&code_each(exps), ", ").as_str());
                    s.append("))");
                    s
                },
                Pattern::Not(exp) => {
                    let mut s = String::from_str("any_except(");
                    s.append(exp.to_inner_code(CodeState::first()).as_str());
                    s.append(")");
                    s
                },
                Pattern::Many { exp, low, high } => repeated_code(
                    exp.to_inner_code(CodeState::first()),
                    *low,
                    *high,
                ),
                Pattern::Named { exp, name } => {
                    let mut s = exp.to_inner_code(CodeState::first());
                    s.append(".named(\"");
                    s.append(name.as_str());
                    s.append("\")");
                    s
                },
                Pattern::Sequence(exps) => concat(&link_each(exps)),
                Pattern::InputStart => String::from_str("at_start()"),
                _ => String::new(),
            }
        } else {
            match self {
                Pattern::Or(exps) => {
                    let mut s = String::from_str(".and_either((");
                    s.append(join(&code_each(exps), ", ").as_str());
                    s.append("))");
                    s
                },
                Pattern::Many { exp, low, high } => and_repeated_code(
                    exp.to_inner_code(CodeState::first()),
                    *low,
                    *high,
                ),
                Pattern::InputEnd => String::from_str(".must_end()"),
                Pattern::Named { exp, name } => {
                    let mut s = String::from_str(".and_then(");
                    s.append(exp.to_inner_code(CodeState::first()).as_str());
                    s.append(".named(\"");
                    s.append(name.as_str());
                    s.append("\"))");
                    s
                },
                _ => {
                    let mut s = String::from_str(".and_then(");
                    s.append(self.to_inner_code(CodeState::first()).as_str());
                    s.append(")");
                    s
                },
            }
        }
    }
}

} // verus!
