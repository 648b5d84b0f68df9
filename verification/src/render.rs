//! Rendering a pattern tree as regular-expression source.

use crate::builder::{trees, Expression, Pattern};
use crate::strings::{concat, contents, decimal, decimal_string, join, joined};
use vstd::prelude::*;

verus! {

/// The rendering of `item` as it stands in a sequence of `count` elements:
/// an alternation is put in parentheses unless it stands alone.
pub open spec fn sequenced(item: Expression, rendering: Seq<char>, count: nat) -> Seq<char> {
    if item is Or && count > 1 {
        "("@ + rendering + ")"@
    } else {
        rendering
    }
}

/// A rendering as the operand of a quantifier. It is put in parentheses
/// when it is longer than two characters, or is two characters that do
/// not start with a backslash.
pub open spec fn operand(rendering: Seq<char>) -> Seq<char> {
    if rendering.len() > 2 || (rendering.len() == 2 && rendering[0] != '\\') {
        "("@ + rendering + ")"@
    } else {
        rendering
    }
}

/// The quantifier for a repetition from `low` to `high` times, where a
/// `high` of zero stands for no upper bound.
pub open spec fn quantifier(low: nat, high: nat) -> Seq<char> {
    if low == 0 && high == 1 {
        "?"@
    } else if low == 0 && high == 0 {
        "*"@
    } else if low == 1 && high == 0 {
        "+"@
    } else if low == high {
        "{"@ + decimal(low) + "}"@
    } else {
        "{"@ + decimal(low) + ","@ + decimal(high) + "}"@
    }
}

/// The rendering of the negation of `class`; empty where `class` is not
/// one of the three classes that have a negated form.
pub open spec fn negated(class: Expression) -> Seq<char> {
    match class {
        Expression::Digit => "\\D"@,
        Expression::Letter => "\\PN"@,
        Expression::WordCharacter => "\\W"@,
        _ => Seq::empty(),
    }
}

/// The rendering of each expression of a list.
pub open spec fn regexes(items: Seq<Expression>) -> Seq<Seq<char>>
    decreases items,
{
    Seq::new(
        items.len(),
        |i: int|
            if 0 <= i < items.len() {
                items[i].regex()
            } else {
                Seq::empty()
            },
    )
}

/// The renderings of the elements of a sequence as they stand in it.
pub open spec fn sequence_parts(items: Seq<Expression>, renderings: Seq<Seq<char>>) -> Seq<
    Seq<char>,
> {
    Seq::new(items.len(), |i: int| sequenced(items[i], renderings[i], items.len()))
}

impl Expression {
    /// The regular-expression source of this tree.
    pub open spec fn regex(self) -> Seq<char>
        decreases self,
    {
        match self {
            Expression::Sequence(items) => sequence_parts(items, regexes(items)).flatten(),
            Expression::Text(text) => text,
            Expression::Raw(text) => text,
            Expression::Or(items) => joined(regexes(items), "|"@),
            Expression::Many { exp, low, high } => operand(exp.regex()) + quantifier(low, high),
            Expression::Digit => "\\d"@,
            Expression::Letter => "\\pN"@,
            Expression::WordCharacter => "\\w"@,
            Expression::InputStart => "^"@,
            Expression::InputEnd => "$"@,
            Expression::Not(exp) => negated(*exp),
            Expression::Any => "."@,
            Expression::Named { exp, name } => "(?P<"@ + name + ">"@ + exp.regex() + ")"@,
        }
    }
}

/// Puts `rendering` between parentheses.
fn parenthesized(rendering: String) -> (s: String)
    ensures
        s@ == "("@ + rendering@ + ")"@,
{
    let mut s = String::from_str("(");
    s.append(rendering.as_str());
    s.append(")");
    s
}

/// Renders a quantifier.
fn quantifier_string(low: u32, high: u32) -> (s: String)
    ensures
        s@ == quantifier(low as nat, high as nat),
{
    if low == 0 && high == 1 {
        String::from_str("?")
    } else if low == 0 && high == 0 {
        String::from_str("*")
    } else if low == 1 && high == 0 {
        String::from_str("+")
    } else if low == high {
        let mut s = String::from_str("{");
        s.append(decimal_string(low).as_str());
        s.append("}");
        s
    } else {
        let mut s = String::from_str("{");
        s.append(decimal_string(low).as_str());
        s.append(",");
        s.append(decimal_string(high).as_str());
        s.append("}");
        s
    }
}

/// Renders each pattern of a list.
fn render_each(items: &Vec<Pattern>) -> (parts: Vec<String>)
    ensures
        contents(parts@) == regexes(trees(items@)),
    decreases items,
{
    let mut parts: Vec<String> = Vec::new();
    let mut i: usize = 0;
    while i < items.len()
        invariant
            i <= items.len(),
            parts@.len() == i,
            forall|j: int| 0 <= j < i ==> (#[trigger] parts@[j])@ == items@[j]@.regex(),
        decreases items.len() - i,
    {
        let part = items[i].to_string();
        parts.push(part);
        i += 1;
    }
    assert(contents(parts@) =~= regexes(trees(items@)));
    parts
}

/// Renders each element of a sequence as it stands in it.
fn render_sequence(items: &Vec<Pattern>) -> (parts: Vec<String>)
    ensures
        contents(parts@) == sequence_parts(trees(items@), regexes(trees(items@))),
    decreases items,
{
    let mut parts: Vec<String> = Vec::new();
    let mut i: usize = 0;
    while i < items.len()
        invariant
            i <= items.len(),
            parts@.len() == i,
            forall|j: int|
                0 <= j < i ==> (#[trigger] parts@[j])@ == sequenced(
                    items@[j]@,
                    items@[j]@.regex(),
                    items@.len(),
                ),
        decreases items.len() - i,
    {
        let rendering = items[i].to_string();
        let part = match &items[i] {
            Pattern::Or(..) => if items.len() > 1 {
                parenthesized(rendering)
            } else {
                rendering
            },
            _ => rendering,
        };
        parts.push(part);
        i += 1;
    }
    assert(contents(parts@) =~= sequence_parts(trees(items@), regexes(trees(items@))));
    parts
}

impl Pattern {
    /// Write this pattern as a regular expression
    pub fn to_string(&self) -> (s: String)
        ensures
            s@ == self@.regex(),
        decreases self,
    {
        match self {
            Pattern::Sequence(items) => concat(&render_sequence(items)),
            Pattern::Text(text) => text.clone(),
            Pattern::Raw(text) => text.clone(),
            Pattern::Or(items) => join(&render_each(items), "|"),
            Pattern::Many { exp, low, high } => {
                let inner = exp.to_string();
                let mut s = if inner.as_str().unicode_len() > 2 || (inner.as_str().unicode_len() == 2
                    && inner.as_str().get_char(0) != '\\') {
                    parenthesized(inner)
                } else {
                    inner
                };
                s.append(quantifier_string(*low, *high).as_str());
                s
            },
            Pattern::Digit => String::from_str("\\d"),
            Pattern::Letter => String::from_str("\\pN"),
            Pattern::WordCharacter => String::from_str("\\w"),
            Pattern::InputStart => String::from_str("^"),
            Pattern::InputEnd => String::from_str("$"),
            Pattern::Not(exp) => {
                proof {
                    reveal_with_fuel(Pattern::tree, 2);
                }
                match **exp {
                    Pattern::Digit => String::from_str("\\D"),
                    Pattern::Letter => String::from_str("\\PN"),
                    Pattern::WordCharacter => String::from_str("\\W"),
                    _ => String::new(),
                }
            },
            Pattern::Any => String::from_str("."),
            Pattern::Named { exp, name } => {
                let mut s = String::from_str("(?P<");
                s.append(name.as_str());
                s.append(">");
                s.append(exp.to_string().as_str());
                s.append(")");
                s
            },
        }
    }
}

} // verus!
