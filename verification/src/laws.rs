//! What holds of every tree: the laws of rendering and of explaining.

use crate::builder::Expression;
use crate::code::CodeState;
use crate::render::{negated, operand, quantifier, regexes, sequence_parts, sequenced};
use crate::parser::{absorb, explained_each, merged, simplified};
use crate::syntax::SyntaxTree;
use crate::strings::{decimal, digit_char};
use vstd::prelude::*;

verus! {

/// The number that a sequence of decimal digits denotes.
pub open spec fn denoted(digits: Seq<char>) -> nat
    decreases digits.len(),
{
    if digits.len() == 0 {
        0
    } else {
        10 * denoted(digits.drop_last()) + digit_value(digits.last())
    }
}

/// The value of a decimal digit.
pub open spec fn digit_value(c: char) -> nat {
    if c == '1' {
        1
    } else if c == '2' {
        2
    } else if c == '3' {
        3
    } else if c == '4' {
        4
    } else if c == '5' {
        5
    } else if c == '6' {
        6
    } else if c == '7' {
        7
    } else if c == '8' {
        8
    } else if c == '9' {
        9
    } else {
        0
    }
}

/// A decimal numeral denotes the number that it was written for, holds
/// decimal digits only, and starts with a zero only where it is `0`.
pub proof fn decimal_denotes(n: nat)
    ensures
        denoted(decimal(n)) == n,
        decimal(n).len() >= 1,
        forall|i: int|
            0 <= i < decimal(n).len() ==> digit_char(digit_value(#[trigger] decimal(n)[i]))
                == decimal(n)[i],
        decimal(n)[0] == '0' ==> n == 0,
    decreases n,
{
    let digits = decimal(n);
    assert(digit_value(digit_char(n % 10)) == n % 10);
    if n >= 10 {
        decimal_denotes(n / 10);
        assert(digits.drop_last() =~= decimal(n / 10));
        assert(digits.last() == digit_char(n % 10));
    } else {
        assert(digits.drop_last() =~= Seq::<char>::empty());
        assert(digits.last() == digit_char(n));
        assert(denoted(digits.drop_last()) == 0);
    }
}

/// A repetition renders as its operand followed by the quantifier of its
/// bounds: `?` for zero or one, `*` for zero or more, `+` for one or
/// more, `{n}` for other equal bounds, and `{m,n}` for all that remain.
pub proof fn repetition_quantifier(exp: Expression, low: nat, high: nat)
    ensures
        (Expression::Many { exp: Box::new(exp), low, high }).regex() == operand(exp.regex())
            + quantifier(low, high),
        low == 0 && high == 1 ==> quantifier(low, high) == seq!['?'],
        low == 0 && high == 0 ==> quantifier(low, high) == seq!['*'],
        low == 1 && high == 0 ==> quantifier(low, high) == seq!['+'],
        low == high && low != 0 ==> quantifier(low, high) == seq!['{'] + decimal(low) + seq!['}'],
        low != high && !(low == 0 && high == 1) && !(low == 1 && high == 0) ==> quantifier(
            low,
            high,
        ) == seq!['{'] + decimal(low) + seq![','] + decimal(high) + seq!['}'],
{
    reveal_strlit("?");
    reveal_strlit("*");
    reveal_strlit("+");
    reveal_strlit("{");
    reveal_strlit(",");
    reveal_strlit("}");
    assert("?"@ =~= seq!['?']);
    assert("*"@ =~= seq!['*']);
    assert("+"@ =~= seq!['+']);
    assert("{"@ =~= seq!['{']);
    assert(","@ =~= seq![',']);
    assert("}"@ =~= seq!['}']);
}

/// The operand of a quantifier stands bare where its rendering is at
/// most two characters long and starts with a backslash, as an escape
/// does; so does any rendering of one character or none.
pub proof fn short_operand_stands_bare(exp: Expression, low: nat, high: nat)
    requires
        exp.regex().len() <= 2,
        exp.regex().len() == 2 ==> exp.regex()[0] == '\\',
    ensures
        (Expression::Many { exp: Box::new(exp), low, high }).regex() == exp.regex() + quantifier(
            low,
            high,
        ),
{
}

/// A literal of several characters that is repeated is put in
/// parentheses. A literal of two characters that starts with a backslash
/// is the one exception: it reads as an escape.
pub proof fn long_literal_is_parenthesized(text: Seq<char>, low: nat, high: nat)
    requires
        text.len() >= 2,
        text.len() == 2 ==> text[0] != '\\',
    ensures
        (Expression::Many { exp: Box::new(Expression::Text(text)), low, high }).regex() == seq![
            '(',
        ] + text + seq![')'] + quantifier(low, high),
{
    reveal_strlit("(");
    reveal_strlit(")");
    assert("("@ =~= seq!['(']);
    assert(")"@ =~= seq![')']);
    assert(Expression::Text(text).regex() == text);
}

/// The negation of a digit, a letter or a word character renders as the
/// upper-case form of its escape; the negation of anything else renders
/// as nothing.
pub proof fn negation_renders_upper_case(class: Expression)
    ensures
        Expression::Not(Box::new(class)).regex() == negated(class),
        class is Digit ==> negated(class) == seq!['\\', 'D'],
        class is Letter ==> negated(class) == seq!['\\', 'P', 'N'],
        class is WordCharacter ==> negated(class) == seq!['\\', 'W'],
        !(class is Digit || class is Letter || class is WordCharacter) ==> negated(class).len()
            == 0,
{
    reveal_strlit("\\D");
    reveal_strlit("\\PN");
    reveal_strlit("\\W");
    assert("\\D"@ =~= seq!['\\', 'D']);
    assert("\\PN"@ =~= seq!['\\', 'P', 'N']);
    assert("\\W"@ =~= seq!['\\', 'W']);
}

/// Only a text is written differently at the root than where it opens a
/// chain below it.
pub proof fn root_matters_to_text_only(exp: Expression)
    requires
        !(exp is Text),
    ensures
        exp.code(CodeState::root()) == exp.code(CodeState::first()),
{
}

/// Whether no two neighbours in a list are both texts.
pub open spec fn texts_apart(items: Seq<Expression>) -> bool {
    forall|i: int| 0 <= i < items.len() - 1 ==> !(#[trigger] items[i] is Text && items[i + 1] is Text)
}

/// The text expressions of a list of character sequences.
pub open spec fn texts(runs: Seq<Seq<char>>) -> Seq<Expression> {
    Seq::new(runs.len(), |i: int| Expression::Text(runs[i]))
}

/// The characters of a list of literals, in order.
pub open spec fn literal_chars(nodes: Seq<SyntaxTree>) -> Seq<char> {
    Seq::new(nodes.len(), |i: int| nodes[i]->Literal_0)
}

/// Merging leaves no two texts side by side, and adds no element.
pub proof fn merged_texts_apart(items: Seq<Expression>)
    ensures
        texts_apart(merged(items)),
        merged(items).len() <= items.len(),
        items.len() > 0 ==> merged(items).len() > 0,
    decreases items.len(),
{
    if items.len() > 0 {
        merged_texts_apart(items.drop_last());
    }
}

/// A list in which no two texts stand side by side is merged already.
pub proof fn merged_keeps_texts_apart(items: Seq<Expression>)
    requires
        texts_apart(items),
    ensures
        merged(items) == items,
    decreases items.len(),
{
    if items.len() > 0 {
        let init = items.drop_last();
        assert forall|i: int| 0 <= i < init.len() - 1 implies !(#[trigger] init[i] is Text && init[i
            + 1] is Text) by {
            assert(init[i] == items[i]);
            assert(init[i + 1] == items[i + 1]);
        }
        merged_keeps_texts_apart(init);
        if init.len() > 0 {
            assert(init.last() == items[items.len() - 2]);
        }
        assert(init.push(items.last()) =~= items);
    }
}

/// Merging is idempotent: to merge a second time changes nothing.
pub proof fn merge_is_idempotent(items: Seq<Expression>)
    ensures
        merged(merged(items)) == merged(items),
{
    merged_texts_apart(items);
    merged_keeps_texts_apart(merged(items));
}

/// A run of texts merges into the one text that holds their characters
/// in order.
pub proof fn text_run_merges(runs: Seq<Seq<char>>)
    requires
        runs.len() > 0,
    ensures
        merged(texts(runs)) == seq![Expression::Text(runs.flatten())],
        simplified(texts(runs)) == Expression::Text(runs.flatten()),
    decreases runs.len(),
{
    let items = texts(runs);
    assert(items.drop_last() =~= texts(runs.drop_last()));
    assert(runs =~= runs.drop_last().push(runs.last()));
    runs.drop_last().lemma_flatten_push(runs.last());
    if runs.len() == 1 {
        assert(runs.drop_last().flatten() =~= Seq::<char>::empty());
        assert(merged(items.drop_last()) =~= Seq::<Expression>::empty());
        assert(merged(items) =~= seq![Expression::Text(runs.flatten())]);
    } else {
        text_run_merges(runs.drop_last());
        assert(merged(items) =~= seq![Expression::Text(runs.flatten())]);
    }
}

/// The character of each literal of a list, as a text of its own.
spec fn letters(nodes: Seq<SyntaxTree>) -> Seq<Seq<char>> {
    Seq::new(nodes.len(), |i: int| seq![nodes[i]->Literal_0])
}

/// The concatenation of the letters of a list is its characters.
proof fn letters_flatten(nodes: Seq<SyntaxTree>)
    ensures
        letters(nodes).flatten() == literal_chars(nodes),
    decreases nodes.len(),
{
    if nodes.len() == 0 {
        assert(letters(nodes).flatten() =~= literal_chars(nodes));
    } else {
        let init = nodes.drop_last();
        letters_flatten(init);
        assert(letters(nodes) =~= letters(init).push(seq![nodes.last()->Literal_0]));
        letters(init).lemma_flatten_push(seq![nodes.last()->Literal_0]);
        assert(literal_chars(init) + seq![nodes.last()->Literal_0] =~= literal_chars(nodes));
    }
}

/// Explaining a concatenation of literal characters gives one text that
/// holds these characters in order, not one text for each.
pub proof fn literal_run_is_one_text(nodes: Seq<SyntaxTree>)
    requires
        nodes.len() > 0,
        forall|i: int| 0 <= i < nodes.len() ==> nodes[i] is Literal,
    ensures
        SyntaxTree::Concat(nodes).explained() == Expression::Text(literal_chars(nodes)),
{
    assert forall|i: int| 0 <= i < nodes.len() implies #[trigger] explained_each(nodes)[i] == texts(
        letters(nodes),
    )[i] by {
        assert(nodes[i].explained() == Expression::Text(seq![nodes[i]->Literal_0]));
    }
    assert(explained_each(nodes) =~= texts(letters(nodes)));
    text_run_merges(letters(nodes));
    letters_flatten(nodes);
}

/// The renderings of the elements of a list as they stand in a sequence
/// that does, or does not, put its alternations in parentheses.
spec fn pieces(items: Seq<Expression>, grouping: bool) -> Seq<Seq<char>> {
    Seq::new(
        items.len(),
        |i: int| sequenced(items[i], items[i].regex(), if grouping { 2 } else { 1 }),
    )
}

/// A sequence renders as its pieces in a row.
proof fn sequence_renders_pieces(items: Seq<Expression>)
    ensures
        Expression::Sequence(items).regex() == pieces(items, items.len() > 1).flatten(),
{
    assert(sequence_parts(items, regexes(items)) =~= pieces(items, items.len() > 1));
}

/// Merging does not change what the pieces of a list hold in a row.
proof fn merged_pieces(items: Seq<Expression>, grouping: bool)
    ensures
        pieces(merged(items), grouping).flatten() == pieces(items, grouping).flatten(),
    decreases items.len(),
{
    if items.len() > 0 {
        let init = items.drop_last();
        let last = items.last();
        let list = merged(init);
        let piece = sequenced(last, last.regex(), if grouping { 2 } else { 1 });
        merged_pieces(init, grouping);
        assert(pieces(items, grouping) =~= pieces(init, grouping).push(piece));
        pieces(init, grouping).lemma_flatten_push(piece);
        if list.len() > 0 && list.last() is Text && last is Text {
            let head = list.drop_last();
            let run = list.last()->Text_0;
            let both = Expression::Text(run + last->Text_0);
            assert(list.last().regex() == run);
            assert(both.regex() == run + last->Text_0);
            assert(pieces(list, grouping) =~= pieces(head, grouping).push(run));
            assert(pieces(head.push(both), grouping) =~= pieces(head, grouping).push(
                run + last->Text_0,
            ));
            pieces(head, grouping).lemma_flatten_push(run);
            pieces(head, grouping).lemma_flatten_push(run + last->Text_0);
            assert(pieces(head, grouping).flatten() + (run + last->Text_0) =~= pieces(
                head,
                grouping,
            ).flatten() + run + last->Text_0);
        } else {
            assert(pieces(list.push(last), grouping) =~= pieces(list, grouping).push(piece));
            pieces(list, grouping).lemma_flatten_push(piece);
        }
    } else {
        assert(pieces(merged(items), grouping) =~= pieces(items, grouping));
    }
}

/// Where several elements merge into one, each of them is a text.
proof fn merged_into_one(items: Seq<Expression>)
    requires
        merged(items).len() == 1,
    ensures
        items.len() > 1 ==> merged(items)[0] is Text,
    decreases items.len(),
{
    if items.len() > 1 {
        let init = items.drop_last();
        merged_texts_apart(init);
        if merged(init).len() == 1 {
            merged_into_one(init);
        }
    }
}

/// To simplify a list does not change its rendering: what it simplifies
/// to renders as the sequence of its elements does.
pub proof fn simplified_renders_alike(items: Seq<Expression>)
    ensures
        simplified(items).regex() == Expression::Sequence(items).regex(),
{
    let list = merged(items);
    merged_texts_apart(items);
    sequence_renders_pieces(items);
    sequence_renders_pieces(list);
    merged_pieces(items, items.len() > 1);
    if list.len() == 1 {
        merged_into_one(items);
        assert(pieces(list, false) =~= pieces(list, items.len() > 1));
        assert(pieces(list, false) =~= seq![list[0].regex()]);
        seq![list[0].regex()].lemma_flatten_one_element();
    } else {
        assert((list.len() > 1) == (items.len() > 1));
    }
}

/// Whether every expression of a list is well formed.
pub open spec fn all_well_formed(items: Seq<Expression>) -> bool {
    forall|i: int| 0 <= i < items.len() ==> (#[trigger] items[i]).well_formed()
}

/// To append a well-formed expression to a well-formed one gives a
/// well-formed one.
pub proof fn appending_keeps_well_formed(exp: Expression, next: Expression)
    requires
        exp.well_formed(),
        next.well_formed(),
    ensures
        exp.followed_by(next).well_formed(),
{
}

/// The leaves that a chain starts from are well formed, and so is every
/// text and every negation of a digit, a letter or a word character.
pub proof fn leaves_are_well_formed(text: Seq<char>)
    ensures
        Expression::InputStart.well_formed(),
        Expression::InputEnd.well_formed(),
        Expression::Digit.well_formed(),
        Expression::Letter.well_formed(),
        Expression::WordCharacter.well_formed(),
        Expression::Any.well_formed(),
        Expression::Text(text).well_formed(),
        Expression::Not(Box::new(Expression::Digit)).well_formed(),
        Expression::Not(Box::new(Expression::Letter)).well_formed(),
        Expression::Not(Box::new(Expression::WordCharacter)).well_formed(),
{
}

/// A sequence is well formed exactly if each of its elements is, and an
/// alternation exactly if each of its branches is.
pub proof fn lists_well_formed(items: Seq<Expression>)
    ensures
        Expression::Sequence(items).well_formed() <==> all_well_formed(items),
        Expression::Or(items).well_formed() <==> all_well_formed(items),
{
    let list = Expression::Sequence(items);
    if list.well_formed() {
        assert forall|i: int| 0 <= i < items.len() implies (#[trigger] items[i]).well_formed() by {
            assert(list->Sequence_0[i].well_formed());
        }
    }
    let branches = Expression::Or(items);
    if branches.well_formed() {
        assert forall|i: int| 0 <= i < items.len() implies (#[trigger] items[i]).well_formed() by {
            assert(branches->Or_0[i].well_formed());
        }
    }
}

/// To repeat the last element of a well-formed expression, with bounds
/// in order, gives a well-formed one.
pub proof fn repeating_keeps_well_formed(exp: Expression, low: nat, high: nat)
    requires
        exp.well_formed(),
        high == 0 || low <= high,
    ensures
        exp.repeat_last(low, high).well_formed(),
{
    if let Expression::Sequence(items) = exp {
        if items.len() > 0 {
            let wrapped = Expression::Many { exp: Box::new(items.last()), low, high };
            let next = items.drop_last().push(wrapped);
            assert(items.last().well_formed());
            assert(wrapped.well_formed());
            assert forall|i: int| 0 <= i < next.len() implies (#[trigger] next[i]).well_formed() by {
                if i < next.len() - 1 {
                    assert(next[i] == items[i]);
                }
            }
            lists_well_formed(next);
        }
    }
}

/// To name the last element of a well-formed expression gives a
/// well-formed one.
pub proof fn naming_keeps_well_formed(exp: Expression, name: Seq<char>)
    requires
        exp.well_formed(),
    ensures
        exp.name_last(name).well_formed(),
{
    if let Expression::Sequence(items) = exp {
        if items.len() > 0 {
            let wrapped = Expression::Named { exp: Box::new(items.last()), name };
            let next = items.drop_last().push(wrapped);
            assert(items.last().well_formed());
            assert(wrapped.well_formed());
            assert forall|i: int| 0 <= i < next.len() implies (#[trigger] next[i]).well_formed() by {
                if i < next.len() - 1 {
                    assert(next[i] == items[i]);
                }
            }
            lists_well_formed(next);
        }
    }
}

/// A list is well formed after merging exactly if it was before.
pub proof fn merging_keeps_well_formed(items: Seq<Expression>)
    ensures
        all_well_formed(merged(items)) <==> all_well_formed(items),
    decreases items.len(),
{
    if items.len() > 0 {
        let init = items.drop_last();
        let last = items.last();
        let list = merged(init);
        merging_keeps_well_formed(init);
        assert(items =~= init.push(last));
        if all_well_formed(items) {
            assert forall|i: int| 0 <= i < init.len() implies (#[trigger] init[i]).well_formed() by {
                assert(init[i] == items[i]);
            }
            assert(all_well_formed(list));
            let next = absorb(list, last);
            assert forall|i: int| 0 <= i < next.len() implies (#[trigger] next[i]).well_formed() by {
                if i < list.len() - 1 {
                    assert(next[i] == list[i]);
                } else if i < list.len() && !(list.last() is Text && last is Text) {
                    assert(next[i] == list[i]);
                }
            }
        }
        if all_well_formed(merged(items)) {
            let next = merged(items);
            assert forall|i: int| 0 <= i < list.len() implies (#[trigger] list[i]).well_formed() by {
                if i < list.len() - 1 || !(list.last() is Text && last is Text) {
                    assert(next[i] == list[i]);
                }
            }
            assert(all_well_formed(init));
            assert(last.well_formed()) by {
                if list.len() > 0 && list.last() is Text && last is Text {
                } else {
                    assert(next[list.len() as int] == last);
                }
            }
            assert forall|i: int| 0 <= i < items.len() implies (#[trigger] items[i]).well_formed() by {
                if i < init.len() {
                    assert(init[i] == items[i]);
                }
            }
        }
    }
}

/// What a list simplifies to is well formed exactly if every element of
/// the list is.
pub proof fn simplifying_keeps_well_formed(items: Seq<Expression>)
    ensures
        simplified(items).well_formed() <==> all_well_formed(items),
{
    merging_keeps_well_formed(items);
    let list = merged(items);
    if list.len() == 1 {
        assert(all_well_formed(list) <==> list[0].well_formed());
    } else {
        lists_well_formed(list);
    }
}

/// The explanations of a list are well formed exactly if each tree of
/// the list is supported.
proof fn explained_each_well_formed(asts: Seq<SyntaxTree>)
    ensures
        all_well_formed(explained_each(asts)) <==> forall|i: int|
            0 <= i < asts.len() ==> (#[trigger] asts[i]).supported(),
    decreases asts,
{
    let exps = explained_each(asts);
    assert forall|i: int| 0 <= i < asts.len() implies ((#[trigger] exps[i]).well_formed()
        <==> asts[i].supported()) by {
        explained_well_formed(asts[i]);
    }
    if all_well_formed(exps) {
        assert forall|i: int| 0 <= i < asts.len() implies (#[trigger] asts[i]).supported() by {
            assert(exps[i].well_formed());
        }
    }
    if forall|i: int| 0 <= i < asts.len() ==> (#[trigger] asts[i]).supported() {
        assert forall|i: int| 0 <= i < exps.len() implies (#[trigger] exps[i]).well_formed() by {
            assert(asts[i].supported());
        }
    }
}

/// The explanation of a syntax tree is well formed exactly if the tree
/// is supported: a construct that the explainer has no expression for,
/// or counts out of order, show in the tree that it gives.
pub proof fn explained_well_formed(tree: SyntaxTree)
    ensures
        tree.explained().well_formed() <==> tree.supported(),
    decreases tree,
{
    match tree {
        SyntaxTree::Concat(asts) => {
            explained_each_well_formed(asts);
            simplifying_keeps_well_formed(explained_each(asts));
        },
        SyntaxTree::Alternation(asts) => {
            explained_each_well_formed(asts);
            lists_well_formed(explained_each(asts));
        },
        SyntaxTree::Group(ast) => {
            explained_well_formed(*ast);
        },
        SyntaxTree::Repetition { op, ast } => {
            explained_well_formed(*ast);
        },
        _ => {},
    }
}

} // verus!
