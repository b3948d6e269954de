//! Labels: free text reduced to a token that is safe to hand on as a tag.
//!
//! A label keeps the ASCII letters and digits of its text and the characters
//! `: _ . -`, writes `_` for each space, and drops everything else.

use vstd::prelude::*;

verus! {

/// The characters a label is made of: ASCII letters and digits, and `: _ . -`.
pub open spec fn is_label_char(c: char) -> bool {
    ||| 'a' <= c <= 'z'
    ||| 'A' <= c <= 'Z'
    ||| '0' <= c <= '9'
    ||| c == ':'
    ||| c == '_'
    ||| c == '.'
    ||| c == '-'
}

/// A text all of whose characters are label characters.
pub open spec fn is_label(text: Seq<char>) -> bool {
    forall|i: int| 0 <= i < text.len() ==> is_label_char(#[trigger] text[i])
}

/// What one character of the text contributes to the label: a label character
/// stays as it is, a space becomes `_`, and anything else leaves nothing.
pub open spec fn sanitize_char(c: char) -> Option<char> {
    if is_label_char(c) {
        Some(c)
    } else if c == ' ' {
        Some('_')
    } else {
        None
    }
}

/// The label of a text: what its characters contribute, in their order.
pub open spec fn sanitize(text: Seq<char>) -> Seq<char> {
    text.filter_map(|c: char| sanitize_char(c))
}

/// Whether a character leaves something in the label.
pub open spec fn is_kept(c: char) -> bool {
    is_label_char(c) || c == ' '
}

/// How a kept character is written in the label.
pub open spec fn written(c: char) -> char {
    if c == ' ' {
        '_'
    } else {
        c
    }
}

/// What `c` contributes to a label.
pub fn sanitized_char(c: char) -> (kept: Option<char>)
    ensures
        kept == sanitize_char(c),
{
    if ('a' <= c && c <= 'z') || ('A' <= c && c <= 'Z') || ('0' <= c && c <= '9') || c == ':'
        || c == '_' || c == '.' || c == '-' {
        Some(c)
    } else if c == ' ' {
        Some('_')
    } else {
        None
    }
}

/// Reduces `input` to its label.
pub fn sanitize_label(input: &str) -> (label: String)
    ensures
        label@ == sanitize(input@),
{
    let mut label = String::new();
    for c in it: input.chars()
        invariant
            it.seq() == input@,
            label@ == sanitize(input@.take(it.index())),
    {
        proof {
            input@.lemma_filter_map_take_succ(|c: char| sanitize_char(c), it.index());
        }
        match sanitized_char(c) {
            Some(kept) => {
                label.push(kept);
            },
            None => {},
        }
    }
    assert(input@.take(input@.len() as int) =~= input@);
    label
}

/// The empty text has the empty label.
pub proof fn sanitize_empty()
    ensures
        sanitize(Seq::<char>::empty()) == Seq::<char>::empty(),
{
}

/// The label of a text of one character is what that character contributes.
pub proof fn sanitize_single(c: char)
    ensures
        sanitize_char(c) matches Some(kept) ==> sanitize(seq![c]) == seq![kept],
        sanitize_char(c) is None ==> sanitize(seq![c]) == Seq::<char>::empty(),
{
    Seq::lemma_filter_map_singleton(c, |c: char| sanitize_char(c));
}

/// Labels are built from left to right: the label of two texts joined is their
/// two labels joined.
pub proof fn sanitize_concat(left: Seq<char>, right: Seq<char>)
    ensures
        sanitize(left + right) == sanitize(left) + sanitize(right),
    decreases right.len(),
{
    if right.len() == 0 {
        assert(left + right =~= left);
    } else {
        sanitize_concat(left, right.drop_last());
        assert((left + right).drop_last() =~= left + right.drop_last());
    }
}

/// Every character of a label is a label character.
pub proof fn sanitize_is_label(text: Seq<char>)
    ensures
        is_label(sanitize(text)),
    decreases text.len(),
{
    if text.len() > 0 {
        sanitize_is_label(text.drop_last());
    }
}

/// A label is never longer than its text.
pub proof fn sanitize_len(text: Seq<char>)
    ensures
        sanitize(text).len() <= text.len(),
    decreases text.len(),
{
    if text.len() > 0 {
        sanitize_len(text.drop_last());
    }
}

/// A label is its text without the characters that are not kept, in the order
/// of the text, with `_` written for each space.
pub proof fn sanitize_keeps_order(text: Seq<char>)
    ensures
        sanitize(text) == text.filter(|c: char| is_kept(c)).map_values(|c: char| written(c)),
    decreases text.len(),
{
    reveal(Seq::filter);
    if text.len() > 0 {
        sanitize_keeps_order(text.drop_last());
    }
    assert(sanitize(text) =~= text.filter(|c: char| is_kept(c)).map_values(|c: char| written(c)));
}

/// What is already a label stays as it is.
pub proof fn sanitize_of_label(text: Seq<char>)
    requires
        is_label(text),
    ensures
        sanitize(text) == text,
    decreases text.len(),
{
    if text.len() == 0 {
        assert(sanitize(text) =~= text);
    } else {
        sanitize_of_label(text.drop_last());
        assert(is_label_char(text.last()));
    }
}

/// Reducing a label once more changes nothing.
pub proof fn sanitize_idempotent(text: Seq<char>)
    ensures
        sanitize(sanitize(text)) == sanitize(text),
{
    sanitize_is_label(text);
    sanitize_of_label(sanitize(text));
}

} // verus!
