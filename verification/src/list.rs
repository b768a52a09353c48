//! Lists joined into one wire value.
//!
//! A collection field becomes a single value: the texts of its items, in
//! order, with a separator between neighbours. The empty collection becomes
//! the empty value. This module states the joined text, produces it, and
//! states how it is read back.

use vstd::prelude::*;
use vstd::utf8::encode_utf8;
use crate::decimal::{
    decimal_digits, lemma_decimal_digits_shape, lemma_parse_decimal_digits, parse_decimal,
    push_decimal,
};

verus! {

/// The ASCII comma that stands between two items of a joined list.
pub const SEPARATOR: u8 = 44;

/// The texts in `parts`, in order, with one separator between neighbours.
pub open spec fn join(parts: Seq<Seq<u8>>) -> Seq<u8>
    decreases parts.len(),
{
    if parts.len() == 0 {
        Seq::empty()
    } else if parts.len() == 1 {
        parts[0]
    } else {
        join(parts.drop_last()) + seq![SEPARATOR] + parts.last()
    }
}

/// Whether `text` holds no separator.
pub open spec fn separator_free(text: Seq<u8>) -> bool {
    forall|i: int| 0 <= i < text.len() ==> #[trigger] text[i] != SEPARATOR
}

/// The pieces between the separators of `text`, in order. A text without a
/// separator is one piece, so there is always at least one.
pub open spec fn pieces(text: Seq<u8>) -> Seq<Seq<u8>>
    decreases text.len(),
{
    if text.len() == 0 {
        seq![Seq::empty()]
    } else if text.last() == SEPARATOR {
        pieces(text.drop_last()).push(Seq::empty())
    } else {
        let before = pieces(text.drop_last());
        before.drop_last().push(before.last().push(text.last()))
    }
}

/// The list that a joined text stands for: none for the empty text, else its
/// pieces.
pub open spec fn split(text: Seq<u8>) -> Seq<Seq<u8>> {
    if text.len() == 0 {
        Seq::empty()
    } else {
        pieces(text)
    }
}

/// The joined decimal texts of a list of identifiers.
pub open spec fn join_ids(ids: Seq<u64>) -> Seq<u8> {
    join(ids.map_values(|id: u64| decimal_digits(id as nat)))
}

/// The identifiers that a joined text stands for.
pub open spec fn split_ids(text: Seq<u8>) -> Seq<nat> {
    split(text).map_values(|piece: Seq<u8>| parse_decimal(piece))
}

/// The joined UTF-8 texts of a list of strings.
pub open spec fn join_texts(texts: Seq<Seq<char>>) -> Seq<u8> {
    join(texts.map_values(|text: Seq<char>| encode_utf8(text)))
}

/// Joining one more part puts a separator in front of it, unless it is the
/// first.
pub proof fn lemma_join_push(parts: Seq<Seq<u8>>, part: Seq<u8>)
    ensures
        join(parts.push(part)) == if parts.len() == 0 {
            part
        } else {
            join(parts) + seq![SEPARATOR] + part
        },
{
    assert(parts.push(part).drop_last() =~= parts);
}

/// There is always at least one piece.
pub proof fn lemma_pieces_nonempty(text: Seq<u8>)
    ensures
        pieces(text).len() >= 1,
    decreases text.len(),
{
    if text.len() > 0 {
        lemma_pieces_nonempty(text.drop_last());
    }
}

/// A tail without separators lengthens the last piece and adds none.
pub proof fn lemma_pieces_append(text: Seq<u8>, tail: Seq<u8>)
    requires
        separator_free(tail),
    ensures
        pieces(text).len() >= 1,
        pieces(text + tail) == pieces(text).drop_last().push(pieces(text).last() + tail),
    decreases tail.len(),
{
    lemma_pieces_nonempty(text);
    if tail.len() > 0 {
        let shorter = tail.drop_last();
        let last_piece = pieces(text).last();
        lemma_pieces_append(text, shorter);
        assert((text + tail).drop_last() =~= text + shorter);
        assert((last_piece + shorter).push(tail.last()) =~= last_piece + tail);
    }
}

/// A joined list is at least as long as the separators between its parts.
pub proof fn lemma_join_len(parts: Seq<Seq<u8>>)
    ensures
        parts.len() >= 2 ==> join(parts).len() >= 1,
        parts.len() == 1 ==> join(parts).len() == parts[0].len(),
{
}

/// The pieces of a joined, non-empty list of separator-free parts are the
/// parts.
pub proof fn lemma_pieces_join(parts: Seq<Seq<u8>>)
    requires
        parts.len() >= 1,
        forall|i: int| 0 <= i < parts.len() ==> separator_free(#[trigger] parts[i]),
    ensures
        pieces(join(parts)) == parts,
    decreases parts.len(),
{
    let empty = Seq::<u8>::empty();
    if parts.len() == 1 {
        lemma_pieces_append(empty, parts[0]);
    } else {
        let front = parts.drop_last();
        lemma_pieces_join(front);
        let marked = join(front) + seq![SEPARATOR];
        assert(marked.drop_last() =~= join(front));
        lemma_pieces_append(marked, parts.last());
    }
}

/// Splitting a joined list of separator-free parts gives the parts back,
/// unless the list is the single empty part, which joins to the empty text.
pub proof fn lemma_split_join(parts: Seq<Seq<u8>>)
    requires
        forall|i: int| 0 <= i < parts.len() ==> separator_free(#[trigger] parts[i]),
        !(parts.len() == 1 && parts[0].len() == 0),
    ensures
        split(join(parts)) == parts,
    decreases parts.len(),
{
    if parts.len() > 0 {
        lemma_pieces_join(parts);
        lemma_join_len(parts);
    }
}

/// A joined list of identifiers reads back as the same identifiers in the
/// same order; the empty list, joined to the empty text, reads back as the
/// empty list.
pub proof fn lemma_split_join_ids(ids: Seq<u64>)
    ensures
        split_ids(join_ids(ids)) == ids.map_values(|id: u64| id as nat),
        ids.len() == 0 <==> join_ids(ids).len() == 0,
{
    let texts = ids.map_values(|id: u64| decimal_digits(id as nat));
    assert forall|i: int| 0 <= i < texts.len() implies separator_free(#[trigger] texts[i])
        && texts[i].len() >= 1 by {
        lemma_decimal_digits_shape(ids[i] as nat);
    }
    lemma_split_join(texts);
    lemma_join_len(texts);
    assert forall|i: int| 0 <= i < ids.len() implies parse_decimal(#[trigger] texts[i])
        == ids[i] as nat by {
        lemma_parse_decimal_digits(ids[i] as nat);
    }
}

/// Appends `bytes` to `out`.
pub fn push_bytes(bytes: &[u8], out: &mut Vec<u8>)
    ensures
        final(out)@ == old(out)@ + bytes@,
{
    let mut i: usize = 0;
    while i < bytes.len()
        invariant
            i <= bytes.len(),
            out@ == old(out)@ + bytes@.take(i as int),
        decreases bytes.len() - i,
    {
        out.push(bytes[i]);
        i = i + 1;
    }
}

/// The wire value of a list of identifiers: their decimal texts, joined.
pub fn encode_ids(ids: &Vec<u64>) -> (text: Vec<u8>)
    ensures
        text@ == join_ids(ids@),
{
    let ghost digits = |id: u64| decimal_digits(id as nat);
    let mut text: Vec<u8> = Vec::new();
    let mut i: usize = 0;
    while i < ids.len()
        invariant
            i <= ids.len(),
            digits == |id: u64| decimal_digits(id as nat),
            text@ == join(ids@.take(i as int).map_values(digits)),
        decreases ids.len() - i,
    {
        if i > 0 {
            text.push(SEPARATOR);
        }
        push_decimal(ids[i], &mut text);
        proof {
            let done = ids@.take(i as int).map_values(digits);
            lemma_join_push(done, digits(ids@[i as int]));
            ids@.lemma_map_take_succ(digits, i as int);
        }
        i = i + 1;
    }
    assert(ids@.take(i as int) =~= ids@);
    text
}

/// The wire value of a list of strings: their UTF-8 texts, joined.
pub fn encode_texts(texts: &Vec<String>) -> (text: Vec<u8>)
    ensures
        text@ == join_texts(texts@.map_values(|s: String| s@)),
{
    let ghost views = texts@.map_values(|s: String| s@);
    let ghost utf8 = |s: Seq<char>| encode_utf8(s);
    let mut text: Vec<u8> = Vec::new();
    let mut i: usize = 0;
    while i < texts.len()
        invariant
            i <= texts.len(),
            views == texts@.map_values(|s: String| s@),
            utf8 == |s: Seq<char>| encode_utf8(s),
            text@ == join(views.take(i as int).map_values(utf8)),
        decreases texts.len() - i,
    {
        if i > 0 {
            text.push(SEPARATOR);
        }
        push_bytes(texts[i].as_str().as_bytes(), &mut text);
        proof {
            let done = views.take(i as int).map_values(utf8);
            lemma_join_push(done, utf8(views[i as int]));
            views.lemma_map_take_succ(utf8, i as int);
        }
        i = i + 1;
    }
    assert(views.take(i as int) =~= views);
    text
}

} // verus!
