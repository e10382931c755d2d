//! What holds of the text primitives, over concatenations of their inputs.

use vstd::prelude::*;

use crate::text::{
    before, decimal, lemma_span, lemma_span_is, lemma_trimmed_end_is, lines, occurs, onward,
    owned_text_of, owned_texts, split_on, text_of, texts, trimmed_end,
};

verus! {

/// A text falls into what stands before the first `c` and what stands from it
/// on: the first part holds no `c`, the second begins with one or is empty.
pub proof fn law_parts_make_the_text(s: Seq<char>, c: char)
    ensures
        before(s, c) + onward(s, c) == s,
        !before(s, c).contains(c),
        onward(s, c).len() == 0 || onward(s, c)[0] == c,
{
    lemma_span(s, c);
    assert(before(s, c) + onward(s, c) =~= s);
}

/// A text that is put together from a part without `c` and a part that begins
/// with `c`, or is empty, falls into these parts again.
pub proof fn law_text_falls_into_its_parts(head: Seq<char>, c: char, tail: Seq<char>)
    requires
        !head.contains(c),
        tail.len() == 0 || tail[0] == c,
    ensures
        before(head + tail, c) == head,
        onward(head + tail, c) == tail,
{
    assert forall|j: int| 0 <= j < head.len() implies (head + tail)[j] != c by {
        assert(head.contains(head[j]));
    }
    lemma_span_is(head + tail, c, head.len() as int);
    assert((head + tail).take(head.len() as int) =~= head);
    assert((head + tail).skip(head.len() as int) =~= tail);
}

/// A text without the separator is one piece; a piece, a separator and more text
/// are that piece and the pieces of the text.
pub proof fn law_pieces(piece: Seq<char>, c: char, rest: Seq<char>)
    requires
        !piece.contains(c),
    ensures
        split_on(piece, c) == seq![piece],
        split_on(piece + seq![c] + rest, c) == seq![piece] + split_on(rest, c),
{
    let s = piece + seq![c] + rest;
    assert forall|j: int| 0 <= j < piece.len() implies s[j] != c && piece[j] != c by {
        assert(piece.contains(piece[j]));
    }
    lemma_span_is(piece, c, piece.len() as int);
    lemma_span_is(s, c, piece.len() as int);
    assert(s.take(piece.len() as int) =~= piece);
    assert(s.skip(piece.len() as int + 1) =~= rest);
}

/// A line feed ends a line, and so does a carriage return with a line feed;
/// neither is part of the line. Text after the last line feed is a line, where
/// there is any.
pub proof fn law_lines(line: Seq<char>, rest: Seq<char>)
    requires
        !line.contains('\n'),
    ensures
        lines(line) == (if line.len() == 0 {
            Seq::<Seq<char>>::empty()
        } else {
            seq![line]
        }),
        lines(line + seq!['\r', '\n'] + rest) == seq![line] + lines(rest),
        line.len() == 0 || line.last() != '\r' ==> lines(line + seq!['\n'] + rest) == seq![line]
            + lines(rest),
{
    let plain = line + seq!['\n'] + rest;
    let both = line + seq!['\r', '\n'] + rest;
    let n = line.len() as int;
    assert forall|j: int| 0 <= j < n implies plain[j] != '\n' && both[j] != '\n' && line[j]
        != '\n' by {
        assert(line.contains(line[j]));
    }
    lemma_span_is(line, '\n', n);
    lemma_span_is(plain, '\n', n);
    lemma_span_is(both, '\n', n + 1);
    assert(plain.take(n) =~= line);
    assert(plain.skip(n + 1) =~= rest);
    assert(both.take(n + 1) =~= line.push('\r'));
    assert(line.push('\r').drop_last() =~= line);
    assert(both.skip(n + 2) =~= rest);
}

/// Of a text and a run of `c` after it, the text is kept, where it does not end
/// with `c` itself.
pub proof fn law_run_is_trimmed(s: Seq<char>, run: Seq<char>, c: char)
    requires
        s.len() == 0 || s.last() != c,
        forall|i: int| 0 <= i < run.len() ==> run[i] == c,
    ensures
        trimmed_end(s + run, c) == s,
{
    lemma_trimmed_end_is(s + run, c, s.len() as int);
    assert((s + run).take(s.len() as int) =~= s);
}

/// A text occurs in every text around it.
pub proof fn law_inner_text_occurs(head: Seq<char>, inner: Seq<char>, tail: Seq<char>)
    ensures
        occurs(inner, head + inner + tail),
{
    let s = head + inner + tail;
    assert(s.skip(head.len() as int) =~= inner + tail);
    assert((inner + tail).subrange(0, inner.len() as int) =~= inner);
    assert(inner.is_prefix_of(s.skip(head.len() as int)));
}

/// A text that occurs in another has a part of it before it and a part after.
pub proof fn law_occurring_text_is_inner(inner: Seq<char>, s: Seq<char>)
    requires
        occurs(inner, s),
    ensures
        exists|head: Seq<char>, tail: Seq<char>| s == #[trigger] (head + inner + tail),
{
    let i = choose|i: int| 0 <= i <= s.len() && inner.is_prefix_of(#[trigger] s.skip(i));
    let head = s.take(i);
    let tail = s.skip(i + inner.len());
    assert(s.skip(i).subrange(0, inner.len() as int) =~= inner);
    assert forall|j: int| 0 <= j < inner.len() implies s[i + j] == inner[j] by {
        assert(s.skip(i)[j] == inner[j]);
    }
    assert(s =~= head + inner + tail);
}

/// The digits stand for themselves, and a number's last digit follows the digits
/// of its tenth.
pub proof fn law_decimal(tens: nat, last: nat)
    requires
        tens > 0,
        last < 10,
    ensures
        decimal(0) == "0"@,
        decimal(1) == "1"@,
        decimal(2) == "2"@,
        decimal(3) == "3"@,
        decimal(4) == "4"@,
        decimal(5) == "5"@,
        decimal(6) == "6"@,
        decimal(7) == "7"@,
        decimal(8) == "8"@,
        decimal(9) == "9"@,
        decimal(10 * tens + last) == decimal(tens) + decimal(last),
{
    reveal_strlit("0");
    reveal_strlit("1");
    reveal_strlit("2");
    reveal_strlit("3");
    reveal_strlit("4");
    reveal_strlit("5");
    reveal_strlit("6");
    reveal_strlit("7");
    reveal_strlit("8");
    reveal_strlit("9");
    assert((10 * tens + last) / 10 == tens);
    assert((10 * tens + last) % 10 == last);
}

/// Texts are known by their characters, one for one.
pub proof fn law_texts_by_characters(
    text: &str,
    owned: String,
    pieces: Seq<&str>,
    owned_pieces: Seq<String>,
)
    ensures
        text_of(Some(text)) == Some(text@),
        text_of(None) is None,
        owned_text_of(Some(owned)) == Some(owned@),
        owned_text_of(None) is None,
        texts(pieces).len() == pieces.len(),
        forall|i: int| 0 <= i < pieces.len() ==> texts(pieces)[i] == (#[trigger] pieces[i])@,
        owned_texts(owned_pieces).len() == owned_pieces.len(),
        forall|i: int|
            0 <= i < owned_pieces.len() ==> owned_texts(owned_pieces)[i] == (
            #[trigger] owned_pieces[i])@,
{
}

} // verus!
