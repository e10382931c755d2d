//! Text primitives: how strings are cut, compared and put together, stated
//! over their characters.

use vstd::prelude::*;
use vstd::utf8::*;

verus! {

/// How many characters of `s` stand before the first `c`; all of them where
/// `c` does not occur.
pub open spec fn span(s: Seq<char>, c: char) -> nat
    decreases s.len(),
{
    if s.len() == 0 || s[0] == c {
        0
    } else {
        1 + span(s.drop_first(), c)
    }
}

/// What stands before the first `c`.
pub open spec fn before(s: Seq<char>, c: char) -> Seq<char> {
    s.take(span(s, c) as int)
}

/// What stands from the first `c` on, `c` included; empty where `c` does not
/// occur.
pub open spec fn onward(s: Seq<char>, c: char) -> Seq<char> {
    s.skip(span(s, c) as int)
}

/// The pieces of `s` between the occurrences of `c`: one more than there are
/// occurrences.
pub open spec fn split_on(s: Seq<char>, c: char) -> Seq<Seq<char>>
    decreases s.len(),
{
    if span(s, c) >= s.len() {
        seq![s]
    } else {
        seq![before(s, c)] + split_on(s.skip(span(s, c) as int + 1), c)
    }
}

/// `line` without a carriage return at its end.
pub open spec fn without_return(line: Seq<char>) -> Seq<char> {
    if line.len() > 0 && line.last() == '\r' {
        line.drop_last()
    } else {
        line
    }
}

/// The lines of `s`: each ends with a line feed, which a carriage return may
/// precede; the last may end with the text. No line end is part of a line.
pub open spec fn lines(s: Seq<char>) -> Seq<Seq<char>>
    decreases s.len(),
{
    if s.len() == 0 {
        seq![]
    } else if span(s, '\n') >= s.len() {
        seq![s]
    } else {
        seq![without_return(before(s, '\n'))] + lines(s.skip(span(s, '\n') as int + 1))
    }
}

/// `s` without the run of `c` at its end.
pub open spec fn trimmed_end(s: Seq<char>, c: char) -> Seq<char>
    decreases s.len(),
{
    if s.len() > 0 && s.last() == c {
        trimmed_end(s.drop_last(), c)
    } else {
        s
    }
}

/// Whether `needle` occurs somewhere in `s`.
pub open spec fn occurs(needle: Seq<char>, s: Seq<char>) -> bool {
    exists|i: int| 0 <= i <= s.len() && needle.is_prefix_of(#[trigger] s.skip(i))
}

/// The decimal digits of `n`.
pub open spec fn decimal(n: nat) -> Seq<char>
    decreases n,
{
    if n < 10 {
        seq![digit(n)]
    } else {
        decimal(n / 10).push(digit(n % 10))
    }
}

/// The digit that stands for `d`.
pub open spec fn digit(d: nat) -> char {
    (('0' as nat) + d) as char
}

/// The characters of a text that may be missing.
pub open spec fn text_of(s: Option<&str>) -> Option<Seq<char>> {
    match s {
        Some(t) => Some(t@),
        None => None,
    }
}

/// The characters of an owned text that may be missing.
pub open spec fn owned_text_of(s: Option<String>) -> Option<Seq<char>> {
    match s {
        Some(t) => Some(t@),
        None => None,
    }
}

/// The characters of each of a sequence of texts.
pub open spec fn texts(pieces: Seq<&str>) -> Seq<Seq<char>> {
    Seq::new(pieces.len(), |i: int| pieces[i]@)
}

/// The characters of each of a sequence of owned texts.
pub open spec fn owned_texts(lines: Seq<String>) -> Seq<Seq<char>> {
    Seq::new(lines.len(), |i: int| lines[i]@)
}

/// `span` stays inside `s`, stops at a `c` or at the end, and passes none.
pub proof fn lemma_span(s: Seq<char>, c: char)
    ensures
        span(s, c) <= s.len(),
        span(s, c) < s.len() ==> s[span(s, c) as int] == c,
        forall|j: int| 0 <= j < span(s, c) ==> s[j] != c,
    decreases s.len(),
{
    if s.len() > 0 && s[0] != c {
        lemma_span(s.drop_first(), c);
        assert forall|j: int| 0 <= j < span(s, c) implies s[j] != c by {
            if j > 0 {
                assert(s[j] == s.drop_first()[j - 1]);
            }
        }
    }
}

/// A place where `c` stands, or the end, with no `c` before it, is where
/// `span` stops.
pub proof fn lemma_span_is(s: Seq<char>, c: char, n: int)
    requires
        0 <= n <= s.len(),
        n < s.len() ==> s[n] == c,
        forall|j: int| 0 <= j < n ==> s[j] != c,
    ensures
        span(s, c) == n,
{
    lemma_span(s, c);
}

/// Encoding a text in two parts gives the encodings one after the other.
proof fn lemma_encode_parts(a: Seq<char>, b: Seq<char>)
    ensures
        encode_utf8(a + b) == encode_utf8(a) + encode_utf8(b),
    decreases a.len(),
{
    if a.len() == 0 {
        assert(a + b =~= b);
        assert(encode_utf8(a) + encode_utf8(b) =~= encode_utf8(b));
    } else {
        lemma_encode_parts(a.drop_first(), b);
        assert((a + b).drop_first() =~= a.drop_first() + b);
        assert(encode_utf8(a + b) =~= encode_utf8(a) + encode_utf8(b));
    }
}

/// The end of an encoded text is a character boundary of every encoding that
/// goes on after it.
proof fn lemma_boundary_after(a: Seq<char>, b: Seq<char>)
    ensures
        is_char_boundary(encode_utf8(a + b), encode_utf8(a).len() as int),
    decreases a.len(),
{
    encode_utf8_valid_utf8(a + b);
    if a.len() > 0 {
        let whole = encode_utf8(a + b);
        lemma_encode_parts(a, b);
        lemma_boundary_after(a.drop_first(), b);
        encode_utf8_first_scalar(a + b);
        assert((a + b).drop_first() =~= a.drop_first() + b);
        assert(pop_first_scalar(whole) =~= encode_utf8(a.drop_first() + b));
    }
}

/// A text is determined by its encoding.
proof fn lemma_encoding_determines(a: Seq<char>, b: Seq<char>)
    requires
        encode_utf8(a) == encode_utf8(b),
    ensures
        a == b,
{
    encode_utf8_decode_utf8(a);
    encode_utf8_decode_utf8(b);
}

/// How many bytes `c` takes in UTF-8.
fn width(c: char) -> (w: usize)
    ensures
        w == encode_scalar(c as u32).len(),
{
    let u: u32 = c as u32;
    proof {
        char_is_scalar(c);
    }
    if u < 0x80 {
        1
    } else if u < 0x800 {
        2
    } else if u < 0x10000 {
        3
    } else {
        4
    }
}

/// Cuts `s` after its first `k` characters, which take `offset` bytes.
fn cut<'a>(s: &'a str, offset: usize, Ghost(k): Ghost<int>) -> (parts: (&'a str, &'a str))
    requires
        0 <= k <= s@.len(),
        offset == encode_utf8(s@.take(k)).len(),
    ensures
        parts.0@ == s@.take(k),
        parts.1@ == s@.skip(k),
{
    proof {
        assert(s@ =~= s@.take(k) + s@.skip(k));
        lemma_boundary_after(s@.take(k), s@.skip(k));
        lemma_encode_parts(s@.take(k), s@.skip(k));
    }
    let parts = s.split_at(offset);
    proof {
        assert(encode_utf8(parts.0@) =~= encode_utf8(s@.take(k)));
        assert(encode_utf8(parts.1@) =~= encode_utf8(s@.skip(k)));
        lemma_encoding_determines(parts.0@, s@.take(k));
        lemma_encoding_determines(parts.1@, s@.skip(k));
    }
    parts
}

/// One more character takes its width more, and stays inside the encoding.
proof fn lemma_encode_next(s: Seq<char>, k: int)
    requires
        0 <= k < s.len(),
    ensures
        encode_utf8(s.take(k + 1)).len() == encode_utf8(s.take(k)).len() + encode_scalar(
            s[k] as u32,
        ).len(),
        encode_utf8(s.take(k + 1)).len() <= encode_utf8(s).len(),
{
    reveal_with_fuel(encode_utf8, 2);
    assert(s.take(k + 1) =~= s.take(k) + seq![s[k]]);
    lemma_encode_parts(s.take(k), seq![s[k]]);
    assert(seq![s[k]].drop_first() =~= Seq::<char>::empty());
    assert(encode_utf8(seq![s[k]]) =~= encode_scalar(s[k] as u32));
    assert(s =~= s.take(k + 1) + s.skip(k + 1));
    lemma_encode_parts(s.take(k + 1), s.skip(k + 1));
}

/// What stands before the first `c`, and what stands from it on.
pub fn split_before<'a>(s: &'a str, c: char) -> (parts: (&'a str, &'a str))
    ensures
        parts.0@ == before(s@, c),
        parts.1@ == onward(s@, c),
{
    let total: usize = s.as_bytes().len();
    let mut offset: usize = 0;
    assert(s@.take(0) =~= Seq::<char>::empty());
    for d in it: s.chars()
        invariant
            it.seq() == s@,
            total == encode_utf8(s@).len(),
            offset == encode_utf8(s@.take(it.index() as int)).len(),
            forall|j: int| 0 <= j < it.index() ==> s@[j] != c,
    {
        if d == c {
            proof {
                lemma_span_is(s@, c, it.index() as int);
            }
            return cut(s, offset, Ghost(it.index() as int));
        }
        proof {
            lemma_encode_next(s@, it.index() as int);
        }
        offset = offset + width(d);
    }
    proof {
        lemma_span_is(s@, c, s@.len() as int);
    }
    cut(s, offset, Ghost(s@.len() as int))
}

/// The first character and the rest, where there is a character.
pub fn uncons<'a>(s: &'a str) -> (parts: Option<(char, &'a str)>)
    ensures
        parts is None <==> s@.len() == 0,
        (parts matches Some((c, rest)) ==> c == s@[0] && rest@ == s@.drop_first()),
{
    let mut chars = s.chars();
    match chars.next() {
        Some(c) => {
            proof {
                lemma_encode_next(s@, 0);
                assert(s@.take(0) =~= Seq::<char>::empty());
                assert(s@.skip(1) =~= s@.drop_first());
            }
            let parts = cut(s, width(c), Ghost(1));
            Some((c, parts.1))
        },
        None => None,
    }
}

/// What follows `prefix` in `s`, where `s` begins with it.
pub fn strip_prefix<'a>(s: &'a str, prefix: &str) -> (rest: Option<&'a str>)
    ensures
        rest is Some <==> prefix@.is_prefix_of(s@),
        (rest matches Some(r) ==> r@ == s@.skip(prefix@.len() as int)),
{
    let mut chars = s.chars();
    for d in it: prefix.chars()
        invariant
            it.seq() == prefix@,
            it.index() <= s@.len(),
            vstd::std_specs::iter::IteratorSpec::remaining(&chars) == s@.skip(it.index() as int),
            prefix@.take(it.index() as int) == s@.take(it.index() as int),
    {
        let ghost k = it.index() as int;
        match chars.next() {
            Some(e) => {
                if d != e {
                    assert(prefix@[k] != s@[k]);
                    return None;
                }
                assert(s@.skip(k).drop_first() =~= s@.skip(k + 1));
                assert(prefix@.take(k + 1) =~= prefix@.take(k).push(d));
                assert(s@.take(k + 1) =~= s@.take(k).push(e));
            },
            None => {
                assert(s@.len() == k);
                return None;
            },
        }
    }
    assert(prefix@.take(prefix@.len() as int) =~= prefix@);
    assert(prefix@ =~= s@.take(prefix@.len() as int));
    let parts = cut(s, prefix.as_bytes().len(), Ghost(prefix@.len() as int));
    Some(parts.1)
}

/// Whether two texts hold the same characters.
pub fn same(a: &str, b: &str) -> (r: bool)
    ensures
        r == (a@ == b@),
{
    match strip_prefix(a, b) {
        Some(rest) => {
            proof {
                if rest@.len() == 0 {
                    assert(a@ =~= b@);
                }
            }
            rest.is_empty()
        },
        None => {
            proof {
                assert(b@ =~= b@.subrange(0, b@.len() as int));
            }
            false
        },
    }
}

/// Whether `s` ends with `suffix`.
pub fn ends_with(s: &str, suffix: &str) -> (r: bool)
    ensures
        r == suffix@.is_suffix_of(s@),
{
    let n: usize = s.unicode_len();
    let m: usize = suffix.unicode_len();
    if n < m {
        return false;
    }
    same(s.substring_char(n - m, n), suffix)
}

/// Whether `needle` occurs in `s`.
pub fn contains(s: &str, needle: &str) -> (r: bool)
    ensures
        r == occurs(needle@, s@),
{
    let mut rest: &str = s;
    let ghost mut k: int = 0;
    assert(s@.skip(0) =~= s@);
    loop
        invariant
            0 <= k <= s@.len(),
            rest@ == s@.skip(k),
            forall|i: int| 0 <= i < k ==> !needle@.is_prefix_of(#[trigger] s@.skip(i)),
        decreases rest@.len(),
    {
        if strip_prefix(rest, needle).is_some() {
            return true;
        }
        match uncons(rest) {
            Some((_, tail)) => {
                assert(s@.skip(k).drop_first() =~= s@.skip(k + 1));
                proof {
                    k = k + 1;
                }
                rest = tail;
            },
            None => {
                return false;
            },
        }
    }
}

/// `s` without the run of `c` at its end.
pub fn trim_end<'a>(s: &'a str, c: char) -> (r: &'a str)
    ensures
        r@ == trimmed_end(s@, c),
{
    let total: usize = s.as_bytes().len();
    let mut offset: usize = 0;
    let mut kept: usize = 0;
    let ghost mut k: int = 0;
    assert(s@.take(0) =~= Seq::<char>::empty());
    for d in it: s.chars()
        invariant
            it.seq() == s@,
            total == encode_utf8(s@).len(),
            offset == encode_utf8(s@.take(it.index() as int)).len(),
            0 <= k <= it.index(),
            kept == encode_utf8(s@.take(k)).len(),
            k > 0 ==> s@[k - 1] != c,
            forall|j: int| k <= j < it.index() ==> s@[j] == c,
    {
        proof {
            lemma_encode_next(s@, it.index() as int);
        }
        offset = offset + width(d);
        if d != c {
            kept = offset;
            proof {
                k = it.index() as int + 1;
            }
        }
    }
    proof {
        lemma_trimmed_end_is(s@, c, k);
    }
    cut(s, kept, Ghost(k)).0
}

/// `trimmed_end` keeps `k` characters where the last of them is no `c` and
/// only `c` follows.
pub proof fn lemma_trimmed_end_is(s: Seq<char>, c: char, k: int)
    requires
        0 <= k <= s.len(),
        k > 0 ==> s[k - 1] != c,
        forall|j: int| k <= j < s.len() ==> s[j] == c,
    ensures
        trimmed_end(s, c) == s.take(k),
    decreases s.len(),
{
    if s.len() == k {
        assert(s.take(k) =~= s);
    } else {
        lemma_trimmed_end_is(s.drop_last(), c, k);
        assert(s.drop_last().take(k) =~= s.take(k));
    }
}

/// The first line of `s` and what follows its end.
pub fn first_line<'a>(s: &'a str) -> (parts: (&'a str, &'a str))
    requires
        s@.len() > 0,
    ensures
        lines(s@) == seq![parts.0@] + lines(parts.1@),
        parts.1@.len() < s@.len(),
{
    let (line, tail) = split_before(s, '\n');
    proof {
        lemma_span(s@, '\n');
    }
    match uncons(tail) {
        Some((_, rest)) => {
            assert(tail@.drop_first() =~= s@.skip(span(s@, '\n') as int + 1));
            let n: usize = line.unicode_len();
            if n > 0 && line.get_char(n - 1) == '\r' {
                assert(line@.subrange(0, n - 1) =~= line@.drop_last());
                (line.substring_char(0, n - 1), rest)
            } else {
                (line, rest)
            }
        },
        None => {
            assert(line@ =~= s@);
            assert(seq![line@] + lines(tail@) =~= seq![line@]);
            (line, tail)
        },
    }
}

/// The pieces of `s` between the occurrences of `c`.
pub fn split<'a>(s: &'a str, c: char) -> (pieces: Vec<&'a str>)
    ensures
        texts(pieces@) == split_on(s@, c),
{
    let mut pieces: Vec<&'a str> = Vec::new();
    let mut rest: &'a str = s;
    assert(texts(pieces@) + split_on(rest@, c) =~= split_on(s@, c));
    loop
        invariant
            texts(pieces@) + split_on(rest@, c) == split_on(s@, c),
        decreases rest@.len(),
    {
        let (piece, tail) = split_before(rest, c);
        proof {
            lemma_span(rest@, c);
        }
        let ghost done = texts(pieces@);
        pieces.push(piece);
        assert(texts(pieces@) =~= done.push(piece@));
        match uncons(tail) {
            Some((_, after)) => {
                assert(tail@.drop_first() =~= rest@.skip(span(rest@, c) as int + 1));
                assert(texts(pieces@) + split_on(after@, c) =~= done + split_on(
                    rest@,
                    c,
                ));
                rest = after;
            },
            None => {
                assert(piece@ =~= rest@);
                assert(texts(pieces@) =~= done + split_on(rest@, c));
                return pieces;
            },
        }
    }
}

/// The text of one digit.
fn digit_text(d: usize) -> (text: &'static str)
    requires
        d < 10,
    ensures
        text@ == seq![digit(d as nat)],
{
    proof {
        reveal_strlit("0");
        reveal_strlit("1");
        reveal_strlit("2");
        reveal_strlit("3");
        reveal_strlit("4");
        reveal_strlit("5");
        reveal_strlit("6");
        reveal_strlit("7");
        reveal_strlit("8");
        reveal_strlit("9");
    }
    let text = match d {
        0 => "0",
        1 => "1",
        2 => "2",
        3 => "3",
        4 => "4",
        5 => "5",
        6 => "6",
        7 => "7",
        8 => "8",
        _ => "9",
    };
    assert(text@ =~= seq![digit(d as nat)]);
    text
}

/// Adds the decimal digits of `n` to a text.
pub fn append_decimal(text: &mut String, n: usize)
    ensures
        final(text)@ == old(text)@ + decimal(n as nat),
    decreases n,
{
    if n >= 10 {
        append_decimal(text, n / 10);
    }
    text.append(digit_text(n % 10));
    proof {
        if n >= 10 {
            assert(text@ =~= old(text)@ + decimal(n as nat));
        }
    }
}

} // verus!
