//! What holds of session ids in headers, queries and event streams.

use vstd::prelude::*;
use vstd::utf8::{
    decode_utf8, encode_utf8, encode_utf8_decode_utf8, encode_utf8_valid_utf8, valid_utf8,
};

use crate::gateway::{
    id_in_body, notes, session_in_header, session_of, SessionEntry, MCP_SESSION_ID,
};
use crate::headers::{bytes_of, first_value, header_text, lowercase};
use crate::laws::text::{law_lines, law_pieces};
use crate::sessions::{
    announced_id, id_char, id_in_lines, id_in_pair, id_in_pairs, id_in_query, id_in_stream, id_run,
    noted,
};
use crate::text::{lines, split_on};

verus! {

/// Whether the key stands at place `at` of `line`, with a character of an id
/// after it.
spec fn announces_at(line: Seq<char>, at: int) -> bool {
    &&& 0 <= at
    &&& at + 10 < line.len()
    &&& line.subrange(at, at + 10) == "sessionId="@
    &&& id_char(line[at + 10])
}

/// The characters of an id are the ASCII letters and digits, the underscore and
/// the hyphen.
pub proof fn law_id_characters(c: char)
    ensures
        id_char(c) <==> {
            ||| 48 <= c as int <= 57
            ||| 65 <= c as int <= 90
            ||| 97 <= c as int <= 122
            ||| c as int == 45
            ||| c as int == 95
        },
{
}

/// A run of id characters ends where another character follows.
proof fn lemma_id_run_is(id: Seq<char>, rest: Seq<char>)
    requires
        forall|i: int| 0 <= i < id.len() ==> id_char(#[trigger] id[i]),
        rest.len() == 0 || !id_char(rest[0]),
    ensures
        id_run(id + rest) == id,
    decreases id.len(),
{
    if id.len() > 0 {
        assert forall|i: int| 0 <= i < id.drop_first().len() implies id_char(
            #[trigger] id.drop_first()[i],
        ) by {
            assert(id_char(id[i + 1]));
        }
        lemma_id_run_is(id.drop_first(), rest);
        assert((id + rest).drop_first() =~= id.drop_first() + rest);
        assert(id =~= seq![id[0]] + id.drop_first());
        assert(id_char((id + rest)[0]));
    } else {
        assert(id + rest =~= rest);
        assert(id_run(rest) =~= id);
    }
}

/// Whether a line begins with an announcement.
proof fn lemma_announces_first(line: Seq<char>)
    ensures
        announces_at(line, 0) <==> ("sessionId="@.is_prefix_of(line) && id_run(
            line.skip(10),
        ).len() > 0),
{
    reveal_strlit("sessionId=");
    if line.len() > 10 {
        assert(line.skip(10)[0] == line[10]);
    }
}

/// The announcements of a line without its first character.
proof fn lemma_announces_later(line: Seq<char>, at: int)
    requires
        line.len() > 0,
        at >= 0,
    ensures
        announces_at(line.drop_first(), at) <==> announces_at(line, at + 1),
{
    if at + 11 < line.len() {
        assert(line.drop_first().subrange(at, at + 10) =~= line.subrange(at + 1, at + 11));
    }
}

/// Where the key stands in a line with a character of an id after it, the line
/// is what is before, the key, the character and what is after.
proof fn lemma_announcing_parts(line: Seq<char>, at: int)
    requires
        announces_at(line, at),
    ensures
        line == line.take(at) + "sessionId="@ + seq![line[at + 10]] + line.skip(at + 11),
{
    reveal_strlit("sessionId=");
    let parts = line.take(at) + "sessionId="@ + seq![line[at + 10]] + line.skip(at + 11);
    assert forall|j: int| 0 <= j < line.len() implies line[j] == parts[j] by {
        if at <= j < at + 10 {
            assert(line.subrange(at, at + 10)[j - at] == line[j]);
        }
    }
    assert(line =~= parts);
}

/// The first place of a line where the key stands with an id after it announces
/// that id, up to the next character that cannot be part of an id, whatever
/// else the line holds.
pub proof fn law_line_announces(head: Seq<char>, id: Seq<char>, rest: Seq<char>)
    requires
        id.len() > 0,
        forall|i: int| 0 <= i < id.len() ==> id_char(#[trigger] id[i]),
        rest.len() == 0 || !id_char(rest[0]),
        forall|h: Seq<char>, c: char, t: Seq<char>|
            head + "sessionId="@ + id + rest == #[trigger] (h + "sessionId="@ + seq![c] + t)
                && h.len() < head.len() ==> !id_char(c),
    ensures
        announced_id(head + "sessionId="@ + id + rest) == Some(id),
{
    let line = head + "sessionId="@ + id + rest;
    assert forall|j: int| 0 <= j < head.len() implies !#[trigger] announces_at(line, j) by {
        if announces_at(line, j) {
            lemma_announcing_parts(line, j);
        }
    }
    lemma_line_announces(head, id, rest);
}

/// A line announces the id at its first announcement.
proof fn lemma_line_announces(head: Seq<char>, id: Seq<char>, rest: Seq<char>)
    requires
        id.len() > 0,
        forall|i: int| 0 <= i < id.len() ==> id_char(#[trigger] id[i]),
        rest.len() == 0 || !id_char(rest[0]),
        forall|j: int|
            0 <= j < head.len() ==> !#[trigger] announces_at(head + "sessionId="@ + id + rest, j),
    ensures
        announced_id(head + "sessionId="@ + id + rest) == Some(id),
    decreases head.len(),
{
    reveal_strlit("sessionId=");
    let line = head + "sessionId="@ + id + rest;
    lemma_announces_first(line);
    if head.len() == 0 {
        assert(line.skip(10) =~= id + rest);
        lemma_id_run_is(id, rest);
        assert(line.subrange(0, 10) =~= "sessionId="@);
    } else {
        let shorter = head.drop_first() + "sessionId="@ + id + rest;
        assert(line.drop_first() =~= shorter);
        assert forall|j: int| 0 <= j < head.drop_first().len() implies !#[trigger] announces_at(
            shorter,
            j,
        ) by {
            lemma_announces_later(line, j);
            assert(!announces_at(line, j + 1));
        }
        lemma_line_announces(head.drop_first(), id, rest);
        assert(!announces_at(line, 0));
    }
}

/// A line announces nothing where nowhere an id follows the key.
pub proof fn law_line_announces_nothing(line: Seq<char>)
    requires
        forall|h: Seq<char>, c: char, t: Seq<char>|
            line == #[trigger] (h + "sessionId="@ + seq![c] + t) ==> !id_char(c),
    ensures
        announced_id(line) is None,
{
    assert forall|j: int| 0 <= j < line.len() implies !#[trigger] announces_at(line, j) by {
        if announces_at(line, j) {
            lemma_announcing_parts(line, j);
        }
    }
    lemma_line_announces_nothing(line);
}

/// A line without an announcement announces nothing.
proof fn lemma_line_announces_nothing(line: Seq<char>)
    requires
        forall|j: int| 0 <= j < line.len() ==> !#[trigger] announces_at(line, j),
    ensures
        announced_id(line) is None,
    decreases line.len(),
{
    reveal_strlit("sessionId=");
    if line.len() > 0 {
        lemma_announces_first(line);
        assert(!announces_at(line, 0));
        assert forall|j: int| 0 <= j < line.drop_first().len() implies !#[trigger] announces_at(
            line.drop_first(),
            j,
        ) by {
            lemma_announces_later(line, j);
            assert(!announces_at(line, j + 1));
        }
        lemma_line_announces_nothing(line.drop_first());
    }
}

/// Of some lines the first data line that announces an id decides, whatever the
/// other lines are.
proof fn lemma_first_line_decides(stream: Seq<Seq<char>>, i: int)
    requires
        0 <= i < stream.len(),
        "data:"@.is_prefix_of(stream[i]),
        announced_id(stream[i]) is Some,
        forall|j: int|
            0 <= j < i ==> !("data:"@.is_prefix_of(#[trigger] stream[j]) && announced_id(
                stream[j],
            ) is Some),
    ensures
        id_in_lines(stream) == announced_id(stream[i]),
    decreases i,
{
    if i > 0 {
        let later = stream.drop_first();
        assert forall|j: int| 0 <= j < i - 1 implies !("data:"@.is_prefix_of(#[trigger] later[j])
            && announced_id(later[j]) is Some) by {
            assert(later[j] == stream[j + 1]);
        }
        assert(!("data:"@.is_prefix_of(stream[0]) && announced_id(stream[0]) is Some));
        lemma_first_line_decides(later, i - 1);
    }
}

/// Where no data line announces an id, there is none.
proof fn lemma_no_line_decides(stream: Seq<Seq<char>>)
    requires
        forall|j: int|
            0 <= j < stream.len() ==> !("data:"@.is_prefix_of(#[trigger] stream[j])
                && announced_id(stream[j]) is Some),
    ensures
        id_in_lines(stream) is None,
    decreases stream.len(),
{
    if stream.len() > 0 {
        let later = stream.drop_first();
        assert forall|j: int| 0 <= j < later.len() implies !("data:"@.is_prefix_of(
            #[trigger] later[j],
        ) && announced_id(later[j]) is Some) by {
            assert(later[j] == stream[j + 1]);
        }
        assert(!("data:"@.is_prefix_of(stream[0]) && announced_id(stream[0]) is Some));
        lemma_no_line_decides(later);
    }
}

/// The id that an event stream announces is that of its first data line with
/// one, whatever stands on the other lines, blank ones included.
pub proof fn law_stream_announces(body: Seq<u8>, i: int)
    requires
        valid_utf8(body),
        0 <= i < lines(decode_utf8(body)).len(),
        "data:"@.is_prefix_of(lines(decode_utf8(body))[i]),
        announced_id(lines(decode_utf8(body))[i]) is Some,
        forall|j: int|
            0 <= j < i ==> !("data:"@.is_prefix_of(#[trigger] lines(decode_utf8(body))[j])
                && announced_id(lines(decode_utf8(body))[j]) is Some),
    ensures
        id_in_stream(body) == announced_id(lines(decode_utf8(body))[i]),
{
    lemma_first_line_decides(lines(decode_utf8(body)), i);
}

/// An event stream announces nothing only where it is no text, or none of its
/// data lines announces an id.
pub proof fn law_stream_announces_nothing(body: Seq<u8>)
    ensures
        id_in_stream(body) is None <==> (valid_utf8(body) ==> forall|j: int|
            0 <= j < lines(decode_utf8(body)).len() ==> !("data:"@.is_prefix_of(
                #[trigger] lines(decode_utf8(body))[j],
            ) && announced_id(lines(decode_utf8(body))[j]) is Some)),
{
    let stream = lines(decode_utf8(body));
    if valid_utf8(body) {
        if forall|j: int|
            0 <= j < stream.len() ==> !("data:"@.is_prefix_of(#[trigger] stream[j])
                && announced_id(stream[j]) is Some) {
            lemma_no_line_decides(stream);
        } else {
            let k = choose|j: int|
                0 <= j < stream.len() && "data:"@.is_prefix_of(#[trigger] stream[j])
                    && announced_id(stream[j]) is Some;
            lemma_some_line_decides(stream, k);
        }
    }
}

/// Where some data line announces an id, there is one.
proof fn lemma_some_line_decides(stream: Seq<Seq<char>>, k: int)
    requires
        0 <= k < stream.len(),
        "data:"@.is_prefix_of(stream[k]),
        announced_id(stream[k]) is Some,
    ensures
        id_in_lines(stream) is Some,
    decreases k,
{
    if k > 0 && !("data:"@.is_prefix_of(stream[0]) && announced_id(stream[0]) is Some) {
        assert(stream.drop_first()[k - 1] == stream[k]);
        lemma_some_line_decides(stream.drop_first(), k - 1);
    }
}

/// A stream that begins with a line announces what that line announces, where
/// it is a data line that announces an id, and else what the rest of the stream
/// announces. It makes no difference how the line ends.
pub proof fn law_stream_line_by_line(line: Seq<char>, rest: Seq<char>)
    requires
        !line.contains('\n'),
        line.len() == 0 || line.last() != '\r',
    ensures
        id_in_stream(encode_utf8(line + seq!['\n'] + rest)) == id_in_stream(
            encode_utf8(line + seq!['\r', '\n'] + rest),
        ),
        id_in_stream(encode_utf8(line + seq!['\n'] + rest)) == (if "data:"@.is_prefix_of(line)
            && announced_id(line) is Some {
            announced_id(line)
        } else {
            id_in_stream(encode_utf8(rest))
        }),
        id_in_stream(encode_utf8(line)) == (if "data:"@.is_prefix_of(line) {
            announced_id(line)
        } else {
            None
        }),
{
    reveal_strlit("data:");
    reveal_with_fuel(id_in_lines, 2);
    let plain = line + seq!['\n'] + rest;
    let both = line + seq!['\r', '\n'] + rest;
    encode_utf8_valid_utf8(plain);
    encode_utf8_decode_utf8(plain);
    encode_utf8_valid_utf8(both);
    encode_utf8_decode_utf8(both);
    encode_utf8_valid_utf8(line);
    encode_utf8_decode_utf8(line);
    encode_utf8_valid_utf8(rest);
    encode_utf8_decode_utf8(rest);
    law_lines(line, rest);
    assert((seq![line] + lines(rest)).drop_first() =~= lines(rest));
    assert(seq![line].drop_first() =~= Seq::<Seq<char>>::empty());
}

/// A query that begins with a session pair gives its value, in either spelling
/// of the key; one that begins with another pair gives what the rest gives.
pub proof fn law_query_pair_by_pair(pair: Seq<char>, value: Seq<char>, rest: Seq<char>)
    requires
        !pair.contains('&'),
    ensures
        pair == "sessionId="@ + value || pair == "sessionid="@ + value ==> id_in_query(pair)
            == Some(value) && id_in_query(pair + seq!['&'] + rest) == Some(value),
        !"sessionId="@.is_prefix_of(pair) && !"sessionid="@.is_prefix_of(pair) ==> id_in_query(
            pair,
        ) is None && id_in_query(pair + seq!['&'] + rest) == id_in_query(rest),
{
    reveal_strlit("sessionId=");
    reveal_strlit("sessionid=");
    reveal_with_fuel(id_in_pairs, 2);
    law_pieces(pair, '&', rest);
    assert((seq![pair] + split_on(rest, '&')).drop_first() =~= split_on(rest, '&'));
    assert(seq![pair].drop_first() =~= Seq::<Seq<char>>::empty());
    if pair == "sessionId="@ + value {
        assert(pair.subrange(0, 10) =~= "sessionId="@);
        assert(pair.skip(10) =~= value);
        assert(id_in_pair(pair) == Some(value));
    }
    if pair == "sessionid="@ + value {
        assert(pair[7] == 'i');
        assert(pair.subrange(0, 10) =~= "sessionid="@);
        assert(pair.skip(10) =~= value);
        assert(id_in_pair(pair) == Some(value));
    }
}

/// Header names are told apart without regard to the case of ASCII letters, and
/// by nothing else.
pub proof fn law_names_without_case(name: Seq<char>)
    ensures
        lowercase(name).len() == name.len(),
        forall|i: int|
            0 <= i < name.len() ==> lowercase(name)[i] as int == (#[trigger] name[i]) as int + (
            if 65 <= name[i] as int <= 90 {
                32int
            } else {
                0
            }),
{
    assert forall|i: int| 0 <= i < name.len() implies lowercase(name)[i] as int == (
    #[trigger] name[i]) as int + (if 65 <= name[i] as int <= 90 {
        32int
    } else {
        0
    }) by {
        assert(lowercase(name)[i] == crate::headers::lower(name[i]));
    }
}

/// The name of the session header in lower case.
proof fn lemma_session_header_name()
    ensures
        lowercase(MCP_SESSION_ID@) == "mcp-session-id"@,
{
    reveal_strlit("Mcp-Session-Id");
    reveal_strlit("mcp-session-id");
    assert(lowercase(MCP_SESSION_ID@) =~= "mcp-session-id"@);
}

/// The first value of a field counts, and a field that is not there has none.
pub proof fn law_first_value_counts(
    fields: Map<Seq<char>, Seq<Seq<u8>>>,
    name: Seq<char>,
    value: Vec<u8>,
)
    ensures
        first_value(fields, name) is Some <==> fields.contains_key(lowercase(name)),
        (first_value(fields, name) matches Some(v) ==> v == fields[lowercase(name)][0]),
        bytes_of(Some(value)) == Some(value@),
        bytes_of(None) is None,
{
}

/// A value of spaces, tabs and visible ASCII characters, of any length, is the
/// text of these characters; any other value is no text.
pub proof fn law_header_text(value: Seq<u8>)
    ensures
        header_text(value) is Some <==> forall|i: int|
            0 <= i < value.len() ==> #[trigger] value[i] == 9 || 32 <= value[i] <= 126,
        (header_text(value) matches Some(text) ==> text.len() == value.len() && forall|i: int|
            0 <= i < value.len() ==> (#[trigger] text[i]) as int == value[i]),
{
    if header_text(value) is Some {
        assert forall|i: int| 0 <= i < value.len() implies #[trigger] value[i] == 9 || 32
            <= value[i] <= 126 by {
            assert(crate::headers::visible(value[i]));
        }
    }
}

/// A request whose session header is text, of any length, belongs to the session
/// of exactly that text, whatever its query says; and an answer with that header
/// opens that session.
pub proof fn law_session_by_header(
    fields: Map<Seq<char>, Seq<Seq<u8>>>,
    query: Option<Seq<char>>,
    id: Seq<char>,
)
    requires
        fields.contains_key("mcp-session-id"@),
        fields["mcp-session-id"@][0].len() == id.len(),
        forall|i: int|
            0 <= i < id.len() ==> (#[trigger] id[i]) as int
                == fields["mcp-session-id"@][0][i] && (id[i] as int == 9 || 32 <= id[i] as int
                <= 126),
    ensures
        session_in_header(fields) == Some(id),
        session_of(query, fields) == Some(id),
{
    lemma_session_header_name();
    let value = fields["mcp-session-id"@][0];
    assert forall|i: int| 0 <= i < value.len() implies #[trigger] value[i] == 9 || 32 <= value[i]
        <= 126 by {
        assert(id[i] as int == value[i]);
    }
    law_header_text(value);
    let text = header_text(value)->0;
    assert forall|i: int| 0 <= i < id.len() implies text[i] == id[i] by {
        assert(text[i] as int == value[i]);
        assert(id[i] as int == value[i]);
    }
    assert(text =~= id);
}

/// A request without a session header, or with one that is no text, belongs to
/// the session of its query, where that gives one.
pub proof fn law_session_by_query(
    fields: Map<Seq<char>, Seq<Seq<u8>>>,
    query: Seq<char>,
    at: int,
)
    requires
        fields.contains_key("mcp-session-id"@) ==> {
            let value = fields["mcp-session-id"@][0];
            0 <= at < value.len() && value[at] != 9 && !(32 <= value[at] <= 126)
        },
    ensures
        session_in_header(fields) is None,
        session_of(Some(query), fields) == id_in_query(query),
        session_of(None, fields) is None,
{
    lemma_session_header_name();
    if fields.contains_key("mcp-session-id"@) {
        law_header_text(fields["mcp-session-id"@][0]);
    }
}

/// A session that is noted belongs to its server from then on, also where it
/// belonged to another; all other sessions stay as they are.
pub proof fn law_noting_a_session(
    sessions: Map<Seq<char>, Seq<char>>,
    id: Seq<char>,
    server: Seq<char>,
    other: Seq<char>,
)
    ensures
        noted(sessions, id, server).contains_key(id),
        noted(sessions, id, server)[id] == server,
        other != id ==> (noted(sessions, id, server).contains_key(other) <==> sessions.contains_key(
            other,
        )),
        other != id && sessions.contains_key(other) ==> noted(sessions, id, server)[other]
            == sessions[other],
{
}

/// Every piece of a body is looked at, and nothing else.
pub proof fn law_every_piece_is_read(piece: &[u8])
    ensures
        id_in_body(Some(piece)) == id_in_stream(piece@),
        id_in_body(None) is None,
{
}

/// What is noted is the session that became known and the server that it came
/// from; where none became known, nothing is.
pub proof fn law_noted_session(
    entry: Option<SessionEntry>,
    id: Option<Seq<char>>,
    server: Seq<char>,
)
    requires
        notes(entry, id, server),
    ensures
        entry is Some <==> id is Some,
        (entry matches Some(e) ==> Some(e.id@) == id && e.server@ == server),
{
}

} // verus!
