//! Sessions: which server a session id belongs to, and where session ids are
//! found in query strings and in event streams.

use rustc_hash::FxHashMap;
use vstd::prelude::*;
use vstd::utf8::{decode_utf8, valid_utf8};

use crate::text::{lines, occurs, owned_text_of, split_on, text_of};

verus! {

/// `rustc_hash::FxBuildHasher`, the hasher of an `FxHashMap`.
#[verifier::external_type_specification]
#[verifier::external_body]
pub struct ExFxBuildHasher(rustc_hash::FxBuildHasher);

/// What stands in an event stream, or in a query, before a session id.
pub const SESSION_KEY: &'static str = "sessionId=";

/// The same key in lower case, which queries may use.
pub const SESSION_KEY_LOWER: &'static str = "sessionid=";

/// The field of an event stream that carries data.
pub const DATA_FIELD: &'static str = "data:";

/// The regular expression for a session id: the key, then the id as its first
/// group.
pub const SESSION_ID_PATTERN: &'static str = "sessionId=([a-zA-Z0-9_-]+)";

/// The entries of a session table: for each session id the name of the server
/// that the session belongs to.
pub uninterp spec fn session_entries(entries: FxHashMap<String, String>) -> Map<
    Seq<char>,
    Seq<char>,
>;

/// Whether `c` may stand in a session id that an event stream announces.
pub open spec fn id_char(c: char) -> bool {
    ('a' <= c && c <= 'z') || ('A' <= c && c <= 'Z') || ('0' <= c && c <= '9') || c == '_' || c
        == '-'
}

/// The run of session id characters that `s` begins with.
pub open spec fn id_run(s: Seq<char>) -> Seq<char>
    decreases s.len(),
{
    if s.len() > 0 && id_char(s[0]) {
        seq![s[0]] + id_run(s.drop_first())
    } else {
        seq![]
    }
}

/// The id that the first occurrence of the key in `line` with at least one id
/// character after it announces: all the id characters that follow.
pub open spec fn announced_id(line: Seq<char>) -> Option<Seq<char>>
    decreases line.len(),
{
    if line.len() == 0 {
        None
    } else if SESSION_KEY@.is_prefix_of(line) && id_run(
        line.skip(SESSION_KEY@.len() as int),
    ).len() > 0 {
        Some(id_run(line.skip(SESSION_KEY@.len() as int)))
    } else {
        announced_id(line.drop_first())
    }
}

/// The id that the first data line with one announces.
pub open spec fn id_in_lines(stream: Seq<Seq<char>>) -> Option<Seq<char>>
    decreases stream.len(),
{
    if stream.len() == 0 {
        None
    } else if DATA_FIELD@.is_prefix_of(stream[0]) && announced_id(stream[0]) is Some {
        announced_id(stream[0])
    } else {
        id_in_lines(stream.drop_first())
    }
}

/// The session id that an event stream announces, where the stream is text.
pub open spec fn id_in_stream(body: Seq<u8>) -> Option<Seq<char>> {
    if valid_utf8(body) {
        id_in_lines(lines(decode_utf8(body)))
    } else {
        None
    }
}

/// The value of one `key=value` pair of a query, where the key is the session
/// key in either spelling.
pub open spec fn id_in_pair(pair: Seq<char>) -> Option<Seq<char>> {
    if SESSION_KEY@.is_prefix_of(pair) {
        Some(pair.skip(SESSION_KEY@.len() as int))
    } else if SESSION_KEY_LOWER@.is_prefix_of(pair) {
        Some(pair.skip(SESSION_KEY_LOWER@.len() as int))
    } else {
        None
    }
}

/// The session id of the first pair that holds one.
pub open spec fn id_in_pairs(pairs: Seq<Seq<char>>) -> Option<Seq<char>>
    decreases pairs.len(),
{
    if pairs.len() == 0 {
        None
    } else if id_in_pair(pairs[0]) is Some {
        id_in_pair(pairs[0])
    } else {
        id_in_pairs(pairs.drop_first())
    }
}

/// The session id that a query string holds.
pub open spec fn id_in_query(query: Seq<char>) -> Option<Seq<char>> {
    id_in_pairs(split_on(query, '&'))
}

/// The sessions after `id` was noted to belong to `server`.
pub open spec fn noted(
    sessions: Map<Seq<char>, Seq<char>>,
    id: Seq<char>,
    server: Seq<char>,
) -> Map<Seq<char>, Seq<char>> {
    sessions.insert(id, server)
}

/// `FxHashMap::default`: a map without entries.
#[verifier::external_body]
fn empty_entries() -> (entries: FxHashMap<String, String>)
    ensures
        session_entries(entries) =~= Map::empty(),
{
    FxHashMap::default()
}

/// `FxHashMap::insert`: `id` now has `server`, whatever it had before, and no
/// other entry changes.
#[verifier::external_body]
fn insert_entry(entries: &mut FxHashMap<String, String>, id: String, server: String)
    ensures
        session_entries(*final(entries)) == session_entries(*old(entries)).insert(id@, server@),
{
    entries.insert(id, server);
}

/// `FxHashMap::get`: the server that `id` has, where it has one.
#[verifier::external_body]
fn get_entry<'a>(entries: &'a FxHashMap<String, String>, id: &str) -> (server: Option<&'a String>)
    ensures
        server is Some <==> session_entries(*entries).contains_key(id@),
        (server matches Some(name) ==> name@ == session_entries(*entries)[id@]),
{
    entries.get(id)
}

/// `regex::Regex::new` and `regex::Regex::captures`, and the text of the first
/// group: for the session id pattern the leftmost match, and of the id
/// characters after its key as many as follow.
#[verifier::external_body]
pub(crate) fn capture_id(pattern: &str, line: &str) -> (id: Option<String>)
    requires
        pattern@ == SESSION_ID_PATTERN@,
    ensures
        owned_text_of(id) == announced_id(line@),
{
    let regex = regex::Regex::new(pattern).unwrap();
    let captures = regex.captures(line)?;
    captures.get(1).map(|group| group.as_str().to_string())
}

/// `std::str::from_utf8`: the text that `body` encodes, where it is UTF-8.
#[verifier::external_body]
pub(crate) fn utf8_text<'a>(body: &'a [u8]) -> (text: Option<&'a str>)
    ensures
        text_of(text) == (if valid_utf8(body@) { Some(decode_utf8(body@)) } else { None }),
{
    std::str::from_utf8(body).ok()
}

/// The sessions that the gateway knows: session id to server name.
pub struct SessionTable {
    entries: FxHashMap<String, String>,
}

impl View for SessionTable {
    type V = Map<Seq<char>, Seq<char>>;

    closed spec fn view(&self) -> Map<Seq<char>, Seq<char>> {
        session_entries(self.entries)
    }
}

impl SessionTable {
    /// A table without sessions.
    pub fn new() -> (table: Self)
        ensures
            table@ == Map::<Seq<char>, Seq<char>>::empty(),
    {
        SessionTable { entries: empty_entries() }
    }

    /// Notes that session `id` belongs to `server`.
    pub fn insert(&mut self, id: String, server: String)
        ensures
            final(self)@ == old(self)@.insert(id@, server@),
            final(self)@ == noted(old(self)@, id@, server@),
    {
        insert_entry(&mut self.entries, id, server);
    }

    /// The server that session `id` belongs to, where the session is known.
    pub fn get(&self, id: &str) -> (server: Option<&String>)
        ensures
            server is Some <==> self@.contains_key(id@),
            (server matches Some(name) ==> name@ == self@[id@]),
    {
        get_entry(&self.entries, id)
    }
}

/// A line that announces an id holds the key.
pub proof fn lemma_announced_has_key(line: Seq<char>)
    requires
        announced_id(line) is Some,
    ensures
        occurs(SESSION_KEY@, line),
    decreases line.len(),
{
    if SESSION_KEY@.is_prefix_of(line) {
        assert(line.skip(0) =~= line);
    } else {
        lemma_announced_has_key(line.drop_first());
        let i = choose|i: int|
            0 <= i <= line.drop_first().len() && SESSION_KEY@.is_prefix_of(
                #[trigger] line.drop_first().skip(i),
            );
        assert(line.skip(i + 1) =~= line.drop_first().skip(i));
    }
}

} // verus!
