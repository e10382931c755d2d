//! What holds of the gateway as a whole; the modules below say what holds of its
//! parts.

pub mod benchmark;
pub mod probe;
pub mod routing;
pub mod sessions;
pub mod text;

use vstd::prelude::*;
use vstd::utf8::{decode_utf8, encode_utf8};

use crate::benchmark::{direct_url, gateway_url, protocol, streaming_url, StatsModel};
use crate::config::{first_named, ServerModel};
use crate::gateway::{
    choice, ctx_after, ctx_for, cut_path, nonempty, notes, route, segments, session_endpoint,
    session_in_header, session_of, session_server, slug, under_vs, Choice, CtxModel, RouteError,
    SessionEntry, MCP_SESSION_ID,
};
use crate::headers::first_value;
use crate::probe::Probe;
use crate::sessions::{
    announced_id, id_char, id_in_lines, id_in_pair, id_in_query, id_in_stream, id_run, SESSION_KEY,
};
use crate::text::{
    before, lemma_span, lemma_span_is, lemma_trimmed_end_is, lines, onward, span, split_on,
    trimmed_end,
};

verus! {

/// Whether `rest` is nothing or goes on with a slash.
pub open spec fn below(rest: Seq<char>) -> bool {
    rest.len() == 0 || rest[0] == '/'
}

/// Whether `name` can be a path segment: not empty, and without a slash.
pub open spec fn is_segment(name: Seq<char>) -> bool {
    name.len() > 0 && !name.contains('/')
}

/// What a server sees of a path below its prefix: the root for nothing.
pub open spec fn rooted(rest: Seq<char>) -> Seq<char> {
    if rest.len() == 0 {
        "/"@
    } else {
        rest
    }
}

/// A segment at the start of a text is what stands before its first slash.
proof fn lemma_leading_segment(name: Seq<char>, rest: Seq<char>)
    requires
        !name.contains('/'),
        below(rest),
    ensures
        span(name + rest, '/') == name.len(),
        before(name + rest, '/') == name,
        onward(name + rest, '/') == rest,
{
    assert forall|j: int| 0 <= j < name.len() implies (name + rest)[j] != '/' by {
        assert(name.contains(name[j]));
    }
    lemma_span_is(name + rest, '/', name.len() as int);
    assert((name + rest).take(name.len() as int) =~= name);
    assert((name + rest).skip(name.len() as int) =~= rest);
}

/// The pieces of a path that begins with `/vs/` and a segment.
proof fn lemma_vs_segments(name: Seq<char>, rest: Seq<char>)
    requires
        is_segment(name),
        below(rest),
    ensures
        segments("/vs/"@ + name + rest).len() >= 2,
        segments("/vs/"@ + name + rest)[0] == "vs"@,
        segments("/vs/"@ + name + rest)[1] == name,
{
    reveal_strlit("/vs/");
    reveal_strlit("vs");
    let path = "/vs/"@ + name + rest;
    let inner = path.skip(1);
    let tail = name + rest;
    lemma_span_is(path, '/', 0);
    assert(path.take(0) =~= Seq::<char>::empty());
    lemma_span_is(inner, '/', 2);
    assert(inner.take(2) =~= "vs"@);
    assert(inner.skip(3) =~= tail);
    lemma_leading_segment(name, rest);
    let more = split_on(tail, '/');
    assert(more[0] == name) by {
        if rest.len() == 0 {
            assert(tail =~= name);
        }
    }
    let all = split_on(path, '/');
    assert(split_on(inner, '/') =~= seq!["vs"@] + more);
    assert(all =~= seq![Seq::<char>::empty()] + split_on(inner, '/'));
    assert(all.drop_first() =~= split_on(inner, '/'));
    assert(split_on(inner, '/').drop_first() =~= more);
    assert(nonempty(all) == nonempty(split_on(inner, '/')));
    assert(nonempty(split_on(inner, '/')) =~= seq!["vs"@] + nonempty(more));
    assert(nonempty(more) =~= seq![name] + nonempty(more.drop_first()));
}

/// A request under `/vs/<name>` goes to the MCP server of that name, and the
/// server sees what follows the name: the root where nothing follows.
pub proof fn law_vs_path_reaches_server(
    servers: Seq<ServerModel>,
    sessions: Map<Seq<char>, Seq<char>>,
    server: ServerModel,
    rest: Seq<char>,
    query: Option<Seq<char>>,
    fields: Map<Seq<char>, Seq<Seq<u8>>>,
    ctx: CtxModel,
)
    requires
        is_segment(server.name),
        below(rest),
        first_named(servers, server.name, Some(true)) == Some(server),
    ensures
        route(servers, sessions, "/vs/"@ + server.name + rest, query, fields) == Ok::<
            (ServerModel, bool),
            RouteError,
        >((server, true)),
        cut_path(ctx_for(ctx, server, true), "/vs/"@ + server.name + rest) == rooted(rest),
{
    let path = "/vs/"@ + server.name + rest;
    lemma_vs_segments(server.name, rest);
    lemma_first_named(servers, server.name, Some(true));
    let prefix = "/vs/"@ + server.name;
    assert(path.subrange(0, prefix.len() as int) =~= prefix);
    assert(path.skip(prefix.len() as int) =~= rest);
}

/// The server that is found is one of the servers, and answers to the name.
pub proof fn lemma_first_named(servers: Seq<ServerModel>, name: Seq<char>, mcp: Option<bool>)
    ensures
        (first_named(servers, name, mcp) matches Some(server) ==> {
            &&& servers.contains(server)
            &&& server.name == name
            &&& (mcp matches Some(kind) ==> server.mcp == kind)
        }),
    decreases servers.len(),
{
    if servers.len() > 0 {
        assert(servers.contains(servers[0]));
        lemma_first_named(servers.drop_first(), name, mcp);
        if first_named(servers.drop_first(), name, mcp) is Some {
            let server = first_named(servers.drop_first(), name, mcp)->0;
            if servers.drop_first().contains(server) {
                let i = choose|i: int|
                    0 <= i < servers.drop_first().len() && servers.drop_first()[i] == server;
                assert(servers[i + 1] == server);
            }
        }
    }
}

/// A request whose first segment names a server that is not an MCP server goes
/// to that server. Where the server's configuration says that the segment is
/// taken off, the server sees what follows it: the root where nothing follows.
pub proof fn law_slug_path_reaches_server(
    servers: Seq<ServerModel>,
    sessions: Map<Seq<char>, Seq<char>>,
    server: ServerModel,
    rest: Seq<char>,
    query: Option<Seq<char>>,
    fields: Map<Seq<char>, Seq<Seq<u8>>>,
    ctx: CtxModel,
)
    requires
        !server.name.contains('/'),
        below(rest),
        !under_vs("/"@ + server.name + rest),
        first_named(servers, server.name, Some(false)) == Some(server),
    ensures
        route(servers, sessions, "/"@ + server.name + rest, query, fields) == Ok::<
            (ServerModel, bool),
            RouteError,
        >((server, server.strip_slug)),
        cut_path(ctx_for(ctx, server, true), "/"@ + server.name + rest) == rooted(rest),
{
    reveal_strlit("/");
    let path = "/"@ + server.name + rest;
    lemma_first_named(servers, server.name, Some(false));
    lemma_leading_segment(server.name, rest);
    assert("/"@.is_prefix_of(path)) by {
        assert(path.subrange(0, 1) =~= "/"@);
    }
    assert(path.skip(1) =~= server.name + rest);
    lemma_span_is(path, '/', 0);
    assert(path.skip(0) =~= path);
    assert(path.drop_first() =~= server.name + rest);
    assert(path[0] == '/');
    if path.len() == 1 {
        assert(path =~= "/"@);
    }
}

/// A session leads every later request that belongs to it, on an endpoint for
/// sessions and not addressed to a server by name, to the server that it was
/// noted for, whatever other sessions have been noted since, as long as a server
/// of that name is configured.
pub proof fn law_session_stays_with_server(
    servers: Seq<ServerModel>,
    sessions: Map<Seq<char>, Seq<char>>,
    since: Map<Seq<char>, Seq<char>>,
    id: Seq<char>,
    server: ServerModel,
    path: Seq<char>,
    query: Option<Seq<char>>,
    fields: Map<Seq<char>, Seq<Seq<u8>>>,
)
    requires
        !since.contains_key(id),
        first_named(servers, server.name, None) == Some(server),
        !under_vs(path),
        first_named(servers, slug(path), Some(false)) is None,
        session_endpoint(servers, path),
        session_of(query, fields) == Some(id),
    ensures
        route(
            servers,
            sessions.insert(id, server.name).union_prefer_right(since),
            path,
            query,
            fields,
        ) == Ok::<(ServerModel, bool), RouteError>((server, false)),
{
}

/// Noting a session changes nothing for requests of other sessions, nor for
/// requests without one.
pub proof fn law_other_sessions_unaffected(
    servers: Seq<ServerModel>,
    sessions: Map<Seq<char>, Seq<char>>,
    id: Seq<char>,
    name: Seq<char>,
    path: Seq<char>,
    query: Option<Seq<char>>,
    fields: Map<Seq<char>, Seq<Seq<u8>>>,
)
    requires
        choice(servers, path, query, fields) != Choice::Session(id),
    ensures
        route(servers, sessions.insert(id, name), path, query, fields) == route(
            servers,
            sessions,
            path,
            query,
            fields,
        ),
{
}

/// The session of the header decides, whatever the query says.
pub proof fn law_header_before_query(
    query: Option<Seq<char>>,
    other: Option<Seq<char>>,
    fields: Map<Seq<char>, Seq<Seq<u8>>>,
)
    requires
        session_in_header(fields) is Some,
    ensures
        session_of(query, fields) == session_in_header(fields),
        session_of(query, fields) == session_of(other, fields),
{
}

/// The context after both steps about a request.
pub open spec fn ctx_at_end(
    servers: Seq<ServerModel>,
    sessions: Map<Seq<char>, Seq<char>>,
    ctx: CtxModel,
    path: Seq<char>,
    query: Option<Seq<char>>,
    fields: Map<Seq<char>, Seq<Seq<u8>>>,
) -> CtxModel {
    let chosen = choice(servers, path, query, fields);
    let after = ctx_after(ctx, path, chosen);
    match chosen {
        Choice::Session(id) => match session_server(servers, sessions, id) {
            Some(server) => ctx_for(after, server, false),
            None => after,
        },
        _ => after,
    }
}

/// The context of a request that reaches a server speaks of that server, and of
/// whether the path is cut. A request that is refused leaves its context as it
/// was, but for the length of the path.
pub proof fn law_context_follows_route(
    servers: Seq<ServerModel>,
    sessions: Map<Seq<char>, Seq<char>>,
    ctx: CtxModel,
    path: Seq<char>,
    query: Option<Seq<char>>,
    fields: Map<Seq<char>, Seq<Seq<u8>>>,
)
    ensures
        match route(servers, sessions, path, query, fields) {
            Ok((server, strip)) => ctx_at_end(servers, sessions, ctx, path, query, fields)
                == ctx_for(CtxModel { path_len: encode_utf8(path).len(), ..ctx }, server, strip),
            Err(_) => ctx_at_end(servers, sessions, ctx, path, query, fields) == (CtxModel {
                path_len: encode_utf8(path).len(),
                ..ctx
            }),
        },
{
}

/// Every server that a request reaches is configured.
pub proof fn law_only_configured_servers(
    servers: Seq<ServerModel>,
    sessions: Map<Seq<char>, Seq<char>>,
    path: Seq<char>,
    query: Option<Seq<char>>,
    fields: Map<Seq<char>, Seq<Seq<u8>>>,
)
    ensures
        (route(servers, sessions, path, query, fields) matches Ok((server, strip))
            ==> servers.contains(server)),
{
    if under_vs(path) {
        lemma_first_named(servers, segments(path)[1], Some(true));
    } else {
        lemma_first_named(servers, slug(path), Some(false));
        match choice(servers, path, query, fields) {
            Choice::Session(id) => {
                lemma_first_named(servers, sessions[id], None);
            },
            _ => {},
        }
    }
}

/// Without a session an MCP server is reached under `/vs/` only, and no other
/// server is reached there.
pub proof fn law_mcp_servers_under_vs(
    servers: Seq<ServerModel>,
    path: Seq<char>,
    query: Option<Seq<char>>,
    fields: Map<Seq<char>, Seq<Seq<u8>>>,
)
    ensures
        (choice(servers, path, query, fields) matches Choice::Server(server, strip)
            ==> server.mcp == under_vs(path)),
        under_vs(path) ==> !(choice(servers, path, query, fields) is Session),
{
    if under_vs(path) {
        lemma_first_named(servers, segments(path)[1], Some(true));
    } else {
        lemma_first_named(servers, slug(path), Some(false));
    }
}

/// No piece between separators holds a separator.
proof fn lemma_pieces_whole(s: Seq<char>, c: char, i: int)
    requires
        0 <= i < split_on(s, c).len(),
    ensures
        !split_on(s, c)[i].contains(c),
    decreases s.len(),
{
    lemma_span(s, c);
    if span(s, c) >= s.len() {
        assert(split_on(s, c)[i] == s);
    } else if i > 0 {
        lemma_pieces_whole(s.skip(span(s, c) as int + 1), c, i - 1);
        assert(split_on(s, c)[i] == split_on(s.skip(span(s, c) as int + 1), c)[i - 1]);
    } else {
        assert(split_on(s, c)[i] == before(s, c));
    }
}

/// What is kept of some pieces are pieces that are not empty.
proof fn lemma_nonempty_from(pieces: Seq<Seq<char>>, i: int)
    requires
        0 <= i < nonempty(pieces).len(),
    ensures
        nonempty(pieces)[i].len() > 0,
        pieces.contains(nonempty(pieces)[i]),
    decreases pieces.len(),
{
    if pieces[0].len() > 0 && i == 0 {
        assert(nonempty(pieces)[0] == pieces[0]);
    } else {
        let j = if pieces[0].len() > 0 {
            i - 1
        } else {
            i
        };
        lemma_nonempty_from(pieces.drop_first(), j);
        let found = nonempty(pieces)[i];
        assert(found == nonempty(pieces.drop_first())[j]);
        let k = choose|k: int|
            0 <= k < pieces.drop_first().len() && pieces.drop_first()[k] == found;
        assert(pieces[k + 1] == found);
    }
}

/// The segments of a path can be segments.
proof fn lemma_segments(path: Seq<char>, i: int)
    requires
        0 <= i < segments(path).len(),
    ensures
        is_segment(segments(path)[i]),
{
    let pieces = split_on(path, '/');
    lemma_nonempty_from(pieces, i);
    let k = choose|k: int| 0 <= k < pieces.len() && pieces[k] == segments(path)[i];
    lemma_pieces_whole(path, '/', k);
}

/// Where a path begins with `/vs/` and its second segment, a slash follows, or
/// nothing.
proof fn lemma_after_vs_name(path: Seq<char>, name: Seq<char>)
    requires
        under_vs(path),
        name == segments(path)[1],
        ("/vs/"@ + name).is_prefix_of(path),
    ensures
        below(path.skip(("/vs/"@ + name).len() as int)),
{
    reveal_strlit("/vs/");
    reveal_strlit("vs");
    lemma_segments(path, 1);
    let prefix = "/vs/"@ + name;
    let inner = path.skip(1);
    let tail = path.skip(4);
    assert(forall|j: int| 0 <= j < prefix.len() ==> prefix[j] == path[j]);
    assert(path[0] == '/' && path[1] == 'v' && path[2] == 's' && path[3] == '/');
    lemma_span_is(path, '/', 0);
    assert(path.take(0) =~= Seq::<char>::empty());
    lemma_span_is(inner, '/', 2);
    assert(inner.take(2) =~= "vs"@);
    assert(inner.skip(3) =~= tail);
    let all = split_on(path, '/');
    let more = split_on(tail, '/');
    assert(all.drop_first() =~= split_on(inner, '/'));
    assert(split_on(inner, '/').drop_first() =~= more);
    assert(nonempty(all) == nonempty(split_on(inner, '/')));
    assert(split_on(inner, '/')[0] == "vs"@);
    assert(nonempty(split_on(inner, '/')) =~= seq!["vs"@] + nonempty(more));
    lemma_span(tail, '/');
    assert forall|j: int| 0 <= j < name.len() implies tail[j] == name[j] && tail[j] != '/' by {
        assert(tail[j] == path[4 + j] == prefix[4 + j]);
        assert(name.contains(name[j]));
    }
    assert(span(tail, '/') >= name.len());
    assert(before(tail, '/').len() > 0);
    assert(more[0] == before(tail, '/')) by {
        if span(tail, '/') >= tail.len() {
            assert(before(tail, '/') =~= tail);
        }
    }
    assert(nonempty(more)[0] == more[0]);
    assert(span(tail, '/') == name.len());
    assert(path.skip(("/vs/"@ + name).len() as int) =~= tail.skip(name.len() as int));
}

/// The path that a server sees begins with a slash, and is the end of the
/// path that the client asked for, or the root.
pub proof fn law_cut_path_is_rooted(
    servers: Seq<ServerModel>,
    path: Seq<char>,
    query: Option<Seq<char>>,
    fields: Map<Seq<char>, Seq<Seq<u8>>>,
    server: ServerModel,
    strip: bool,
    ctx: CtxModel,
)
    requires
        path.len() > 0,
        path[0] == '/',
        choice(servers, path, query, fields) == Choice::Server(server, strip),
    ensures
        cut_path(ctx_for(ctx, server, strip), path).len() > 0,
        cut_path(ctx_for(ctx, server, strip), path)[0] == '/',
        cut_path(ctx_for(ctx, server, strip), path) == "/"@ || cut_path(
            ctx_for(ctx, server, strip),
            path,
        ).is_suffix_of(path),
{
    reveal_strlit("/");
    let seen = cut_path(ctx_for(ctx, server, strip), path);
    assert(path.is_suffix_of(path)) by {
        assert(path =~= path.subrange(0, path.len() as int));
    }
    law_mcp_servers_under_vs(servers, path, query, fields);
    if server.mcp {
        lemma_first_named(servers, segments(path)[1], Some(true));
        let prefix = "/vs/"@ + server.name;
        if prefix.is_prefix_of(path) {
            lemma_after_vs_name(path, server.name);
            assert(path.skip(prefix.len() as int).is_suffix_of(path));
        }
    } else {
        let rest = onward(path, '/');
        lemma_span(path, '/');
        if rest.len() > 0 {
            lemma_span(rest.drop_first(), '/');
            let tail = onward(rest.drop_first(), '/');
            if tail.len() > 0 {
                assert(tail =~= path.skip(path.len() - tail.len()));
                assert(tail.is_suffix_of(path));
            }
        }
    }
}

/// The run of id characters holds id characters only.
proof fn lemma_id_run(s: Seq<char>, i: int)
    requires
        0 <= i < id_run(s).len(),
    ensures
        id_char(id_run(s)[i]),
    decreases s.len(),
{
    if i > 0 {
        lemma_id_run(s.drop_first(), i - 1);
    }
}

/// An id that a line announces is not empty and holds id characters only.
proof fn lemma_announced_id(line: Seq<char>)
    ensures
        (announced_id(line) matches Some(id) ==> id.len() > 0 && forall|i: int|
            0 <= i < id.len() ==> id_char(#[trigger] id[i])),
    decreases line.len(),
{
    if line.len() > 0 {
        let run = id_run(line.skip(SESSION_KEY@.len() as int));
        assert forall|i: int| 0 <= i < run.len() implies id_char(#[trigger] run[i]) by {
            lemma_id_run(line.skip(SESSION_KEY@.len() as int), i);
        }
        lemma_announced_id(line.drop_first());
    }
}

/// The same of an id that some line announces.
proof fn lemma_id_in_lines(stream: Seq<Seq<char>>)
    ensures
        (id_in_lines(stream) matches Some(id) ==> id.len() > 0 && forall|i: int|
            0 <= i < id.len() ==> id_char(#[trigger] id[i])),
    decreases stream.len(),
{
    if stream.len() > 0 {
        lemma_announced_id(stream[0]);
        lemma_id_in_lines(stream.drop_first());
    }
}

/// A session id that an event stream announces is not empty, holds letters,
/// digits, `_` and `-` only, and is what the gateway reads from a query that
/// begins with it, whatever else follows there.
pub proof fn law_announced_id_comes_back(body: Seq<u8>, id: Seq<char>, rest: Seq<char>)
    requires
        id_in_stream(body) == Some(id),
        rest.len() == 0 || rest[0] == '&',
    ensures
        id.len() > 0,
        forall|i: int| 0 <= i < id.len() ==> id_char(#[trigger] id[i]),
        id_in_query(SESSION_KEY@ + id + rest) == Some(id),
{
    reveal_strlit("sessionId=");
    lemma_id_in_lines(lines(decode_utf8(body)));
    let pair = SESSION_KEY@ + id;
    let query = pair + rest;
    assert forall|j: int| 0 <= j < pair.len() implies query[j] != '&' by {
        if j >= SESSION_KEY@.len() {
            assert(query[j] == id[j - SESSION_KEY@.len()]);
        }
    }
    lemma_span_is(query, '&', pair.len() as int);
    assert(query.take(pair.len() as int) =~= pair);
    assert(split_on(query, '&')[0] == pair) by {
        if rest.len() == 0 {
            assert(query =~= pair);
        }
    }
    assert(pair.subrange(0, SESSION_KEY@.len() as int) =~= SESSION_KEY@);
    assert(pair.skip(SESSION_KEY@.len() as int) =~= id);
    assert(id_in_pair(pair) == Some(id));
}

/// A session that an answer opens in its header, once noted, leads the requests
/// that send the header back to the server that gave the answer: on an endpoint
/// for sessions, where the path names no other server.
pub proof fn law_opened_session_comes_back(
    servers: Seq<ServerModel>,
    sessions: Map<Seq<char>, Seq<char>>,
    server: ServerModel,
    answer: Map<Seq<char>, Seq<Seq<u8>>>,
    entry: SessionEntry,
    path: Seq<char>,
    query: Option<Seq<char>>,
    fields: Map<Seq<char>, Seq<Seq<u8>>>,
)
    requires
        first_named(servers, server.name, None) == Some(server),
        notes(Some(entry), session_in_header(answer), server.name),
        first_value(fields, MCP_SESSION_ID@) == first_value(answer, MCP_SESSION_ID@),
        !under_vs(path),
        first_named(servers, slug(path), Some(false)) is None,
        session_endpoint(servers, path),
    ensures
        route(servers, sessions.insert(entry.id@, entry.server@), path, query, fields) == Ok::<
            (ServerModel, bool),
            RouteError,
        >((server, false)),
{
}

/// A session that an event stream announces, once noted, leads the messages
/// that give it in their query to the server that sent the stream.
pub proof fn law_announced_session_comes_back(
    servers: Seq<ServerModel>,
    sessions: Map<Seq<char>, Seq<char>>,
    server: ServerModel,
    body: Seq<u8>,
    entry: SessionEntry,
    path: Seq<char>,
    rest: Seq<char>,
    fields: Map<Seq<char>, Seq<Seq<u8>>>,
)
    requires
        first_named(servers, server.name, None) == Some(server),
        notes(Some(entry), id_in_stream(body), server.name),
        session_in_header(fields) is None,
        rest.len() == 0 || rest[0] == '&',
        !under_vs(path),
        first_named(servers, slug(path), Some(false)) is None,
        session_endpoint(servers, path),
    ensures
        route(
            servers,
            sessions.insert(entry.id@, entry.server@),
            path,
            Some(SESSION_KEY@ + entry.id@ + rest),
            fields,
        ) == Ok::<(ServerModel, bool), RouteError>((server, false)),
{
    law_announced_id_comes_back(body, entry.id@, rest);
}

/// A URL is its host and port followed by its path. The host and port hold no
/// slash, the path begins with one, and the path slug is the path without its
/// leading slash and without the slashes at its end.
pub proof fn law_url_parts(server: ServerModel)
    ensures
        !server.host_port().contains('/'),
        server.base_path().len() > 0,
        server.base_path()[0] == '/',
        server.url.contains('/') ==> server.url == server.host_port() + server.base_path(),
        !server.url.contains('/') ==> server.url == server.host_port() && server.base_path()
            == "/"@,
        server.path_slug() == trimmed_end(server.base_path().drop_first(), '/'),
{
    reveal_strlit("/");
    reveal_strlit("");
    lemma_span(server.url, '/');
    assert(server.url =~= before(server.url, '/') + onward(server.url, '/'));
    if onward(server.url, '/').len() == 0 {
        assert(before(server.url, '/') =~= server.url);
        assert(server.base_path().drop_first() =~= ""@);
        lemma_trimmed_end_is(""@, '/', 0);
        assert(""@.take(0) =~= ""@);
    } else {
        assert(server.url[span(server.url, '/') as int] == '/');
    }
}

/// A client's counts after some calls, each of which succeeded or not and took
/// some time.
pub open spec fn after_calls(calls: Seq<(bool, nat)>) -> StatsModel
    decreases calls.len(),
{
    if calls.len() == 0 {
        StatsModel::zero()
    } else {
        after_calls(calls.drop_last()).with_call(calls.last().0, calls.last().1)
    }
}

/// How many of some calls succeeded.
pub open spec fn successes(calls: Seq<(bool, nat)>) -> nat
    decreases calls.len(),
{
    if calls.len() == 0 {
        0
    } else {
        successes(calls.drop_last()) + (if calls.last().0 {
            1nat
        } else {
            0
        })
    }
}

/// A client's counts hold every call once: as a success or as a failure.
pub proof fn law_every_call_counts_once(calls: Seq<(bool, nat)>)
    ensures
        after_calls(calls).total == calls.len(),
        after_calls(calls).successful == successes(calls),
        after_calls(calls).balanced(),
    decreases calls.len(),
{
    if calls.len() > 0 {
        law_every_call_counts_once(calls.drop_last());
    }
}

/// The counts of a run after some clients are through.
pub open spec fn after_clients(clients: Seq<StatsModel>) -> StatsModel
    decreases clients.len(),
{
    if clients.len() == 0 {
        StatsModel::zero()
    } else {
        after_clients(clients.drop_last()).with_client(clients.last())
    }
}

/// A run of clients that each make the same number of calls makes as many
/// calls as it announces, the clients times the calls, and each of them is a
/// success or a failure.
pub proof fn law_run_makes_announced_calls(clients: Seq<StatsModel>, requests: nat)
    requires
        forall|i: int|
            0 <= i < clients.len() ==> (#[trigger] clients[i]).total == requests
                && clients[i].balanced(),
    ensures
        after_clients(clients).total == clients.len() * requests,
        after_clients(clients).balanced(),
    decreases clients.len(),
{
    if clients.len() > 0 {
        let others = clients.drop_last();
        assert forall|i: int| 0 <= i < others.len() implies (#[trigger] others[i]).total == requests
            && others[i].balanced() by {
            assert(others[i] == clients[i]);
        }
        law_run_makes_announced_calls(others, requests);
        assert(clients.last() == clients[clients.len() - 1]);
        let n = others.len() as int;
        let r = requests as int;
        assert((n + 1) * r == n * r + r) by (nonlinear_arith);
    } else {
        assert(0 * requests == 0) by (nonlinear_arith);
    }
}

/// No more than all calls succeed.
pub proof fn law_success_share_within_hundred(stats: StatsModel)
    requires
        stats.balanced(),
    ensures
        stats.success_share() <= 100,
{
    let s = stats.successful as int;
    let t = stats.total as int;
    if t > 0 {
        assert((s * 100) / t <= 100) by (nonlinear_arith)
            requires
                0 <= s <= t,
                t > 0,
        ;
    }
}

/// What the streaming endpoint ends with is decided by the path alone.
proof fn lemma_endpoint_in_path(head: Seq<char>, path: Seq<char>)
    requires
        path.len() > 0,
        path[0] == '/',
    ensures
        "/http"@.is_suffix_of(head + path) == "/http"@.is_suffix_of(path),
{
    reveal_strlit("/http");
    let whole = head + path;
    let end = "/http"@;
    if path.len() >= end.len() {
        assert(whole.subrange(whole.len() - 5, whole.len() as int) =~= path.subrange(
            path.len() - 5,
            path.len() as int,
        ));
    } else if end.is_suffix_of(whole) {
        let at = 5 - path.len();
        assert(whole.subrange(whole.len() - 5, whole.len() as int)[at] == path[0]);
        assert(end[at] != '/');
    }
}

/// The streaming endpoint of a URL always ends with the endpoint's path, and
/// has no further streaming endpoint.
pub proof fn law_streaming_url_settles(base: Seq<char>)
    ensures
        "/http"@.is_suffix_of(streaming_url(base)),
        streaming_url(streaming_url(base)) == streaming_url(base),
{
    let longer = base + "/http"@;
    assert(longer.subrange(longer.len() - "/http"@.len(), longer.len() as int) =~= "/http"@);
}

/// The path at the gateway under which the streaming endpoint of `server` is.
pub open spec fn gateway_path(server: ServerModel) -> Seq<char> {
    "/vs/"@ + server.name + streaming_url(server.base_path())
}

/// The URL of an MCP server behind the gateway leads to that server: the
/// request that a benchmark client makes there reaches the server with the
/// path, streaming endpoint included, of the request that it makes over a
/// direct connection.
///
/// The URL of the server has a path; of one without a path the direct request
/// has one slash less.
pub proof fn law_gateway_and_direct_agree(
    servers: Seq<ServerModel>,
    sessions: Map<Seq<char>, Seq<char>>,
    server: ServerModel,
    fields: Map<Seq<char>, Seq<Seq<u8>>>,
    ctx: CtxModel,
)
    requires
        is_segment(server.name),
        server.url.contains('/'),
        first_named(servers, server.name, Some(true)) == Some(server),
    ensures
        streaming_url(direct_url(server)) == protocol(server) + "://"@ + server.host_port()
            + streaming_url(server.base_path()),
        streaming_url(gateway_url(server)) == protocol(server) + "://localhost:3000"@
            + gateway_path(server),
        route(servers, sessions, gateway_path(server), None, fields) == Ok::<
            (ServerModel, bool),
            RouteError,
        >((server, true)),
        cut_path(ctx_for(ctx, server, true), gateway_path(server)) == streaming_url(
            server.base_path(),
        ),
{
    reveal_strlit("://localhost:3000");
    reveal_strlit("://localhost:3000/vs/");
    reveal_strlit("/vs/");
    law_url_parts(server);
    let base = server.base_path();
    let path = streaming_url(base);
    let direct_head = protocol(server) + "://"@ + server.host_port();
    let gateway_head = protocol(server) + "://localhost:3000/vs/"@ + server.name;
    assert(direct_url(server) =~= direct_head + base);
    lemma_endpoint_in_path(direct_head, base);
    lemma_endpoint_in_path(gateway_head, base);
    assert(streaming_url(direct_url(server)) =~= direct_head + path);
    assert(streaming_url(gateway_url(server)) =~= gateway_head + path);
    assert("://localhost:3000/vs/"@ =~= "://localhost:3000"@ + "/vs/"@);
    assert(gateway_head + path =~= protocol(server) + "://localhost:3000"@ + ("/vs/"@ + server.name
        + path));
    assert(path[0] == '/');
    law_vs_path_reaches_server(servers, sessions, server, path, None, fields, ctx);
}

/// A probe asks for its lists one after another: after each the next, and
/// after the last none.
pub proof fn law_probe_goes_through_lists(probe: Probe, i: int)
    requires
        0 <= i < probe.listings().len(),
    ensures
        probe.after(probe.listings()[i]) == (if i + 1 < probe.listings().len() {
            Some(probe.listings()[i + 1])
        } else {
            None
        }),
{
}

} // verus!
