//! What holds of the choice of a server, stated on the list of servers itself,
//! and of what becomes of a request that a server is chosen for.

use vstd::prelude::*;
use vstd::utf8::encode_utf8;

use crate::config::{configured_path, first_named, McpConfig, McpServerConfig, ServerModel};
use crate::gateway::{
    carries_out, choice, cors_fields, ctx_after, ctx_after_session, ctx_for, cut_path, fields_of,
    fields_to_set, forwarded, kept, nonempty, path_to_set, peer_of, route, segments, session_of,
    session_outcome, session_server, slug, text_fields_of, without_slug, without_vs, Choice,
    CtxModel, HeaderField, McpCtx, PeerModel, PeerTarget, RouteError, UpstreamStep,
};
use crate::headers::lowercase;
use crate::laws::text::{law_pieces, law_run_is_trimmed, law_text_falls_into_its_parts};
use crate::text::split_on;

verus! {

/// A configuration is its servers, each with what is said of it.
pub proof fn law_configuration_is_its_servers(config: McpConfig, server: McpServerConfig)
    ensures
        config@.len() == config.servers@.len(),
        forall|i: int|
            0 <= i < config.servers@.len() ==> #[trigger] config@[i] == config.servers@[i]@,
        server@.name == server.name@,
        server@.url == server.url@,
        server@.strip_slug == server.strip_slug,
        server@.use_tls == server.use_tls,
        server@.mcp == server.mcp,
{
}

/// The first server with the name, and of the kind where one is wanted, is
/// found, whatever else is said of it.
pub proof fn law_first_of_the_name_is_found(
    servers: Seq<ServerModel>,
    name: Seq<char>,
    mcp: Option<bool>,
    i: int,
)
    requires
        0 <= i < servers.len(),
        servers[i].name == name,
        mcp is None || mcp == Some(servers[i].mcp),
        forall|j: int|
            0 <= j < i ==> (#[trigger] servers[j]).name != name || (mcp is Some && mcp != Some(
                servers[j].mcp,
            )),
    ensures
        first_named(servers, name, mcp) == Some(servers[i]),
    decreases i,
{
    if i > 0 {
        let later = servers.drop_first();
        assert forall|j: int| 0 <= j < i - 1 implies (#[trigger] later[j]).name != name || (mcp
            is Some && mcp != Some(later[j].mcp)) by {
            assert(later[j] == servers[j + 1]);
        }
        assert(servers[0].name != name || (mcp is Some && mcp != Some(servers[0].mcp)));
        law_first_of_the_name_is_found(later, name, mcp, i - 1);
    }
}

/// No server is found only where none has the name and the kind.
pub proof fn law_none_of_the_name_is_found(
    servers: Seq<ServerModel>,
    name: Seq<char>,
    mcp: Option<bool>,
)
    ensures
        first_named(servers, name, mcp) is None <==> forall|j: int|
            0 <= j < servers.len() ==> (#[trigger] servers[j]).name != name || (mcp is Some && mcp
                != Some(servers[j].mcp)),
    decreases servers.len(),
{
    if servers.len() > 0 {
        let later = servers.drop_first();
        law_none_of_the_name_is_found(later, name, mcp);
        if first_named(servers, name, mcp) is None {
            assert forall|j: int| 0 <= j < servers.len() implies (#[trigger] servers[j]).name
                != name || (mcp is Some && mcp != Some(servers[j].mcp)) by {
                if j > 0 {
                    assert(later[j - 1] == servers[j]);
                }
            }
        } else if forall|j: int|
            0 <= j < servers.len() ==> (#[trigger] servers[j]).name != name || (mcp is Some && mcp
                != Some(servers[j].mcp)) {
            assert forall|j: int| 0 <= j < later.len() implies (#[trigger] later[j]).name != name
                || (mcp is Some && mcp != Some(later[j].mcp)) by {
                assert(later[j] == servers[j + 1]);
            }
            assert(servers[0].name != name || (mcp is Some && mcp != Some(servers[0].mcp)));
        }
    }
}

/// A path is configured where any server has it, whatever else is said of that
/// server.
pub proof fn law_paths_of_all_servers_are_configured(servers: Seq<ServerModel>, wanted: Seq<char>)
    ensures
        forall|i: int|
            0 <= i < servers.len() ==> configured_path(
                servers,
                (#[trigger] servers[i]).path_slug(),
            ),
        (forall|i: int| 0 <= i < servers.len() ==> (#[trigger] servers[i]).path_slug() != wanted)
            ==> !configured_path(servers, wanted),
{
}

/// The parts of a URL that is put together from a host without a slash, and a
/// path or nothing.
pub proof fn law_url_falls_into_its_parts(server: ServerModel, host: Seq<char>, path: Seq<char>)
    requires
        server.url == host + path,
        !host.contains('/'),
        path.len() == 0 || path[0] == '/',
    ensures
        server.host_port() == host,
        path.len() > 0 ==> server.base_path() == path,
        path.len() == 0 ==> server.base_path() == "/"@,
        peer_of(server).address == host,
        peer_of(server).sni == host,
        peer_of(server).tls == server.use_tls,
{
    law_text_falls_into_its_parts(host, '/', path);
}

/// The path slug of a URL is its path without the slashes around it.
pub proof fn law_path_slug(
    server: ServerModel,
    host: Seq<char>,
    inner: Seq<char>,
    slashes: Seq<char>,
)
    requires
        !host.contains('/'),
        inner.len() == 0 || inner.last() != '/',
        forall|i: int| 0 <= i < slashes.len() ==> slashes[i] == '/',
        server.url == host + seq!['/'] + inner + slashes || (server.url == host && inner.len()
            == 0),
    ensures
        server.path_slug() == inner,
{
    reveal_strlit("");
    let path = seq!['/'] + (inner + slashes);
    if server.url == host {
        assert(host + Seq::<char>::empty() =~= host);
        law_text_falls_into_its_parts(host, '/', Seq::empty());
        assert(inner =~= ""@);
    }
    if server.url == host + seq!['/'] + inner + slashes {
        assert(server.url =~= host + path);
        law_text_falls_into_its_parts(host, '/', path);
        assert(path.drop_first() =~= inner + slashes);
        law_run_is_trimmed(inner, slashes, '/');
    }
}

/// The segments of a path are what stands between its slashes, empty pieces
/// left out: one piece after another.
pub proof fn law_segments_piece_by_piece(piece: Seq<char>, rest: Seq<char>)
    requires
        !piece.contains('/'),
    ensures
        segments(piece) == (if piece.len() == 0 {
            Seq::<Seq<char>>::empty()
        } else {
            seq![piece]
        }),
        segments(piece + seq!['/'] + rest) == (if piece.len() == 0 {
            segments(rest)
        } else {
            seq![piece] + segments(rest)
        }),
{
    reveal_with_fuel(nonempty, 2);
    law_pieces(piece, '/', rest);
    assert((seq![piece] + split_on(rest, '/')).drop_first() =~= split_on(rest, '/'));
    assert(seq![piece].drop_first() =~= Seq::<Seq<char>>::empty());
    assert(seq![piece] + Seq::<Seq<char>>::empty() =~= seq![piece]);
}

/// The slug of a path is its first segment, with a slash before it or without.
pub proof fn law_slug(name: Seq<char>, rest: Seq<char>)
    requires
        !name.contains('/'),
        rest.len() == 0 || rest[0] == '/',
    ensures
        slug(seq!['/'] + name + rest) == name,
        name.len() > 0 || rest.len() == 0 ==> slug(name + rest) == name,
{
    reveal_strlit("/");
    let path = seq!['/'] + name + rest;
    assert(path.subrange(0, 1) =~= "/"@);
    assert(path.skip(1) =~= name + rest);
    law_text_falls_into_its_parts(name, '/', rest);
    if name.len() > 0 {
        assert(name.contains(name[0]));
        assert((name + rest)[0] == name[0]);
        assert(!"/"@.is_prefix_of(name + rest)) by {
            if "/"@.is_prefix_of(name + rest) {
                assert((name + rest).subrange(0, 1)[0] == '/');
            }
        }
    }
}

/// Under `/vs/` the first MCP server with the name of the second segment is
/// chosen, and the path is cut.
pub proof fn law_vs_chooses_server(
    servers: Seq<ServerModel>,
    sessions: Map<Seq<char>, Seq<char>>,
    path: Seq<char>,
    query: Option<Seq<char>>,
    fields: Map<Seq<char>, Seq<Seq<u8>>>,
    i: int,
)
    requires
        segments(path).len() >= 2,
        segments(path)[0] == "vs"@,
        0 <= i < servers.len(),
        servers[i].name == segments(path)[1],
        servers[i].mcp,
        forall|j: int|
            0 <= j < i ==> (#[trigger] servers[j]).name != segments(path)[1] || !servers[j].mcp,
    ensures
        choice(servers, path, query, fields) == Choice::Server(servers[i], true),
        route(servers, sessions, path, query, fields) == Ok::<(ServerModel, bool), RouteError>(
            (servers[i], true),
        ),
{
    law_first_of_the_name_is_found(servers, segments(path)[1], Some(true), i);
}

/// Under `/vs/` a request is refused where no MCP server has the name.
pub proof fn law_vs_refuses_unknown_name(
    servers: Seq<ServerModel>,
    sessions: Map<Seq<char>, Seq<char>>,
    path: Seq<char>,
    query: Option<Seq<char>>,
    fields: Map<Seq<char>, Seq<Seq<u8>>>,
)
    requires
        segments(path).len() >= 2,
        segments(path)[0] == "vs"@,
        forall|j: int|
            0 <= j < servers.len() ==> (#[trigger] servers[j]).name != segments(path)[1]
                || !servers[j].mcp,
    ensures
        choice(servers, path, query, fields) == Choice::Refused(RouteError::McpServerNotFound),
        route(servers, sessions, path, query, fields) == Err::<(ServerModel, bool), RouteError>(
            RouteError::McpServerNotFound,
        ),
{
    law_none_of_the_name_is_found(servers, segments(path)[1], Some(true));
}

/// Elsewhere the first server that the slug names, and that is not an MCP
/// server, is chosen, and the path is cut where the server's configuration says
/// so.
pub proof fn law_slug_chooses_server(
    servers: Seq<ServerModel>,
    sessions: Map<Seq<char>, Seq<char>>,
    path: Seq<char>,
    query: Option<Seq<char>>,
    fields: Map<Seq<char>, Seq<Seq<u8>>>,
    i: int,
)
    requires
        segments(path).len() < 2 || segments(path)[0] != "vs"@,
        0 <= i < servers.len(),
        servers[i].name == slug(path),
        !servers[i].mcp,
        forall|j: int|
            0 <= j < i ==> (#[trigger] servers[j]).name != slug(path) || servers[j].mcp,
    ensures
        choice(servers, path, query, fields) == Choice::Server(servers[i], servers[i].strip_slug),
        route(servers, sessions, path, query, fields) == Ok::<(ServerModel, bool), RouteError>(
            (servers[i], servers[i].strip_slug),
        ),
{
    law_first_of_the_name_is_found(servers, slug(path), Some(false), i);
}

/// On `/message`, and on the path of any server, a request that is not addressed
/// by name goes by its session, and is refused where it has none.
pub proof fn law_session_endpoints_go_by_session(
    servers: Seq<ServerModel>,
    path: Seq<char>,
    query: Option<Seq<char>>,
    fields: Map<Seq<char>, Seq<Seq<u8>>>,
    i: int,
)
    requires
        segments(path).len() < 2 || segments(path)[0] != "vs"@,
        forall|j: int|
            0 <= j < servers.len() ==> (#[trigger] servers[j]).name != slug(path)
                || servers[j].mcp,
        slug(path) == "message"@ || (0 <= i < servers.len() && servers[i].path_slug() == slug(
            path,
        )),
    ensures
        choice(servers, path, query, fields) == (match session_of(query, fields) {
            Some(id) => Choice::Session(id),
            None => Choice::Refused(RouteError::SessionNotFound),
        }),
{
    law_none_of_the_name_is_found(servers, slug(path), Some(false));
}

/// Any other request is refused.
pub proof fn law_other_requests_are_refused(
    servers: Seq<ServerModel>,
    sessions: Map<Seq<char>, Seq<char>>,
    path: Seq<char>,
    query: Option<Seq<char>>,
    fields: Map<Seq<char>, Seq<Seq<u8>>>,
)
    requires
        segments(path).len() < 2 || segments(path)[0] != "vs"@,
        forall|j: int|
            0 <= j < servers.len() ==> (#[trigger] servers[j]).name != slug(path)
                || servers[j].mcp,
        slug(path) != "message"@,
        forall|j: int| 0 <= j < servers.len() ==> (#[trigger] servers[j]).path_slug() != slug(path),
    ensures
        choice(servers, path, query, fields) == Choice::Refused(RouteError::ServerNotFound),
        route(servers, sessions, path, query, fields) == Err::<(ServerModel, bool), RouteError>(
            RouteError::ServerNotFound,
        ),
{
    law_none_of_the_name_is_found(servers, slug(path), Some(false));
}

/// A session leads to the first server, of either kind, with the name that it
/// was noted under, and the path stays as it is.
pub proof fn law_session_chooses_server(
    servers: Seq<ServerModel>,
    sessions: Map<Seq<char>, Seq<char>>,
    path: Seq<char>,
    query: Option<Seq<char>>,
    fields: Map<Seq<char>, Seq<Seq<u8>>>,
    id: Seq<char>,
    i: int,
)
    requires
        sessions.contains_key(id),
        0 <= i < servers.len(),
        servers[i].name == sessions[id],
        forall|j: int| 0 <= j < i ==> (#[trigger] servers[j]).name != sessions[id],
    ensures
        session_server(servers, sessions, id) == Some(servers[i]),
        choice(servers, path, query, fields) == Choice::Session(id) ==> route(
            servers,
            sessions,
            path,
            query,
            fields,
        ) == Ok::<(ServerModel, bool), RouteError>((servers[i], false)),
{
    law_first_of_the_name_is_found(servers, sessions[id], None, i);
}

/// A session leads nowhere where it is not known, or no server has the name any
/// more.
pub proof fn law_session_without_server(
    servers: Seq<ServerModel>,
    sessions: Map<Seq<char>, Seq<char>>,
    path: Seq<char>,
    query: Option<Seq<char>>,
    fields: Map<Seq<char>, Seq<Seq<u8>>>,
    id: Seq<char>,
)
    requires
        sessions.contains_key(id) ==> forall|j: int|
            0 <= j < servers.len() ==> (#[trigger] servers[j]).name != sessions[id],
    ensures
        session_server(servers, sessions, id) is None,
        choice(servers, path, query, fields) == Choice::Session(id) ==> route(
            servers,
            sessions,
            path,
            query,
            fields,
        ) == Err::<(ServerModel, bool), RouteError>(RouteError::SessionNotFound),
{
    if sessions.contains_key(id) {
        law_none_of_the_name_is_found(servers, sessions[id], None);
    }
}

/// A session is answered with the host and port of the server that it leads to,
/// and the context speaks of that server; a session that leads nowhere is an
/// error, and the context stays.
pub proof fn law_session_is_answered(
    servers: Seq<ServerModel>,
    sessions: Map<Seq<char>, Seq<char>>,
    id: Seq<char>,
    ctx: CtxModel,
    i: int,
)
    ensures
        sessions.contains_key(id) && 0 <= i < servers.len() && servers[i].name == sessions[id] && (
        forall|j: int| 0 <= j < i ==> (#[trigger] servers[j]).name != sessions[id]) ==> {
            let after = ctx_after_session(ctx, servers, sessions, id);
            &&& (session_outcome(servers, sessions, id) matches Ok(peer) && peer.address
                == servers[i].host_port() && peer.sni == servers[i].host_port() && peer.tls
                == servers[i].use_tls)
            &&& !after.should_strip
            &&& after.use_tls == servers[i].use_tls
            &&& after.server_name == sessions[id]
            &&& after.path_len == ctx.path_len
            &&& after.base_path == servers[i].base_path()
            &&& after.is_mcp == servers[i].mcp
        },
        !sessions.contains_key(id) || (forall|j: int|
            0 <= j < servers.len() ==> (#[trigger] servers[j]).name != sessions[id]) ==> {
            &&& session_outcome(servers, sessions, id) == Err::<PeerModel, RouteError>(
                RouteError::SessionNotFound,
            )
            &&& ctx_after_session(ctx, servers, sessions, id) == ctx
        },
{
    if sessions.contains_key(id) && 0 <= i < servers.len() && servers[i].name == sessions[id] && (
    forall|j: int| 0 <= j < i ==> (#[trigger] servers[j]).name != sessions[id]) {
        law_first_of_the_name_is_found(servers, sessions[id], None, i);
    }
    if sessions.contains_key(id) {
        law_none_of_the_name_is_found(servers, sessions[id], None);
    }
}

/// What is done about a request is what was chosen: to connect to the server at
/// its host and port, to look the session up, or to answer with the error.
pub proof fn law_step_does_what_was_chosen(
    step: UpstreamStep,
    server: ServerModel,
    strip: bool,
    id: Seq<char>,
    error: RouteError,
)
    ensures
        carries_out(step, Choice::Server(server, strip)) <==> (step matches UpstreamStep::Connect(
            peer,
        ) && peer.address@ == server.host_port() && peer.sni@ == server.host_port() && peer.tls
            == server.use_tls),
        carries_out(step, Choice::Session(id)) <==> (step matches UpstreamStep::LookUp(wanted)
            && wanted@ == id),
        carries_out(step, Choice::Refused(error)) <==> step == UpstreamStep::Reject(error),
{
}

/// Contexts and targets are known by their fields, one for one.
pub proof fn law_contexts_by_fields(ctx: McpCtx, peer: PeerTarget)
    ensures
        ctx@.should_strip == ctx.should_strip,
        ctx@.use_tls == ctx.use_tls,
        ctx@.server_name == ctx.server_name@,
        ctx@.path_len == ctx.path_len,
        ctx@.base_path == ctx.base_path@,
        ctx@.is_mcp == ctx.is_mcp,
        peer@.address == peer.address@,
        peer@.tls == peer.tls,
        peer@.sni == peer.sni@,
{
}

/// A context that a server is noted in speaks of that server in each field.
pub proof fn law_context_speaks_of_server(ctx: CtxModel, server: ServerModel, strip: bool)
    ensures
        ctx_for(ctx, server, strip).should_strip == strip,
        ctx_for(ctx, server, strip).use_tls == server.use_tls,
        ctx_for(ctx, server, strip).server_name == server.name,
        ctx_for(ctx, server, strip).path_len == ctx.path_len,
        ctx_for(ctx, server, strip).base_path == server.base_path(),
        ctx_for(ctx, server, strip).is_mcp == server.mcp,
{
}

/// The context after the first step tells the length of the path in bytes, and
/// the server where one was chosen; else it stays as it was.
pub proof fn law_context_after_first_step(ctx: CtxModel, path: Seq<char>, chosen: Choice)
    ensures
        ctx_after(ctx, path, chosen).path_len == encode_utf8(path).len(),
        match chosen {
            Choice::Server(server, strip) => {
                let after = ctx_after(ctx, path, chosen);
                &&& after.should_strip == strip
                &&& after.use_tls == server.use_tls
                &&& after.server_name == server.name
                &&& after.base_path == server.base_path()
                &&& after.is_mcp == server.mcp
            },
            _ => {
                let after = ctx_after(ctx, path, chosen);
                &&& after.should_strip == ctx.should_strip
                &&& after.use_tls == ctx.use_tls
                &&& after.server_name == ctx.server_name
                &&& after.base_path == ctx.base_path
                &&& after.is_mcp == ctx.is_mcp
            },
        },
{
}

/// What follows the first segment of a path is what is left without it: the
/// root where nothing follows. It makes no difference what stands before the
/// first slash.
pub proof fn law_path_without_slug(
    head: Seq<char>,
    name: Seq<char>,
    rest: Seq<char>,
    ctx: CtxModel,
)
    requires
        !head.contains('/'),
        !name.contains('/'),
        rest.len() == 0 || rest[0] == '/',
    ensures
        rest.len() > 0 ==> without_slug(head + seq!['/'] + name + rest) == rest,
        rest.len() == 0 ==> without_slug(head + seq!['/'] + name + rest) == "/"@,
        without_slug(head) == "/"@,
        !ctx.is_mcp && rest.len() > 0 ==> cut_path(ctx, head + seq!['/'] + name + rest) == rest,
        !ctx.is_mcp && rest.len() == 0 ==> cut_path(ctx, head + seq!['/'] + name + rest) == "/"@,
        !ctx.is_mcp ==> cut_path(ctx, head) == head,
{
    reveal_strlit("/");
    let path = head + seq!['/'] + name + rest;
    let tail = seq!['/'] + (name + rest);
    assert(path =~= head + tail);
    law_text_falls_into_its_parts(head, '/', tail);
    assert(tail.drop_first() =~= name + rest);
    law_text_falls_into_its_parts(name, '/', rest);
    assert(head + Seq::<char>::empty() =~= head);
    law_text_falls_into_its_parts(head, '/', Seq::empty());
    assert(path[head.len() as int] == '/');
    assert(path.contains('/'));
    if path.len() == 1 {
        assert(path =~= "/"@);
    }
}

/// Whatever follows `/vs/` and the server's name is what the MCP server sees:
/// the root where nothing follows. A path that does not begin so stays.
pub proof fn law_path_without_vs(
    name: Seq<char>,
    rest: Seq<char>,
    path: Seq<char>,
    ctx: CtxModel,
)
    requires
        !("/vs/"@ + name).is_prefix_of(path),
    ensures
        rest.len() > 0 ==> without_vs("/vs/"@ + name + rest, name) == rest,
        rest.len() == 0 ==> without_vs("/vs/"@ + name + rest, name) == "/"@,
        without_vs(path, name) == path,
        ctx.is_mcp && ctx.server_name == name ==> {
            &&& rest.len() > 0 ==> cut_path(ctx, "/vs/"@ + name + rest) == rest
            &&& rest.len() == 0 ==> cut_path(ctx, "/vs/"@ + name + rest) == "/"@
            &&& cut_path(ctx, path) == path
        },
{
    let prefix = "/vs/"@ + name;
    assert((prefix + rest).subrange(0, prefix.len() as int) =~= prefix);
    assert((prefix + rest).skip(prefix.len() as int) =~= rest);
}

/// A preflight request goes on as it is. Of any other the path is cut where the
/// context says so and else stays, and the forwarded fields are set.
pub proof fn law_only_preflight_stays(
    ctx: CtxModel,
    method: Seq<char>,
    path: Seq<char>,
    fields: Map<Seq<char>, Seq<Seq<u8>>>,
)
    ensures
        path_to_set(ctx, "OPTIONS"@, path) is None,
        fields_to_set("OPTIONS"@, fields).len() == 0,
        method != "OPTIONS"@ ==> {
            &&& path_to_set(ctx, method, path) is Some <==> ctx.should_strip
            &&& (path_to_set(ctx, method, path) matches Some(seen) ==> seen == cut_path(ctx, path))
            &&& fields_to_set(method, fields) == forwarded(fields)
        },
{
}

/// The names of the forwarded fields in lower case.
proof fn lemma_forwarded_names()
    ensures
        lowercase("Connection"@) == "connection"@,
        lowercase("Accept"@) == "accept"@,
        lowercase("Cache-Control"@) == "cache-control"@,
        lowercase("Mcp-Session-Id"@) == "mcp-session-id"@,
{
    reveal_strlit("Connection");
    reveal_strlit("connection");
    reveal_strlit("Accept");
    reveal_strlit("accept");
    reveal_strlit("Cache-Control");
    reveal_strlit("cache-control");
    reveal_strlit("Mcp-Session-Id");
    reveal_strlit("mcp-session-id");
    assert(lowercase("Connection"@) =~= "connection"@);
    assert(lowercase("Accept"@) =~= "accept"@);
    assert(lowercase("Cache-Control"@) =~= "cache-control"@);
    assert(lowercase("Mcp-Session-Id"@) =~= "mcp-session-id"@);
}

/// Of the client's header fields the connection, the accepted types, the cache
/// control and the session go along, each once with its first value as it is,
/// and no other.
pub proof fn law_forwarded_fields(
    fields: Map<Seq<char>, Seq<Seq<u8>>>,
    name: Seq<char>,
    value: Seq<u8>,
)
    ensures
        forwarded(fields).contains((name, value)) <==> {
            ||| name == "Connection"@ && fields.contains_key("connection"@) && value
                == fields["connection"@][0]
            ||| name == "Accept"@ && fields.contains_key("accept"@) && value
                == fields["accept"@][0]
            ||| name == "Cache-Control"@ && fields.contains_key("cache-control"@) && value
                == fields["cache-control"@][0]
            ||| name == "Mcp-Session-Id"@ && fields.contains_key("mcp-session-id"@) && value
                == fields["mcp-session-id"@][0]
        },
        forall|i: int, j: int|
            0 <= i < j < forwarded(fields).len() ==> (#[trigger] forwarded(fields)[i]).0 != (
            #[trigger] forwarded(fields)[j]).0,
{
    reveal_strlit("Connection");
    reveal_strlit("Accept");
    reveal_strlit("Cache-Control");
    reveal_strlit("Mcp-Session-Id");
    lemma_forwarded_names();
    let a = kept(fields, "Connection"@);
    let b = kept(fields, "Accept"@);
    let c = kept(fields, "Cache-Control"@);
    let d = kept(fields, "Mcp-Session-Id"@);
    let all = forwarded(fields);
    let item = (name, value);
    assert(all =~= a + b + c + d);
    if a.contains(item) {
        assert(all[0] == item);
    }
    if b.contains(item) {
        assert(all[a.len() as int] == item);
    }
    if c.contains(item) {
        assert(all[(a.len() + b.len()) as int] == item);
    }
    if d.contains(item) {
        assert(all[(a.len() + b.len() + c.len()) as int] == item);
    }
    if a.len() > 0 {
        assert(a[0] == ("Connection"@, fields["connection"@][0]));
    }
    if b.len() > 0 {
        assert(b[0] == ("Accept"@, fields["accept"@][0]));
    }
    if c.len() > 0 {
        assert(c[0] == ("Cache-Control"@, fields["cache-control"@][0]));
    }
    if d.len() > 0 {
        assert(d[0] == ("Mcp-Session-Id"@, fields["mcp-session-id"@][0]));
    }
}

/// Every answer may be read by clients of any origin.
pub proof fn law_answers_for_any_origin()
    ensures
        cors_fields() == seq![
            ("Access-Control-Allow-Origin"@, "*"@),
            ("Access-Control-Allow-Headers"@, "Content-Type, Authorization"@),
            ("Access-Control-Allow-Methods"@, "GET, POST, OPTIONS"@),
        ],
{
    reveal_strlit("Content-Type");
    reveal_strlit(", ");
    reveal_strlit("Authorization");
    reveal_strlit("Content-Type, Authorization");
    assert("Content-Type"@ + ", "@ + "Authorization"@ =~= "Content-Type, Authorization"@);
    assert(cors_fields()[1].1 =~= "Content-Type, Authorization"@);
    assert(cors_fields() =~= seq![
        ("Access-Control-Allow-Origin"@, "*"@),
        ("Access-Control-Allow-Headers"@, "Content-Type, Authorization"@),
        ("Access-Control-Allow-Methods"@, "GET, POST, OPTIONS"@),
    ]);
}

/// Lists of header fields are known by names and values, one for one.
pub proof fn law_fields_by_names_and_values(
    fields: Seq<HeaderField>,
    texts: Seq<(&'static str, String)>,
)
    ensures
        fields_of(fields).len() == fields.len(),
        forall|i: int|
            0 <= i < fields.len() ==> fields_of(fields)[i] == (
                (#[trigger] fields[i]).name@,
                fields[i].value@,
            ),
        text_fields_of(texts).len() == texts.len(),
        forall|i: int|
            0 <= i < texts.len() ==> text_fields_of(texts)[i] == (
                (#[trigger] texts[i]).0@,
                texts[i].1@,
            ),
{
}

} // verus!
