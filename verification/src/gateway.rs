//! The gateway: which server a request goes to, how the request is changed on
//! its way, and what is learnt from the answer.

use vstd::prelude::*;
use vstd::utf8::encode_utf8;

use crate::config::{configured_path, first_named, McpConfig, McpServerConfig, ServerModel};
use crate::headers::{
    first_value, get_header, header_fields, header_text, header_value_text, plain_name,
};
use crate::sessions::{
    announced_id, capture_id, id_in_lines, id_in_pairs, id_in_query, id_in_stream,
    lemma_announced_has_key, utf8_text, SessionTable, DATA_FIELD, SESSION_ID_PATTERN, SESSION_KEY,
    SESSION_KEY_LOWER,
};
use crate::text::{
    before, contains, first_line, lemma_span, lines, onward, owned_text_of, same, split,
    split_before, split_on, strip_prefix, text_of, texts, uncons,
};

verus! {

pub const CORS_ORIGIN: &'static str = "Access-Control-Allow-Origin";

pub const CORS_HEADERS: &'static str = "Access-Control-Allow-Headers";

pub const CORS_METHODS: &'static str = "Access-Control-Allow-Methods";

pub const STAR: &'static str = "*";

pub const CONTENT_TYPE: &'static str = "Content-Type";

pub const AUTHORIZATION: &'static str = "Authorization";

pub const GET_POST_OPTIONS: &'static str = "GET, POST, OPTIONS";

pub const CONNECTION: &'static str = "Connection";

pub const ACCEPT: &'static str = "Accept";

pub const CACHE_CONTROL: &'static str = "Cache-Control";

pub const MCP_SESSION_ID: &'static str = "Mcp-Session-Id";

/// What the gateway remembers of one request between its steps.
pub struct McpCtx {
    /// Whether the path is cut before the request goes on.
    pub should_strip: bool,
    /// Whether the server is spoken to over TLS.
    pub use_tls: bool,
    /// The name of the server that the request goes to.
    pub server_name: String,
    /// How many bytes the path of the request has.
    pub path_len: usize,
    /// The path of the server's URL.
    pub base_path: String,
    /// Whether the server is an MCP server, reached under `/vs/<name>/`.
    pub is_mcp: bool,
}

/// A request's context as mathematical values.
pub struct CtxModel {
    pub should_strip: bool,
    pub use_tls: bool,
    pub server_name: Seq<char>,
    pub path_len: nat,
    pub base_path: Seq<char>,
    pub is_mcp: bool,
}

impl View for McpCtx {
    type V = CtxModel;

    open spec fn view(&self) -> CtxModel {
        CtxModel {
            should_strip: self.should_strip,
            use_tls: self.use_tls,
            server_name: self.server_name@,
            path_len: self.path_len as nat,
            base_path: self.base_path@,
            is_mcp: self.is_mcp,
        }
    }
}

/// Where a request is sent: the address to connect to, whether over TLS, and
/// the name to ask for there.
pub struct PeerTarget {
    pub address: String,
    pub tls: bool,
    pub sni: String,
}

/// A connection target as mathematical values.
pub struct PeerModel {
    pub address: Seq<char>,
    pub tls: bool,
    pub sni: Seq<char>,
}

impl View for PeerTarget {
    type V = PeerModel;

    open spec fn view(&self) -> PeerModel {
        PeerModel { address: self.address@, tls: self.tls, sni: self.sni@ }
    }
}

/// Why a request goes to no server.
#[derive(Debug, Clone, Copy, PartialEq, Eq, Structural)]
pub enum RouteError {
    /// Under `/vs/` a name that no MCP server has.
    McpServerNotFound,
    /// A session endpoint, without a session that leads to a server.
    SessionNotFound,
    /// Neither a server's name nor a session endpoint.
    ServerNotFound,
}

impl RouteError {
    /// The status that the client is answered with.
    pub fn code(&self) -> (code: &'static str)
        ensures
            code@ == "404"@,
    {
        "404"
    }

    /// The text of each error.
    pub open spec fn text(self) -> Seq<char> {
        match self {
            RouteError::McpServerNotFound => "MCP server not found"@,
            RouteError::SessionNotFound => "Session not found"@,
            RouteError::ServerNotFound => "Server not found"@,
        }
    }

    /// What went wrong, in words.
    pub fn explanation(&self) -> (text: &'static str)
        ensures
            text@ == self.text(),
    {
        match self {
            RouteError::McpServerNotFound => "MCP server not found",
            RouteError::SessionNotFound => "Session not found",
            RouteError::ServerNotFound => "Server not found",
        }
    }
}

/// What is to be done next about a request.
pub enum UpstreamStep {
    /// Connect to this server.
    Connect(PeerTarget),
    /// Look this session up, then ask for its server.
    LookUp(String),
    /// Answer with this error.
    Reject(RouteError),
}

/// A header field: its name and the bytes of its value.
pub struct HeaderField {
    pub name: &'static str,
    pub value: Vec<u8>,
}

impl View for HeaderField {
    type V = (Seq<char>, Seq<u8>);

    open spec fn view(&self) -> (Seq<char>, Seq<u8>) {
        (self.name@, self.value@)
    }
}

/// How a request is changed before it goes to its server.
pub struct RequestEdit {
    /// The new path, where the path changes. The query does not go along.
    pub path: Option<String>,
    /// The header fields to set, in this order.
    pub headers: Vec<HeaderField>,
}

/// A session that became known, and the server that it belongs to.
pub struct SessionEntry {
    pub id: String,
    pub server: String,
}

/// How an answer is changed before it goes to the client, and what it tells.
pub struct ResponseEdit {
    /// The header fields to set, in this order: names and values.
    pub headers: Vec<(&'static str, String)>,
    /// The session that the answer opens, where it opens one.
    pub session: Option<SessionEntry>,
}

/// What the request alone, without the sessions, decides.
pub enum Choice {
    /// This server; and whether the path is cut.
    Server(ServerModel, bool),
    /// The server of this session.
    Session(Seq<char>),
    /// No server.
    Refused(RouteError),
}

/// The first segment of a path: what stands between its leading slash, where it
/// has one, and the next.
pub open spec fn slug(path: Seq<char>) -> Seq<char> {
    before(
        if "/"@.is_prefix_of(path) {
            path.skip(1)
        } else {
            path
        },
        '/',
    )
}

/// The pieces that are not empty.
pub open spec fn nonempty(pieces: Seq<Seq<char>>) -> Seq<Seq<char>>
    decreases pieces.len(),
{
    if pieces.len() == 0 {
        seq![]
    } else if pieces[0].len() > 0 {
        seq![pieces[0]] + nonempty(pieces.drop_first())
    } else {
        nonempty(pieces.drop_first())
    }
}

/// The segments of a path: what stands between its slashes, empty pieces left
/// out.
pub open spec fn segments(path: Seq<char>) -> Seq<Seq<char>> {
    nonempty(split_on(path, '/'))
}

/// Whether a path is of the form `/vs/<name>` or goes on below that.
pub open spec fn under_vs(path: Seq<char>) -> bool {
    segments(path).len() >= 2 && segments(path)[0] == "vs"@
}

/// Whether a path leads to the endpoints that sessions are used on.
pub open spec fn session_endpoint(servers: Seq<ServerModel>, path: Seq<char>) -> bool {
    slug(path) == "message"@ || configured_path(servers, slug(path))
}

/// The session id that a message's headers hold.
pub open spec fn session_in_header(fields: Map<Seq<char>, Seq<Seq<u8>>>) -> Option<Seq<char>> {
    match first_value(fields, MCP_SESSION_ID@) {
        Some(value) => header_text(value),
        None => None,
    }
}

/// The session that a request belongs to: the one of its header or, where the
/// header says none, the one of its query.
pub open spec fn session_of(
    query: Option<Seq<char>>,
    fields: Map<Seq<char>, Seq<Seq<u8>>>,
) -> Option<Seq<char>> {
    if session_in_header(fields) is Some {
        session_in_header(fields)
    } else {
        match query {
            Some(q) => id_in_query(q),
            None => None,
        }
    }
}

/// What is decided about a request from the servers and the request alone.
pub open spec fn choice(
    servers: Seq<ServerModel>,
    path: Seq<char>,
    query: Option<Seq<char>>,
    fields: Map<Seq<char>, Seq<Seq<u8>>>,
) -> Choice {
    if under_vs(path) {
        match first_named(servers, segments(path)[1], Some(true)) {
            Some(server) => Choice::Server(server, true),
            None => Choice::Refused(RouteError::McpServerNotFound),
        }
    } else {
        match first_named(servers, slug(path), Some(false)) {
            Some(server) => Choice::Server(server, server.strip_slug),
            None => if session_endpoint(servers, path) {
                match session_of(query, fields) {
                    Some(id) => Choice::Session(id),
                    None => Choice::Refused(RouteError::SessionNotFound),
                }
            } else {
                Choice::Refused(RouteError::ServerNotFound)
            },
        }
    }
}

/// The server that session `id` leads to: the first that bears the name under
/// which the session is known.
pub open spec fn session_server(
    servers: Seq<ServerModel>,
    sessions: Map<Seq<char>, Seq<char>>,
    id: Seq<char>,
) -> Option<ServerModel> {
    if sessions.contains_key(id) {
        first_named(servers, sessions[id], None)
    } else {
        None
    }
}

/// Where a request ends up: at which server, and whether its path is cut; or
/// with which error.
pub open spec fn route(
    servers: Seq<ServerModel>,
    sessions: Map<Seq<char>, Seq<char>>,
    path: Seq<char>,
    query: Option<Seq<char>>,
    fields: Map<Seq<char>, Seq<Seq<u8>>>,
) -> Result<(ServerModel, bool), RouteError> {
    match choice(servers, path, query, fields) {
        Choice::Server(server, strip) => Ok((server, strip)),
        Choice::Session(id) => match session_server(servers, sessions, id) {
            Some(server) => Ok((server, false)),
            None => Err(RouteError::SessionNotFound),
        },
        Choice::Refused(error) => Err(error),
    }
}

/// Where `server` is connected to.
pub open spec fn peer_of(server: ServerModel) -> PeerModel {
    PeerModel { address: server.host_port(), tls: server.use_tls, sni: server.host_port() }
}

/// The context of a request that goes to `server`.
pub open spec fn ctx_for(ctx: CtxModel, server: ServerModel, strip: bool) -> CtxModel {
    CtxModel {
        should_strip: strip,
        use_tls: server.use_tls,
        server_name: server.name,
        path_len: ctx.path_len,
        base_path: server.base_path(),
        is_mcp: server.mcp,
    }
}

/// The path from its second slash on; the root where it has none.
pub open spec fn without_slug(path: Seq<char>) -> Seq<char> {
    let rest = onward(path, '/');
    if rest.len() == 0 || onward(rest.drop_first(), '/').len() == 0 {
        "/"@
    } else {
        onward(rest.drop_first(), '/')
    }
}

/// The path without `/vs/<server_name>` before it, the root where nothing else
/// is there; a path that does not begin so, as it is.
pub open spec fn without_vs(path: Seq<char>, server_name: Seq<char>) -> Seq<char> {
    let prefix = "/vs/"@ + server_name;
    if !prefix.is_prefix_of(path) {
        path
    } else if path.len() == prefix.len() {
        "/"@
    } else {
        path.skip(prefix.len() as int)
    }
}

/// The path that a server sees, of a request whose path is cut.
pub open spec fn cut_path(ctx: CtxModel, path: Seq<char>) -> Seq<char> {
    if ctx.is_mcp {
        without_vs(path, ctx.server_name)
    } else if path.contains('/') && path.len() > 1 {
        without_slug(path)
    } else {
        path
    }
}

/// The names and values of header fields.
pub open spec fn fields_of(fields: Seq<HeaderField>) -> Seq<(Seq<char>, Seq<u8>)> {
    Seq::new(fields.len(), |i: int| fields[i]@)
}

/// The names and values of textual header fields.
pub open spec fn text_fields_of(fields: Seq<(&'static str, String)>) -> Seq<
    (Seq<char>, Seq<char>),
> {
    Seq::new(fields.len(), |i: int| (fields[i].0@, fields[i].1@))
}

/// The field called `name` with its first value, where `fields` has it.
pub open spec fn kept(fields: Map<Seq<char>, Seq<Seq<u8>>>, name: Seq<char>) -> Seq<
    (Seq<char>, Seq<u8>),
> {
    match first_value(fields, name) {
        Some(value) => seq![(name, value)],
        None => seq![],
    }
}

/// What looking session `id` up comes to: where to connect to, or the error.
pub open spec fn session_outcome(
    servers: Seq<ServerModel>,
    sessions: Map<Seq<char>, Seq<char>>,
    id: Seq<char>,
) -> Result<PeerModel, RouteError> {
    match session_server(servers, sessions, id) {
        Some(server) => Ok(peer_of(server)),
        None => Err(RouteError::SessionNotFound),
    }
}

/// The context after session `id` was looked up.
pub open spec fn ctx_after_session(
    ctx: CtxModel,
    servers: Seq<ServerModel>,
    sessions: Map<Seq<char>, Seq<char>>,
    id: Seq<char>,
) -> CtxModel {
    match session_server(servers, sessions, id) {
        Some(server) => ctx_for(ctx, server, false),
        None => ctx,
    }
}

/// The header fields of the client that the server sees as the client sent
/// them.
pub open spec fn forwarded(fields: Map<Seq<char>, Seq<Seq<u8>>>) -> Seq<(Seq<char>, Seq<u8>)> {
    kept(fields, CONNECTION@) + kept(fields, ACCEPT@) + kept(fields, CACHE_CONTROL@) + kept(
        fields,
        MCP_SESSION_ID@,
    )
}

/// The path that a request gets on its way, where its path changes.
pub open spec fn path_to_set(ctx: CtxModel, method: Seq<char>, path: Seq<char>) -> Option<
    Seq<char>,
> {
    if method == "OPTIONS"@ || !ctx.should_strip {
        None
    } else {
        Some(cut_path(ctx, path))
    }
}

/// The header fields that are set on a request on its way.
pub open spec fn fields_to_set(
    method: Seq<char>,
    fields: Map<Seq<char>, Seq<Seq<u8>>>,
) -> Seq<(Seq<char>, Seq<u8>)> {
    if method == "OPTIONS"@ {
        seq![]
    } else {
        forwarded(fields)
    }
}

/// The header fields that every answer gets, for clients of other origins.
pub open spec fn cors_fields() -> Seq<(Seq<char>, Seq<char>)> {
    seq![
        (CORS_ORIGIN@, STAR@),
        (CORS_HEADERS@, CONTENT_TYPE@ + ", "@ + AUTHORIZATION@),
        (CORS_METHODS@, GET_POST_OPTIONS@),
    ]
}

/// The session id that a piece of a body announces, where there is a piece.
pub open spec fn id_in_body(body: Option<&[u8]>) -> Option<Seq<char>> {
    match body {
        Some(bytes) => id_in_stream(bytes@),
        None => None,
    }
}

/// Whether `entry` says that session `id`, where there is one, belongs to
/// `server`.
pub open spec fn notes(
    entry: Option<SessionEntry>,
    id: Option<Seq<char>>,
    server: Seq<char>,
) -> bool {
    match id {
        Some(i) => entry matches Some(e) && e.id@ == i && e.server@ == server,
        None => entry is None,
    }
}

/// Whether `step` is how `choice` is carried out.
pub open spec fn carries_out(step: UpstreamStep, choice: Choice) -> bool {
    match choice {
        Choice::Server(server, _) => step matches UpstreamStep::Connect(peer) && peer@ == peer_of(
            server,
        ),
        Choice::Session(id) => step matches UpstreamStep::LookUp(wanted) && wanted@ == id,
        Choice::Refused(error) => step matches UpstreamStep::Reject(e) && e == error,
    }
}

/// The context after the first step about a request.
pub open spec fn ctx_after(ctx: CtxModel, path: Seq<char>, choice: Choice) -> CtxModel {
    let measured = CtxModel { path_len: encode_utf8(path).len(), ..ctx };
    match choice {
        Choice::Server(server, strip) => ctx_for(measured, server, strip),
        _ => measured,
    }
}

/// The gateway as one request sees it: the configuration of that moment. The
/// sessions are shared, and come in where they are looked at.
pub struct DynamicMcpGateway<'a> {
    pub conf: &'a McpConfig,
}

impl<'a> DynamicMcpGateway<'a> {
    /// The first segment of a path.
    pub fn extract_slug<'p>(path: &'p str) -> (r: &'p str)
        ensures
            r@ == slug(path@),
    {
        proof {
            reveal_strlit("/");
        }
        let inner = match strip_prefix(path, "/") {
            Some(rest) => rest,
            None => path,
        };
        split_before(inner, '/').0
    }

    /// The path without its first segment.
    pub fn strip_slug_from_path(path: &str) -> (r: String)
        ensures
            r@ == without_slug(path@),
    {
        if let Some((_, rest)) = uncons(split_before(path, '/').1) {
            let tail = split_before(rest, '/').1;
            if !tail.is_empty() {
                return tail.to_string();
            }
        }
        "/".to_string()
    }

    /// The path without `/vs/<server_name>` before it.
    pub fn strip_vs_prefix(path: &str, server_name: &str) -> (r: String)
        ensures
            r@ == without_vs(path@, server_name@),
    {
        let mut prefix: String = "/vs/".to_string();
        prefix.append(server_name);
        match strip_prefix(path, prefix.as_str()) {
            Some(rest) => if rest.is_empty() {
                "/".to_string()
            } else {
                rest.to_string()
            },
            None => path.to_string(),
        }
    }

    /// The session id that a query string holds: the value of its first pair with
    /// the session key.
    pub fn extract_session_from_query<'q>(query: &'q str) -> (id: Option<&'q str>)
        ensures
            text_of(id) == id_in_query(query@),
    {
        let pairs = split(query, '&');
        let mut i: usize = 0;
        assert(texts(pairs@).skip(0) =~= texts(pairs@));
        while i < pairs.len()
            invariant
                i <= pairs@.len(),
                id_in_query(query@) == id_in_pairs(texts(pairs@).skip(i as int)),
            decreases pairs@.len() - i,
        {
            let pair = pairs[i];
            assert(texts(pairs@).skip(i as int)[0] == pair@);
            assert(texts(pairs@).skip(i as int).drop_first() =~= texts(pairs@).skip(i as int + 1));
            if let Some(id) = strip_prefix(pair, SESSION_KEY) {
                return Some(id);
            }
            if let Some(id) = strip_prefix(pair, SESSION_KEY_LOWER) {
                return Some(id);
            }
            i = i + 1;
        }
        None
    }

    /// The session id that an event stream announces: of the lines that begin with
    /// `data:`, the first that holds the key and an id after it says which.
    pub fn extract_session_from_sse_body(body: &[u8]) -> (id: Option<String>)
        ensures
            owned_text_of(id) == id_in_stream(body@),
    {
        let text = match utf8_text(body) {
            Some(text) => text,
            None => {
                return None;
            },
        };
        let mut rest: &str = text;
        while !rest.is_empty()
            invariant
                id_in_lines(lines(rest@)) == id_in_lines(lines(text@)),
                id_in_stream(body@) == id_in_lines(lines(text@)),
            decreases rest@.len(),
        {
            let (line, tail) = first_line(rest);
            assert(lines(rest@)[0] == line@);
            assert(lines(rest@).drop_first() =~= lines(tail@));
            if strip_prefix(line, DATA_FIELD).is_some() && contains(line, SESSION_KEY) {
                let id = capture_id(SESSION_ID_PATTERN, line);
                if id.is_some() {
                    return id;
                }
            } else {
                proof {
                    if announced_id(line@) is Some {
                        lemma_announced_has_key(line@);
                    }
                }
            }
            rest = tail;
        }
        None
    }

    /// The context of a request that has not been routed.
    pub fn new_ctx() -> (ctx: McpCtx)
        ensures
            ctx@ == (CtxModel {
                should_strip: false,
                use_tls: false,
                server_name: Seq::empty(),
                path_len: 0,
                base_path: Seq::empty(),
                is_mcp: false,
            }),
    {
        McpCtx {
            should_strip: false,
            use_tls: false,
            server_name: String::new(),
            path_len: 0,
            base_path: String::new(),
            is_mcp: false,
        }
    }
}

/// The segments of a path.
fn path_segments<'p>(path: &'p str) -> (found: Vec<&'p str>)
    ensures
        texts(found@) == segments(path@),
{
    let pieces = split(path, '/');
    let mut found: Vec<&'p str> = Vec::new();
    let mut i: usize = 0;
    assert(texts(found@) + nonempty(texts(pieces@).skip(0)) =~= segments(path@)) by {
        assert(texts(pieces@).skip(0) =~= texts(pieces@));
    }
    while i < pieces.len()
        invariant
            i <= pieces@.len(),
            texts(found@) + nonempty(texts(pieces@).skip(i as int)) == segments(path@),
        decreases pieces@.len() - i,
    {
        let piece = pieces[i];
        let ghost rest = texts(pieces@).skip(i as int);
        let ghost done = texts(found@);
        assert(rest[0] == piece@);
        assert(rest.drop_first() =~= texts(pieces@).skip(i as int + 1));
        if !piece.is_empty() {
            found.push(piece);
            assert(texts(found@) =~= done.push(piece@));
            assert(done.push(piece@) + nonempty(rest.drop_first()) =~= done + nonempty(rest));
        }
        i = i + 1;
    }
    assert(texts(found@) =~= segments(path@));
    found
}

/// Notes in the context that the request goes to `server`.
fn assign(ctx: &mut McpCtx, server: &McpServerConfig, strip: bool)
    ensures
        final(ctx)@ == ctx_for(old(ctx)@, server@, strip),
{
    ctx.should_strip = strip;
    ctx.use_tls = server.use_tls;
    ctx.server_name = server.name.clone();
    ctx.base_path = server.base_path().to_string();
    ctx.is_mcp = server.mcp;
}

/// Where `server` is connected to.
fn target(server: &McpServerConfig) -> (peer: PeerTarget)
    ensures
        peer@ == peer_of(server@),
{
    PeerTarget {
        address: server.host_port().to_string(),
        tls: server.use_tls,
        sni: server.host_port().to_string(),
    }
}

/// The session id that a message's headers hold.
fn header_session(headers: &http::HeaderMap<http::HeaderValue>) -> (id: Option<String>)
    ensures
        owned_text_of(id) == session_in_header(header_fields(*headers)),
{
    proof {
        lemma_header_names_plain();
    }
    match get_header(headers, MCP_SESSION_ID) {
        Some(value) => header_value_text(&value),
        None => None,
    }
}

/// Adds the field called `name`, where `headers` has it.
fn keep(
    headers: &http::HeaderMap<http::HeaderValue>,
    name: &'static str,
    into: &mut Vec<HeaderField>,
)
    requires
        plain_name(name@),
    ensures
        fields_of(final(into)@) == fields_of(old(into)@) + kept(header_fields(*headers), name@),
{
    let ghost had = fields_of(into@);
    if let Some(value) = get_header(headers, name) {
        into.push(HeaderField { name, value });
        assert(fields_of(into@) =~= had.push((name@, value@)));
    }
    assert(fields_of(into@) =~= had + kept(header_fields(*headers), name@));
}

/// The session that a request belongs to.
fn request_session(
    query: Option<&str>,
    headers: &http::HeaderMap<http::HeaderValue>,
) -> (id: Option<String>)
    ensures
        owned_text_of(id) == session_of(text_of(query), header_fields(*headers)),
{
    let id = header_session(headers);
    if id.is_some() {
        return id;
    }
    match query {
        Some(q) => match DynamicMcpGateway::extract_session_from_query(q) {
            Some(id) => Some(id.to_string()),
            None => None,
        },
        None => None,
    }
}

/// The names of the headers that the gateway reads are plain.
proof fn lemma_header_names_plain()
    ensures
        plain_name(CONNECTION@),
        plain_name(ACCEPT@),
        plain_name(CACHE_CONTROL@),
        plain_name(MCP_SESSION_ID@),
{
    reveal_strlit("Connection");
    reveal_strlit("Accept");
    reveal_strlit("Cache-Control");
    reveal_strlit("Mcp-Session-Id");
}

impl<'a> DynamicMcpGateway<'a> {
    /// Decides, from the configuration and the request alone, which server a
    /// request goes to, and notes it in the context.
    ///
    /// Under `/vs/<name>` it is the MCP server of that name; else the server,
    /// not an MCP server, that the first segment names; else, on `/message` and
    /// on the path of any server, the server of the request's session, which
    /// the caller looks up and hands to `session_peer`.
    pub fn upstream_peer(
        &self,
        path: &str,
        query: Option<&str>,
        headers: &http::HeaderMap<http::HeaderValue>,
        ctx: &mut McpCtx,
    ) -> (step: UpstreamStep)
        ensures
            carries_out(step, choice(self.conf@, path@, text_of(query), header_fields(*headers))),
            final(ctx)@ == ctx_after(
                old(ctx)@,
                path@,
                choice(self.conf@, path@, text_of(query), header_fields(*headers)),
            ),
    {
        ctx.path_len = path.as_bytes().len();
        let slug = Self::extract_slug(path);
        let parts = path_segments(path);
        if parts.len() >= 2 && same(parts[0], "vs") {
            assert(texts(parts@)[1] == segments(path@)[1]);
            return match self.conf.find(parts[1], Some(true)) {
                Some(server) => {
                    assign(ctx, server, true);
                    UpstreamStep::Connect(target(server))
                },
                None => UpstreamStep::Reject(RouteError::McpServerNotFound),
            };
        }
        if let Some(server) = self.conf.find(slug, Some(false)) {
            assign(ctx, server, server.strip_slug);
            return UpstreamStep::Connect(target(server));
        }
        if same(slug, "message") || self.conf.is_configured_path(slug) {
            return match request_session(query, headers) {
                Some(id) => UpstreamStep::LookUp(id),
                None => UpstreamStep::Reject(RouteError::SessionNotFound),
            };
        }
        UpstreamStep::Reject(RouteError::ServerNotFound)
    }

    /// The server of session `id`, noted in the context.
    pub fn session_peer(
        &self,
        sessions: &SessionTable,
        id: &str,
        ctx: &mut McpCtx,
    ) -> (peer: Result<PeerTarget, RouteError>)
        ensures
            match session_server(self.conf@, sessions@, id@) {
                Some(server) => {
                    &&& peer matches Ok(p)
                    &&& p@ == peer_of(server)
                    &&& final(ctx)@ == ctx_for(old(ctx)@, server, false)
                },
                None => {
                    &&& peer == Err::<PeerTarget, RouteError>(RouteError::SessionNotFound)
                    &&& final(ctx)@ == old(ctx)@
                },
            },
            match session_outcome(self.conf@, sessions@, id@) {
                Ok(target) => peer matches Ok(p) && p@ == target,
                Err(error) => peer matches Err(e) && e == error,
            },
            final(ctx)@ == ctx_after_session(old(ctx)@, self.conf@, sessions@, id@),
    {
        if let Some(name) = sessions.get(id) {
            if let Some(server) = self.conf.find(name.as_str(), None) {
                assign(ctx, server, false);
                return Ok(target(server));
            }
        }
        Err(RouteError::SessionNotFound)
    }

    /// How a request is changed before it goes to its server.
    ///
    /// A request with method `OPTIONS` stays as it is. Of any other, the path is
    /// cut where the context says so, and the fields that streams and sessions
    /// need are set to what the client sent.
    pub fn upstream_request_filter(
        ctx: &McpCtx,
        method: &str,
        path: &str,
        headers: &http::HeaderMap<http::HeaderValue>,
    ) -> (edit: RequestEdit)
        ensures
            method@ == "OPTIONS"@ ==> edit.path is None && edit.headers@.len() == 0,
            method@ != "OPTIONS"@ ==> {
                &&& owned_text_of(edit.path) == (if ctx.should_strip {
                    Some(cut_path(ctx@, path@))
                } else {
                    None
                })
                &&& fields_of(edit.headers@) == forwarded(header_fields(*headers))
            },
            owned_text_of(edit.path) == path_to_set(ctx@, method@, path@),
            fields_of(edit.headers@) == fields_to_set(method@, header_fields(*headers)),
    {
        let mut fields: Vec<HeaderField> = Vec::new();
        if same(method, "OPTIONS") {
            assert(fields_of(fields@) =~= Seq::<(Seq<char>, Seq<u8>)>::empty());
            return RequestEdit { path: None, headers: fields };
        }
        let new_path = if ctx.should_strip {
            if ctx.is_mcp {
                Some(Self::strip_vs_prefix(path, ctx.server_name.as_str()))
            } else {
                proof {
                    lemma_span(path@, '/');
                }
                if !split_before(path, '/').1.is_empty() && path.unicode_len() > 1 {
                    Some(Self::strip_slug_from_path(path))
                } else {
                    Some(path.to_string())
                }
            }
        } else {
            None
        };
        proof {
            lemma_header_names_plain();
            assert(fields_of(fields@) =~= Seq::<(Seq<char>, Seq<u8>)>::empty());
        }
        keep(headers, CONNECTION, &mut fields);
        keep(headers, ACCEPT, &mut fields);
        keep(headers, CACHE_CONTROL, &mut fields);
        keep(headers, MCP_SESSION_ID, &mut fields);
        assert(fields_of(fields@) =~= forwarded(header_fields(*headers)));
        RequestEdit { path: new_path, headers: fields }
    }

    /// How an answer is changed before it goes to the client: it may be read by
    /// clients of any origin. A session id in its headers belongs to the server
    /// that the request went to.
    pub fn response_filter(
        ctx: &McpCtx,
        headers: &http::HeaderMap<http::HeaderValue>,
    ) -> (edit: ResponseEdit)
        ensures
            text_fields_of(edit.headers@) == cors_fields(),
            notes(edit.session, session_in_header(header_fields(*headers)), ctx.server_name@),
    {
        let mut allowed: String = CONTENT_TYPE.to_string();
        allowed.append(", ");
        allowed.append(AUTHORIZATION);
        let mut fields: Vec<(&'static str, String)> = Vec::new();
        fields.push((CORS_ORIGIN, STAR.to_string()));
        fields.push((CORS_HEADERS, allowed));
        fields.push((CORS_METHODS, GET_POST_OPTIONS.to_string()));
        assert(text_fields_of(fields@) =~= cors_fields());
        let session = match header_session(headers) {
            Some(id) => Some(SessionEntry { id, server: ctx.server_name.clone() }),
            None => None,
        };
        ResponseEdit { headers: fields, session }
    }

    /// The session that a piece of an answer's body announces; it belongs to
    /// the server that the request went to.
    pub fn response_body_filter(
        ctx: &McpCtx,
        body: Option<&[u8]>,
    ) -> (session: Option<SessionEntry>)
        ensures
            notes(
                session,
                match body {
                    Some(bytes) => id_in_stream(bytes@),
                    None => None,
                },
                ctx.server_name@,
            ),
            notes(session, id_in_body(body), ctx.server_name@),
    {
        match body {
            Some(bytes) => match Self::extract_session_from_sse_body(bytes) {
                Some(id) => Some(SessionEntry { id, server: ctx.server_name.clone() }),
                None => None,
            },
            None => None,
        }
    }
}

} // verus!
