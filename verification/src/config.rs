//! The configured servers: what `mcp-servers.toml` says of each, and the parts
//! of a server's URL.

use vstd::prelude::*;

use crate::text::{before, onward, same, split_before, trim_end, trimmed_end, uncons};

verus! {

/// One configured server.
#[derive(Debug, Clone)]
pub struct McpServerConfig {
    /// The name by which requests choose the server.
    pub name: String,
    /// Host, port and path, without a scheme: `127.0.0.1:8111/http`.
    pub url: String,
    /// Whether the first path segment is taken off before the request goes on.
    pub strip_slug: bool,
    /// Whether the server is spoken to over TLS.
    pub use_tls: bool,
    /// Whether this is an MCP server, reached under `/vs/<name>/`.
    pub mcp: bool,
}

/// All configured servers, in the order of the file.
#[derive(Debug, Clone)]
pub struct McpConfig {
    pub servers: Vec<McpServerConfig>,
}

/// What a server's configuration says, as mathematical values.
pub struct ServerModel {
    pub name: Seq<char>,
    pub url: Seq<char>,
    pub strip_slug: bool,
    pub use_tls: bool,
    pub mcp: bool,
}

impl ServerModel {
    /// Host and port: what stands before the first slash of the URL.
    pub open spec fn host_port(self) -> Seq<char> {
        before(self.url, '/')
    }

    /// The path from its leading slash on; the root where the URL has no path.
    pub open spec fn base_path(self) -> Seq<char> {
        if onward(self.url, '/').len() == 0 {
            "/"@
        } else {
            onward(self.url, '/')
        }
    }

    /// The path without its leading slash and without slashes at its end.
    pub open spec fn path_slug(self) -> Seq<char> {
        if onward(self.url, '/').len() == 0 {
            ""@
        } else {
            trimmed_end(onward(self.url, '/').drop_first(), '/')
        }
    }
}

impl View for McpServerConfig {
    type V = ServerModel;

    open spec fn view(&self) -> ServerModel {
        ServerModel {
            name: self.name@,
            url: self.url@,
            strip_slug: self.strip_slug,
            use_tls: self.use_tls,
            mcp: self.mcp,
        }
    }
}

impl View for McpConfig {
    type V = Seq<ServerModel>;

    open spec fn view(&self) -> Seq<ServerModel> {
        Seq::new(self.servers@.len(), |i: int| self.servers@[i]@)
    }
}

/// Whether `server` bears `name` and, where `mcp` says which kind is wanted, is
/// of that kind.
pub open spec fn answers_to(server: ServerModel, name: Seq<char>, mcp: Option<bool>) -> bool {
    server.name == name && (mcp matches Some(kind) ==> server.mcp == kind)
}

/// The first of `servers` that answers to `name`, of the kind that is wanted.
pub open spec fn first_named(
    servers: Seq<ServerModel>,
    name: Seq<char>,
    mcp: Option<bool>,
) -> Option<ServerModel>
    decreases servers.len(),
{
    if servers.len() == 0 {
        None
    } else if answers_to(servers[0], name, mcp) {
        Some(servers[0])
    } else {
        first_named(servers.drop_first(), name, mcp)
    }
}

/// Whether `slug` is the path slug of some server.
pub open spec fn configured_path(servers: Seq<ServerModel>, slug: Seq<char>) -> bool {
    exists|i: int| 0 <= i < servers.len() && (#[trigger] servers[i]).path_slug() == slug
}

impl McpServerConfig {
    /// The path slug of the URL: `127.0.0.1:8111/http` gives `http`.
    pub fn path_slug(&self) -> (slug: &str)
        ensures
            slug@ == self@.path_slug(),
    {
        let path = split_before(self.url.as_str(), '/').1;
        match uncons(path) {
            Some((_, inner)) => trim_end(inner, '/'),
            None => "",
        }
    }

    /// Host and port of the URL: `127.0.0.1:8111/http` gives `127.0.0.1:8111`.
    pub fn host_port(&self) -> (address: &str)
        ensures
            address@ == self@.host_port(),
    {
        split_before(self.url.as_str(), '/').0
    }

    /// The path of the URL with its leading slash: `127.0.0.1:8111/http` gives
    /// `/http`.
    pub fn base_path(&self) -> (path: &str)
        ensures
            path@ == self@.base_path(),
    {
        let path = split_before(self.url.as_str(), '/').1;
        if path.is_empty() {
            "/"
        } else {
            path
        }
    }
}

impl McpConfig {
    /// The first server called `name`; where `mcp` says which kind is wanted,
    /// the first of that kind.
    pub fn find(&self, name: &str, mcp: Option<bool>) -> (found: Option<&McpServerConfig>)
        ensures
            found is Some <==> first_named(self@, name@, mcp) is Some,
            (found matches Some(server) ==> first_named(self@, name@, mcp) == Some(server@)),
    {
        let mut i: usize = 0;
        assert(self@.skip(0) =~= self@);
        while i < self.servers.len()
            invariant
                i <= self.servers@.len(),
                first_named(self@, name@, mcp) == first_named(self@.skip(i as int), name@, mcp),
            decreases self.servers@.len() - i,
        {
            let server = &self.servers[i];
            let kind_fits = match mcp {
                Some(kind) => server.mcp == kind,
                None => true,
            };
            assert(self@.skip(i as int)[0] == server@);
            if kind_fits && same(server.name.as_str(), name) {
                return Some(server);
            }
            assert(self@.skip(i as int).drop_first() =~= self@.skip(i as int + 1));
            i = i + 1;
        }
        None
    }

    /// Whether `slug` is the path slug of some server.
    pub fn is_configured_path(&self, slug: &str) -> (r: bool)
        ensures
            r == configured_path(self@, slug@),
    {
        let mut i: usize = 0;
        while i < self.servers.len()
            invariant
                i <= self.servers@.len(),
                forall|j: int| 0 <= j < i ==> (#[trigger] self@[j]).path_slug() != slug@,
            decreases self.servers@.len() - i,
        {
            assert(self@[i as int] == self.servers@[i as int]@);
            if same(self.servers[i].path_slug(), slug) {
                return true;
            }
            i = i + 1;
        }
        false
    }
}

} // verus!
