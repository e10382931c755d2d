//! The benchmark: what is measured, how it adds up, and what is said of it.

use vstd::prelude::*;

use crate::arguments::{display_object, object_text};
use crate::config::{first_named, McpConfig, McpServerConfig, ServerModel};
use crate::text::{append_decimal, decimal, ends_with, owned_text_of, owned_texts, same};

verus! {

/// The longest time that can be measured, in nanoseconds.
pub const MAX_NANOS: u128 = 18446744073709551615999999999;

/// What calls came to. Times are in nanoseconds.
#[derive(Debug, Clone, Copy, PartialEq, Eq, Structural)]
pub struct BenchmarkStats {
    pub total_requests: usize,
    pub successful_requests: usize,
    pub failed_requests: usize,
    pub total_latency: u128,
    pub elapsed: u128,
}

/// The counts and times of some calls, without bounds.
pub struct StatsModel {
    pub total: nat,
    pub successful: nat,
    pub failed: nat,
    pub latency: nat,
    pub elapsed: nat,
}

impl View for BenchmarkStats {
    type V = StatsModel;

    open spec fn view(&self) -> StatsModel {
        StatsModel {
            total: self.total_requests as nat,
            successful: self.successful_requests as nat,
            failed: self.failed_requests as nat,
            latency: self.total_latency as nat,
            elapsed: self.elapsed as nat,
        }
    }
}

impl StatsModel {
    /// Nothing measured yet.
    pub open spec fn zero() -> StatsModel {
        StatsModel { total: 0, successful: 0, failed: 0, latency: 0, elapsed: 0 }
    }

    /// Whether every call that was counted either succeeded or failed.
    pub open spec fn balanced(self) -> bool {
        self.total == self.successful + self.failed
    }

    /// One more call, which took `latency`.
    pub open spec fn with_call(self, succeeded: bool, latency: nat) -> StatsModel {
        StatsModel {
            total: self.total + 1,
            successful: self.successful + (if succeeded {
                1nat
            } else {
                0
            }),
            failed: self.failed + (if succeeded {
                0nat
            } else {
                1
            }),
            latency: self.latency + latency,
            elapsed: self.elapsed,
        }
    }

    /// The calls of one more client.
    pub open spec fn with_client(self, client: StatsModel) -> StatsModel {
        StatsModel {
            total: self.total + client.total,
            successful: self.successful + client.successful,
            failed: self.failed + client.failed,
            latency: self.latency + client.latency,
            elapsed: self.elapsed,
        }
    }

    /// The calls of a client that makes none of them.
    pub open spec fn all_failed(calls: nat) -> StatsModel {
        StatsModel { total: calls, failed: calls, ..StatsModel::zero() }
    }

    /// The same counts, of a run that took `elapsed`.
    pub open spec fn over(self, elapsed: nat) -> StatsModel {
        StatsModel { elapsed, ..self }
    }

    /// One more call, with this outcome.
    pub open spec fn with_outcome(self, outcome: CallOutcome, latency: nat) -> StatsModel {
        self.with_call(outcome is Answered, latency)
    }

    /// How many of a hundred calls succeeded, rounded down; where no call was
    /// counted, as if one had been.
    pub open spec fn success_share(self) -> nat {
        if self.total == 0 {
            self.successful * 100
        } else {
            (self.successful * 100) / self.total
        }
    }

    /// Whether the counts and the latency can be held.
    pub open spec fn fits(self) -> bool {
        &&& self.total <= usize::MAX
        &&& self.successful <= usize::MAX
        &&& self.failed <= usize::MAX
        &&& self.latency <= MAX_NANOS
    }
}

impl BenchmarkStats {
    /// Nothing measured yet.
    pub fn new() -> (stats: Self)
        ensures
            stats@ == StatsModel::zero(),
    {
        BenchmarkStats {
            total_requests: 0,
            successful_requests: 0,
            failed_requests: 0,
            total_latency: 0,
            elapsed: 0,
        }
    }

    /// Adds the calls of one client.
    pub fn add_client(&mut self, client: &BenchmarkStats)
        requires
            old(self)@.with_client(client@).fits(),
        ensures
            final(self)@ == old(self)@.with_client(client@),
    {
        self.total_requests = self.total_requests + client.total_requests;
        self.successful_requests = self.successful_requests + client.successful_requests;
        self.failed_requests = self.failed_requests + client.failed_requests;
        self.total_latency = self.total_latency + client.total_latency;
    }

    /// The same counts, with the time that the whole run took.
    pub fn finished(&self, elapsed: u128) -> (stats: BenchmarkStats)
        ensures
            stats@ == (StatsModel { elapsed: elapsed as nat, ..self@ }),
            stats@ == self@.over(elapsed as nat),
    {
        BenchmarkStats { elapsed, ..*self }
    }

    /// How many of a hundred calls succeeded, rounded down.
    pub fn success_percent(&self) -> (percent: usize)
        requires
            self.successful_requests * 100 <= usize::MAX,
        ensures
            percent == self@.success_share(),
    {
        let total: usize = if self.total_requests == 0 {
            1
        } else {
            self.total_requests
        };
        self.successful_requests * 100 / total
    }
}

/// How the gateway compares with the direct connection.
#[derive(Debug, Clone, Copy, PartialEq, Eq, Structural)]
pub enum Verdict {
    /// As many calls succeeded.
    SameThroughput,
    /// At least nine tenths as many calls succeeded, rounded down.
    Acceptable,
    /// Fewer calls succeeded.
    SignificantOverhead,
}

/// The verdict on a gateway through which so many calls succeeded, where so many
/// did over a direct connection.
pub open spec fn verdict_of(direct: nat, gateway: nat) -> Verdict {
    if gateway == direct {
        Verdict::SameThroughput
    } else if gateway >= direct * 90 / 100 {
        Verdict::Acceptable
    } else {
        Verdict::SignificantOverhead
    }
}

/// Compares the calls that succeeded.
pub fn compare(direct: &BenchmarkStats, gateway: &BenchmarkStats) -> (verdict: Verdict)
    requires
        gateway.successful_requests != direct.successful_requests ==> direct.successful_requests
            * 90 <= usize::MAX,
    ensures
        verdict == (if gateway.successful_requests == direct.successful_requests {
            Verdict::SameThroughput
        } else if gateway.successful_requests >= (direct.successful_requests * 90) / 100 {
            Verdict::Acceptable
        } else {
            Verdict::SignificantOverhead
        }),
        verdict == verdict_of(direct@.successful, gateway@.successful),
{
    if gateway.successful_requests == direct.successful_requests {
        Verdict::SameThroughput
    } else if gateway.successful_requests >= direct.successful_requests * 90 / 100 {
        Verdict::Acceptable
    } else {
        Verdict::SignificantOverhead
    }
}

/// What came of one call.
pub enum CallOutcome {
    /// An answer with content.
    Answered,
    /// An answer without content.
    Empty,
    /// No answer; this is why.
    Failed(String),
}

/// One client of a run: it opens a session, then makes its calls one after
/// another.
pub struct ClientRun {
    /// Which of the clients it is.
    pub client_id: usize,
    /// How many calls it is to make.
    pub num_requests: usize,
    /// What its calls came to so far.
    pub stats: BenchmarkStats,
}

/// What is said of the first call of a client, where it does not succeed.
pub open spec fn call_notice(client_id: nat, index: nat, outcome: CallOutcome) -> Option<
    Seq<char>,
> {
    if index > 0 {
        None
    } else {
        match outcome {
            CallOutcome::Answered => None,
            CallOutcome::Empty => Some(
                "   Client "@ + decimal(client_id) + " error: "@ + "Empty response"@,
            ),
            CallOutcome::Failed(error) => Some(
                "   Client "@ + decimal(client_id) + " error: "@ + error@,
            ),
        }
    }
}

/// What is said of a client that could not open its session.
pub open spec fn init_notice(client_id: nat, error: Seq<char>) -> Seq<char> {
    "   Client "@ + decimal(client_id) + " failed to initialize: "@ + error
}

impl ClientRun {
    /// How many calls the client has left to make.
    pub open spec fn calls_left(self) -> int {
        self.num_requests - self.stats@.total
    }

    /// Every call that was made is counted, as a success or as a failure, and
    /// no more calls were made than were to be made.
    pub open spec fn wf(self) -> bool {
        self.stats@.balanced() && self.stats@.total <= self.num_requests
    }

    /// A client that has made no call.
    pub fn new(client_id: usize, num_requests: usize) -> (run: Self)
        ensures
            run.wf(),
            run.client_id == client_id,
            run.num_requests == num_requests,
            run.stats@ == StatsModel::zero(),
    {
        ClientRun { client_id, num_requests, stats: BenchmarkStats::new() }
    }

    /// Whether the client has calls left to make.
    pub fn has_calls_left(&self) -> (r: bool)
        ensures
            r == (self.stats@.total < self.num_requests),
            r == (self.calls_left() > 0),
    {
        self.stats.total_requests < self.num_requests
    }

    /// The client could not open its session: all its calls count as failures.
    /// The result is what is said of it.
    pub fn init_failed(&mut self, error: &str) -> (notice: String)
        ensures
            final(self).wf(),
            final(self).client_id == old(self).client_id,
            final(self).num_requests == old(self).num_requests,
            final(self).stats@ == (StatsModel {
                total: old(self).num_requests as nat,
                failed: old(self).num_requests as nat,
                ..StatsModel::zero()
            }),
            notice@ == "   Client "@ + decimal(old(self).client_id as nat)
                + " failed to initialize: "@ + error@,
            final(self).stats@ == StatsModel::all_failed(old(self).num_requests as nat),
            notice@ == init_notice(old(self).client_id as nat, error@),
    {
        let mut stats: BenchmarkStats = BenchmarkStats::new();
        stats.failed_requests = self.num_requests;
        stats.total_requests = self.num_requests;
        self.stats = stats;
        let mut notice: String = "   Client ".to_string();
        append_decimal(&mut notice, self.client_id);
        notice.append(" failed to initialize: ");
        notice.append(error);
        notice
    }

    /// Counts one call, which took `latency` nanoseconds. The result is what is
    /// said of it, where something is.
    pub fn call_finished(&mut self, outcome: &CallOutcome, latency: u128) -> (notice: Option<
        String,
    >)
        requires
            old(self).wf(),
            old(self).stats@.total < old(self).num_requests,
            old(self).stats.total_latency + latency <= MAX_NANOS,
        ensures
            final(self).wf(),
            final(self).client_id == old(self).client_id,
            final(self).num_requests == old(self).num_requests,
            final(self).stats@ == old(self).stats@.with_call(
                outcome is Answered,
                latency as nat,
            ),
            final(self).stats@ == old(self).stats@.with_outcome(*outcome, latency as nat),
            owned_text_of(notice) == call_notice(
                old(self).client_id as nat,
                old(self).stats@.total,
                *outcome,
            ),
    {
        let first = self.stats.total_requests == 0;
        let reason = match outcome {
            CallOutcome::Answered => None,
            CallOutcome::Empty => Some("Empty response"),
            CallOutcome::Failed(error) => Some(error.as_str()),
        };
        if reason.is_none() {
            self.stats.successful_requests = self.stats.successful_requests + 1;
        } else {
            self.stats.failed_requests = self.stats.failed_requests + 1;
        }
        self.stats.total_requests = self.stats.total_requests + 1;
        self.stats.total_latency = self.stats.total_latency + latency;
        match reason {
            Some(text) => if first {
                let mut notice: String = "   Client ".to_string();
                append_decimal(&mut notice, self.client_id);
                notice.append(" error: ");
                notice.append(text);
                Some(notice)
            } else {
                None
            },
            None => None,
        }
    }
}

/// What a run is asked to do.
pub struct BenchmarkConfig {
    pub name: String,
    pub base_url: String,
    pub concurrent_clients: usize,
    pub requests_per_client: usize,
    pub tool_name: String,
    pub arguments: Option<serde_json::Map<String, serde_json::Value>>,
}

/// What is said when a run starts.
pub open spec fn start_texts(config: BenchmarkConfig) -> Seq<Seq<char>> {
    seq![
        "\n🚀 Starting benchmark: "@ + config.name@ + " ("@ + decimal(
            config.concurrent_clients as nat,
        ) + " clients × "@ + decimal(config.requests_per_client as nat) + " requests = "@
            + decimal((config.concurrent_clients * config.requests_per_client) as nat)
            + " total)"@,
        "   Tool: "@ + config.tool_name@,
    ] + (match config.arguments {
        Some(arguments) => seq!["   Arguments: "@ + object_text(arguments)],
        None => seq![],
    })
}

/// The name of a run over a direct connection.
pub open spec fn direct_name(server: ServerModel) -> Seq<char> {
    "Direct ("@ + server.name + ")"@
}

/// The name of a run through the gateway.
pub open spec fn gateway_name(server: ServerModel) -> Seq<char> {
    "Gateway /vs/"@ + server.name
}

/// What is said of the counts of a run.
pub open spec fn result_texts(name: Seq<char>, stats: StatsModel) -> Seq<Seq<char>> {
    seq![
        "\n📊 "@ + name + " Results:"@,
        "   Total: "@ + decimal(stats.total) + " requests ("@ + decimal(stats.successful)
            + " success, "@ + decimal(stats.failed) + " failed)"@,
    ]
}

impl BenchmarkConfig {
    /// A run over a direct connection to `server`.
    pub fn direct(
        server: &McpServerConfig,
        concurrent_clients: usize,
        requests_per_client: usize,
        tool_name: String,
        arguments: Option<serde_json::Map<String, serde_json::Value>>,
    ) -> (config: Self)
        ensures
            config.name@ == "Direct ("@ + server.name@ + ")"@,
            config.name@ == direct_name(server@),
            config.base_url@ == direct_url(server@),
            config.concurrent_clients == concurrent_clients,
            config.requests_per_client == requests_per_client,
            config.tool_name == tool_name,
            config.arguments == arguments,
    {
        let mut name: String = "Direct (".to_string();
        name.append(server.name.as_str());
        name.append(")");
        let base_url = build_direct_url(server);
        BenchmarkConfig {
            name,
            base_url,
            concurrent_clients,
            requests_per_client,
            tool_name,
            arguments,
        }
    }

    /// A run through the gateway to `server`.
    pub fn gateway(
        server: &McpServerConfig,
        concurrent_clients: usize,
        requests_per_client: usize,
        tool_name: String,
        arguments: Option<serde_json::Map<String, serde_json::Value>>,
    ) -> (config: Self)
        ensures
            config.name@ == "Gateway /vs/"@ + server.name@,
            config.name@ == gateway_name(server@),
            config.base_url@ == gateway_url(server@),
            config.concurrent_clients == concurrent_clients,
            config.requests_per_client == requests_per_client,
            config.tool_name == tool_name,
            config.arguments == arguments,
    {
        let mut name: String = "Gateway /vs/".to_string();
        name.append(server.name.as_str());
        let base_url = build_gateway_url(server);
        BenchmarkConfig {
            name,
            base_url,
            concurrent_clients,
            requests_per_client,
            tool_name,
            arguments,
        }
    }

    /// What is said when the run starts: how many calls it makes, of which
    /// tool, and with which arguments.
    pub fn start_lines(&self) -> (lines: Vec<String>)
        requires
            self.concurrent_clients * self.requests_per_client <= usize::MAX,
        ensures
            owned_texts(lines@) == start_texts(*self),
    {
        let mut first: String = "\n🚀 Starting benchmark: ".to_string();
        first.append(self.name.as_str());
        first.append(" (");
        append_decimal(&mut first, self.concurrent_clients);
        first.append(" clients × ");
        append_decimal(&mut first, self.requests_per_client);
        first.append(" requests = ");
        append_decimal(&mut first, self.concurrent_clients * self.requests_per_client);
        first.append(" total)");
        let mut second: String = "   Tool: ".to_string();
        second.append(self.tool_name.as_str());
        let mut lines: Vec<String> = Vec::new();
        lines.push(first);
        lines.push(second);
        if let Some(arguments) = &self.arguments {
            let mut third: String = "   Arguments: ".to_string();
            third.append(display_object(arguments).as_str());
            lines.push(third);
        }
        assert(owned_texts(lines@) =~= start_texts(*self));
        lines
    }

    /// What is said of the counts when the run is over.
    pub fn result_lines(&self, stats: &BenchmarkStats) -> (lines: Vec<String>)
        ensures
            owned_texts(lines@) == seq![
                "\n📊 "@ + self.name@ + " Results:"@,
                "   Total: "@ + decimal(stats@.total) + " requests ("@ + decimal(
                    stats@.successful,
                ) + " success, "@ + decimal(stats@.failed) + " failed)"@,
            ],
            owned_texts(lines@) == result_texts(self.name@, stats@),
    {
        let mut first: String = "\n📊 ".to_string();
        first.append(self.name.as_str());
        first.append(" Results:");
        let mut second: String = "   Total: ".to_string();
        append_decimal(&mut second, stats.total_requests);
        second.append(" requests (");
        append_decimal(&mut second, stats.successful_requests);
        second.append(" success, ");
        append_decimal(&mut second, stats.failed_requests);
        second.append(" failed)");
        let mut lines: Vec<String> = Vec::new();
        lines.push(first);
        lines.push(second);
        assert(owned_texts(lines@) =~= seq![first@, second@]);
        lines
    }
}

/// The scheme that a server is spoken to with.
pub open spec fn protocol(server: ServerModel) -> Seq<char> {
    if server.use_tls {
        "https"@
    } else {
        "http"@
    }
}

/// The URL of a server.
pub open spec fn direct_url(server: ServerModel) -> Seq<char> {
    protocol(server) + "://"@ + server.url
}

/// The URL of a server behind the gateway.
pub open spec fn gateway_url(server: ServerModel) -> Seq<char> {
    protocol(server) + "://localhost:3000/vs/"@ + server.name + server.base_path()
}

/// A base URL with the path of the streaming endpoint at its end.
pub open spec fn streaming_url(base: Seq<char>) -> Seq<char> {
    if "/http"@.is_suffix_of(base) {
        base
    } else {
        base + "/http"@
    }
}

/// The scheme that `server` is spoken to with.
fn protocol_of(server: &McpServerConfig) -> (text: &'static str)
    ensures
        text@ == protocol(server@),
{
    if server.use_tls {
        "https"
    } else {
        "http"
    }
}

/// The URL for a direct connection to `server`.
pub fn build_direct_url(server: &McpServerConfig) -> (url: String)
    ensures
        url@ == direct_url(server@),
{
    let mut url: String = protocol_of(server).to_string();
    url.append("://");
    url.append(server.url.as_str());
    url
}

/// The URL for a connection to `server` through the gateway.
pub fn build_gateway_url(server: &McpServerConfig) -> (url: String)
    ensures
        url@ == gateway_url(server@),
{
    let mut url: String = protocol_of(server).to_string();
    url.append("://localhost:3000/vs/");
    url.append(server.name.as_str());
    url.append(server.base_path());
    url
}

/// The URL of the streaming endpoint under a base URL.
pub fn build_streaming_url(base_url: &str) -> (url: String)
    ensures
        url@ == streaming_url(base_url@),
{
    let mut url: String = base_url.to_string();
    if !ends_with(base_url, "/http") {
        url.append("/http");
    }
    url
}

/// Why there is no configuration.
pub enum ConfigError {
    /// The file cannot be read.
    Read(String),
    /// The file is not a configuration.
    Parse(String),
}

/// Why a server cannot be used, in words; nothing where it can.
pub open spec fn load_error(config: Result<McpConfig, ConfigError>, name: Seq<char>) -> Option<
    Seq<char>,
> {
    match config {
        Ok(conf) => if first_named(conf@, name, None) is Some {
            None
        } else {
            Some("Server '"@ + name + "' not found in mcp-servers.toml"@)
        },
        Err(ConfigError::Read(error)) => Some("Failed to read mcp-servers.toml: "@ + error@),
        Err(ConfigError::Parse(error)) => Some("Failed to parse mcp-servers.toml: "@ + error@),
    }
}

/// The first server called `server_name` of the configuration that was loaded;
/// where there is none, why.
pub fn load_server_config<'c>(
    config: &'c Result<McpConfig, ConfigError>,
    server_name: &str,
) -> (server: Result<&'c McpServerConfig, String>)
    ensures
        match load_error(*config, server_name@) {
            None => {
                &&& server matches Ok(s)
                &&& config matches Ok(conf)
                &&& first_named(conf@, server_name@, None) == Some(s@)
            },
            Some(text) => server matches Err(e) && e@ == text,
        },
{
    match config {
        Ok(conf) => match conf.find(server_name, None) {
            Some(server) => Ok(server),
            None => {
                let mut text: String = "Server '".to_string();
                text.append(server_name);
                text.append("' not found in mcp-servers.toml");
                Err(text)
            },
        },
        Err(ConfigError::Read(error)) => {
            let mut text: String = "Failed to read mcp-servers.toml: ".to_string();
            text.append(error.as_str());
            Err(text)
        },
        Err(ConfigError::Parse(error)) => {
            let mut text: String = "Failed to parse mcp-servers.toml: ".to_string();
            text.append(error.as_str());
            Err(text)
        },
    }
}

/// What came of asking a server for its tools.
pub enum ToolListing {
    /// No connection; this is why.
    ConnectFailed(String),
    /// A connection, but no list; this is why.
    ListFailed(String),
    /// The names of the tools.
    Tools(Vec<String>),
}

/// Why a tool cannot be called: what is told at length, line by line, and the
/// error.
pub struct ToolError {
    pub lines: Vec<String>,
    pub message: String,
}

/// Each name, as a line of a list.
pub open spec fn bullets(names: Seq<Seq<char>>) -> Seq<Seq<char>> {
    Seq::new(names.len(), |i: int| "  - "@ + names[i])
}

/// What is told at length where a tool is missing.
pub open spec fn missing_tool_texts(names: Seq<Seq<char>>, tool: Seq<char>) -> Seq<Seq<char>> {
    seq!["\n❌ Tool '"@ + tool + "' not found on server"@, "\nAvailable tools:"@] + bullets(names)
}

/// What is said where a tool cannot be called: what is told at length, and the
/// error; nothing where it can.
pub open spec fn tool_problem(listing: ToolListing, tool: Seq<char>) -> Option<
    (Seq<Seq<char>>, Seq<char>),
> {
    match listing {
        ToolListing::ConnectFailed(error) => Some(
            (seq![], "Failed to connect to server: "@ + error@),
        ),
        ToolListing::ListFailed(error) => Some((seq![], "Failed to list tools: "@ + error@)),
        ToolListing::Tools(names) => if owned_texts(names@).contains(tool) {
            None
        } else {
            Some(
                (
                    missing_tool_texts(owned_texts(names@), tool),
                    "Tool '"@ + tool + "' not found"@,
                ),
            )
        },
    }
}

/// Whether `name` is among `names`.
fn is_listed(names: &Vec<String>, name: &str) -> (r: bool)
    ensures
        r == owned_texts(names@).contains(name@),
{
    let mut i: usize = 0;
    while i < names.len()
        invariant
            i <= names@.len(),
            forall|j: int| 0 <= j < i ==> (#[trigger] names@[j])@ != name@,
        decreases names@.len() - i,
    {
        if same(names[i].as_str(), name) {
            assert(owned_texts(names@)[i as int] == name@);
            return true;
        }
        i = i + 1;
    }
    false
}

/// Whether the server that answered with `listing` has the tool `tool_name`;
/// where it has not, or did not answer, what is said of it.
pub fn verify_tool_exists(listing: &ToolListing, tool_name: &str) -> (r: Result<(), ToolError>)
    ensures
        match listing {
            ToolListing::ConnectFailed(error) => {
                &&& r matches Err(e)
                &&& e.lines@.len() == 0
                &&& e.message@ == "Failed to connect to server: "@ + error@
            },
            ToolListing::ListFailed(error) => {
                &&& r matches Err(e)
                &&& e.lines@.len() == 0
                &&& e.message@ == "Failed to list tools: "@ + error@
            },
            ToolListing::Tools(names) => if owned_texts(names@).contains(tool_name@) {
                r is Ok
            } else {
                &&& r matches Err(e)
                &&& owned_texts(e.lines@) == missing_tool_texts(owned_texts(names@), tool_name@)
                &&& e.message@ == "Tool '"@ + tool_name@ + "' not found"@
            },
        },
        match tool_problem(*listing, tool_name@) {
            None => r is Ok,
            Some((told, message)) => {
                &&& r matches Err(e)
                &&& owned_texts(e.lines@) == told
                &&& e.message@ == message
            },
        },
{
    match listing {
        ToolListing::ConnectFailed(error) => {
            let mut message: String = "Failed to connect to server: ".to_string();
            message.append(error.as_str());
            let lines: Vec<String> = Vec::new();
            assert(owned_texts(lines@) =~= Seq::<Seq<char>>::empty());
            Err(ToolError { lines, message })
        },
        ToolListing::ListFailed(error) => {
            let mut message: String = "Failed to list tools: ".to_string();
            message.append(error.as_str());
            let lines: Vec<String> = Vec::new();
            assert(owned_texts(lines@) =~= Seq::<Seq<char>>::empty());
            Err(ToolError { lines, message })
        },
        ToolListing::Tools(names) => {
            if is_listed(names, tool_name) {
                return Ok(());
            }
            let mut first: String = "\n❌ Tool '".to_string();
            first.append(tool_name);
            first.append("' not found on server");
            let mut lines: Vec<String> = Vec::new();
            lines.push(first);
            lines.push("\nAvailable tools:".to_string());
            let mut k: usize = 0;
            assert(owned_texts(lines@) =~= missing_tool_texts(
                owned_texts(names@).take(0),
                tool_name@,
            ));
            while k < names.len()
                invariant
                    k <= names@.len(),
                    owned_texts(lines@) == missing_tool_texts(
                        owned_texts(names@).take(k as int),
                        tool_name@,
                    ),
                decreases names@.len() - k,
            {
                let mut line: String = "  - ".to_string();
                line.append(names[k].as_str());
                let ghost had = owned_texts(lines@);
                lines.push(line);
                assert(owned_texts(lines@) =~= had.push(line@));
                assert(owned_texts(lines@) =~= missing_tool_texts(
                    owned_texts(names@).take(k as int + 1),
                    tool_name@,
                ));
                k = k + 1;
            }
            assert(owned_texts(names@).take(k as int) =~= owned_texts(names@));
            let mut message: String = "Tool '".to_string();
            message.append(tool_name);
            message.append("' not found");
            Err(ToolError { lines, message })
        },
    }
}

} // verus!
