//! What holds of the benchmark: how calls add up, what is compared, which URLs
//! are called, and what is said.

use vstd::prelude::*;

use crate::arguments::{
    arguments_in, gives, json_of, object_text, ArgumentsError, ArgumentsProblem, JsonModel,
    ParsedJson,
};
use crate::benchmark::{
    bullets, call_notice, direct_name, direct_url, gateway_name, gateway_url, init_notice,
    load_error, result_texts, start_texts, streaming_url, tool_problem, verdict_of,
    BenchmarkConfig, BenchmarkStats, CallOutcome, ClientRun, ConfigError, StatsModel, ToolListing,
    Verdict,
};
use crate::config::{McpConfig, ServerModel};
use crate::laws::routing::{law_none_of_the_name_is_found, law_url_falls_into_its_parts};
use crate::laws::{after_calls, after_clients, successes};
use crate::text::{decimal, owned_texts};

verus! {

/// Counts and times are known by their fields, one for one.
pub proof fn law_counts_by_fields(stats: BenchmarkStats)
    ensures
        stats@.total == stats.total_requests,
        stats@.successful == stats.successful_requests,
        stats@.failed == stats.failed_requests,
        stats@.latency == stats.total_latency,
        stats@.elapsed == stats.elapsed,
{
}

/// Before any call everything is zero.
pub proof fn law_nothing_counted_first()
    ensures
        StatsModel::zero().total == 0,
        StatsModel::zero().successful == 0,
        StatsModel::zero().failed == 0,
        StatsModel::zero().latency == 0,
        StatsModel::zero().elapsed == 0,
{
}

/// A call with an answer is one more success, any other one more failure, for
/// whatever reason; and each adds all the time that it took.
pub proof fn law_one_more_call(stats: StatsModel, error: String, latency: nat)
    ensures
        ({
            let answered = stats.with_outcome(CallOutcome::Answered, latency);
            &&& answered.total == stats.total + 1
            &&& answered.successful == stats.successful + 1
            &&& answered.failed == stats.failed
            &&& answered.latency == stats.latency + latency
            &&& answered.elapsed == stats.elapsed
        }),
        ({
            let failed = stats.with_outcome(CallOutcome::Failed(error), latency);
            &&& failed.total == stats.total + 1
            &&& failed.successful == stats.successful
            &&& failed.failed == stats.failed + 1
            &&& failed.latency == stats.latency + latency
            &&& failed.elapsed == stats.elapsed
        }),
        stats.with_outcome(CallOutcome::Empty, latency) == stats.with_outcome(
            CallOutcome::Failed(error),
            latency,
        ),
{
}

/// One more client adds all its calls, of each kind, and all its time.
pub proof fn law_one_more_client(stats: StatsModel, client: StatsModel)
    ensures
        stats.with_client(client).total == stats.total + client.total,
        stats.with_client(client).successful == stats.successful + client.successful,
        stats.with_client(client).failed == stats.failed + client.failed,
        stats.with_client(client).latency == stats.latency + client.latency,
        stats.with_client(client).elapsed == stats.elapsed,
{
}

/// The time that some calls took together.
pub open spec fn time_of_calls(calls: Seq<(bool, nat)>) -> nat
    decreases calls.len(),
{
    if calls.len() == 0 {
        0
    } else {
        time_of_calls(calls.drop_last()) + calls.last().1
    }
}

/// A client's latency is the time of all its calls together, and its failures
/// are the calls that did not succeed.
pub proof fn law_latencies_add_up(calls: Seq<(bool, nat)>)
    ensures
        after_calls(calls).latency == time_of_calls(calls),
        after_calls(calls).total == calls.len(),
        after_calls(calls).failed == calls.len() - successes(calls),
        after_calls(calls).elapsed == 0,
    decreases calls.len(),
{
    if calls.len() > 0 {
        law_latencies_add_up(calls.drop_last());
    }
}

/// The sums of what some clients counted: calls, successes, failures and time.
pub open spec fn sums(clients: Seq<StatsModel>) -> (nat, nat, nat, nat)
    decreases clients.len(),
{
    if clients.len() == 0 {
        (0, 0, 0, 0)
    } else {
        let (total, successful, failed, latency) = sums(clients.drop_last());
        let last = clients.last();
        (total + last.total, successful + last.successful, failed + last.failed, latency
            + last.latency)
    }
}

/// A run's counts and its latency are the sums of those of its clients.
pub proof fn law_clients_add_up(clients: Seq<StatsModel>)
    ensures
        sums(clients) == (
            after_clients(clients).total,
            after_clients(clients).successful,
            after_clients(clients).failed,
            after_clients(clients).latency,
        ),
        after_clients(clients).elapsed == 0,
    decreases clients.len(),
{
    if clients.len() > 0 {
        law_clients_add_up(clients.drop_last());
    }
}

/// A client has as many calls left as it is to make, less those that it made.
pub proof fn law_calls_run_out(run: ClientRun, calls: Seq<(bool, nat)>)
    requires
        run.stats@ == after_calls(calls),
    ensures
        run.calls_left() == run.num_requests - calls.len(),
{
    law_latencies_add_up(calls);
}

/// A client without a session fails each of its calls, and takes no time.
pub proof fn law_client_without_session(calls: nat)
    ensures
        StatsModel::all_failed(calls).total == calls,
        StatsModel::all_failed(calls).successful == 0,
        StatsModel::all_failed(calls).failed == calls,
        StatsModel::all_failed(calls).latency == 0,
        StatsModel::all_failed(calls).elapsed == 0,
{
}

/// The time of a run changes nothing about what was counted.
pub proof fn law_time_changes_no_count(stats: StatsModel, elapsed: nat)
    ensures
        stats.over(elapsed).total == stats.total,
        stats.over(elapsed).successful == stats.successful,
        stats.over(elapsed).failed == stats.failed,
        stats.over(elapsed).latency == stats.latency,
        stats.over(elapsed).elapsed == elapsed,
{
}

/// The share of successes, in percent, is the greatest whole number that is not
/// above it.
pub proof fn law_success_share_is_rounded_down(stats: StatsModel)
    ensures
        stats.total > 0 ==> stats.success_share() * stats.total <= 100 * stats.successful < (
        stats.success_share() + 1) * stats.total,
        stats.total == 0 ==> stats.success_share() == 100 * stats.successful,
{
    let s = stats.successful as int;
    let t = stats.total as int;
    if t > 0 {
        let q = (s * 100) / t;
        assert(q * t <= 100 * s < (q + 1) * t) by (nonlinear_arith)
            requires
                t > 0,
                q == (s * 100) / t,
        ;
    }
}

/// The same number of successes is the same throughput. Fewer are acceptable
/// where one success more would be above nine tenths, and more are always.
pub proof fn law_verdict(direct: nat, gateway: nat)
    ensures
        verdict_of(direct, gateway) == Verdict::SameThroughput <==> gateway == direct,
        gateway > direct ==> verdict_of(direct, gateway) == Verdict::Acceptable,
        gateway < direct ==> (verdict_of(direct, gateway) == Verdict::Acceptable <==> 10 * (gateway
            + 1) > 9 * direct),
        gateway < direct ==> (verdict_of(direct, gateway) == Verdict::SignificantOverhead <==> 10
            * (gateway + 1) <= 9 * direct),
{
}

/// A server is called by its URL, over TLS where it is configured for that and
/// only there.
pub proof fn law_direct_url(server: ServerModel)
    ensures
        server.use_tls ==> direct_url(server) == "https://"@ + server.url,
        !server.use_tls ==> direct_url(server) == "http://"@ + server.url,
{
    reveal_strlit("https");
    reveal_strlit("http");
    reveal_strlit("://");
    reveal_strlit("https://");
    reveal_strlit("http://");
    assert(direct_url(server) =~= (if server.use_tls {
        "https://"@
    } else {
        "http://"@
    }) + server.url);
}

/// Behind the gateway a server is called by its name and the path of its URL,
/// over TLS where it is configured for that and only there.
pub proof fn law_gateway_url(server: ServerModel, host: Seq<char>, path: Seq<char>)
    requires
        server.url == host + path,
        !host.contains('/'),
        path.len() == 0 || path[0] == '/',
    ensures
        server.use_tls && path.len() > 0 ==> gateway_url(server)
            == "https://localhost:3000/vs/"@ + server.name + path,
        !server.use_tls && path.len() > 0 ==> gateway_url(server)
            == "http://localhost:3000/vs/"@ + server.name + path,
        server.use_tls && path.len() == 0 ==> gateway_url(server)
            == "https://localhost:3000/vs/"@ + server.name + "/"@,
        !server.use_tls && path.len() == 0 ==> gateway_url(server)
            == "http://localhost:3000/vs/"@ + server.name + "/"@,
{
    reveal_strlit("https");
    reveal_strlit("http");
    reveal_strlit("://localhost:3000/vs/");
    reveal_strlit("https://localhost:3000/vs/");
    reveal_strlit("http://localhost:3000/vs/");
    law_url_falls_into_its_parts(server, host, path);
    assert(gateway_url(server) =~= (if server.use_tls {
        "https://localhost:3000/vs/"@
    } else {
        "http://localhost:3000/vs/"@
    }) + server.name + server.base_path());
}

/// A URL that ends with the streaming endpoint stays; to any other the endpoint
/// is added.
pub proof fn law_streaming_endpoint(head: Seq<char>, base: Seq<char>)
    ensures
        streaming_url(head + "/http"@) == head + "/http"@,
        (forall|h: Seq<char>| base != #[trigger] (h + "/http"@)) ==> streaming_url(base) == base
            + "/http"@,
{
    let end = "/http"@;
    let whole = head + end;
    assert(whole.subrange(whole.len() - end.len(), whole.len() as int) =~= end);
    if end.is_suffix_of(base) {
        let h = base.take(base.len() - end.len());
        assert(base =~= h + end);
    }
}

/// Only the first call of a client is spoken of, and only where it does not
/// succeed: then the client and the reason are told.
pub proof fn law_first_failure_is_told(client: nat, index: nat, error: String)
    ensures
        call_notice(client, index, CallOutcome::Answered) is None,
        index > 0 ==> call_notice(client, index, CallOutcome::Empty) is None && call_notice(
            client,
            index,
            CallOutcome::Failed(error),
        ) is None,
        call_notice(client, 0, CallOutcome::Failed(error)) == Some(
            "   Client "@ + decimal(client) + " error: "@ + error@,
        ),
        error@ == "Empty response"@ ==> call_notice(client, 0, CallOutcome::Empty) == call_notice(
            client,
            0,
            CallOutcome::Failed(error),
        ),
        call_notice(client, 0, CallOutcome::Empty) is Some,
{
}

/// A client without a session is told of with the whole reason.
pub proof fn law_failed_session_is_told(client: nat, error: Seq<char>)
    ensures
        init_notice(client, error) == init_notice(client, Seq::empty()) + error,
        init_notice(client, Seq::empty()) == "   Client "@ + decimal(client)
            + " failed to initialize: "@,
{
    assert(init_notice(client, error) =~= init_notice(client, Seq::empty()) + error);
    assert(init_notice(client, Seq::empty()) =~= "   Client "@ + decimal(client)
        + " failed to initialize: "@);
}

/// A run says how many clients make how many calls each, and their product.
pub proof fn law_run_announces_its_calls(config: BenchmarkConfig, calls: nat)
    requires
        calls == config.concurrent_clients * config.requests_per_client,
    ensures
        start_texts(config).len() == (if config.arguments is Some {
            3int
        } else {
            2
        }),
        start_texts(config)[0] == "\n🚀 Starting benchmark: "@ + config.name@ + " ("@ + decimal(
            config.concurrent_clients as nat,
        ) + " clients × "@ + decimal(config.requests_per_client as nat) + " requests = "@
            + decimal(calls) + " total)"@,
        start_texts(config)[1] == "   Tool: "@ + config.tool_name@,
        (config.arguments matches Some(arguments) ==> start_texts(config)[2] == "   Arguments: "@
            + object_text(arguments)),
{
}

/// A run says its name and what it counted, success and failure apart.
pub proof fn law_run_tells_its_counts(name: Seq<char>, stats: StatsModel)
    ensures
        result_texts(name, stats).len() == 2,
        result_texts(name, stats)[0] == "\n📊 "@ + name + " Results:"@,
        result_texts(name, stats)[1] == "   Total: "@ + decimal(stats.total) + " requests ("@
            + decimal(stats.successful) + " success, "@ + decimal(stats.failed) + " failed)"@,
{
}

/// A run bears the name of its way and of the whole name of its server.
pub proof fn law_run_names(server: ServerModel)
    ensures
        direct_name(server) == "Direct ("@ + server.name + ")"@,
        gateway_name(server) == "Gateway /vs/"@ + server.name,
{
}

/// A server can be used where the configuration was loaded and some server has
/// the name; else the reason is told.
pub proof fn law_server_can_be_used(config: McpConfig, name: Seq<char>, error: String)
    ensures
        load_error(Ok(config), name) is None <==> exists|i: int|
            0 <= i < config.servers@.len() && (#[trigger] config.servers@[i]).name@ == name,
        (load_error(Ok(config), name) matches Some(text) ==> text == "Server '"@ + name
            + "' not found in mcp-servers.toml"@),
        load_error(Err(ConfigError::Read(error)), name) == Some(
            "Failed to read mcp-servers.toml: "@ + error@,
        ),
        load_error(Err(ConfigError::Parse(error)), name) == Some(
            "Failed to parse mcp-servers.toml: "@ + error@,
        ),
{
    law_none_of_the_name_is_found(config@, name, None);
    if load_error(Ok(config), name) is None {
        let j = choose|j: int| 0 <= j < config@.len() && (#[trigger] config@[j]).name == name;
        assert(config.servers@[j].name@ == name);
    }
    if exists|i: int| 0 <= i < config.servers@.len() && (#[trigger] config.servers@[i]).name@
        == name {
        let i = choose|i: int|
            0 <= i < config.servers@.len() && (#[trigger] config.servers@[i]).name@ == name;
        assert(config@[i].name == name);
    }
}

/// A tool can be called where the server lists it, at whatever place. Where it
/// does not, all that it lists is told.
pub proof fn law_tool_is_listed(names: Vec<String>, tool: Seq<char>)
    ensures
        tool_problem(ToolListing::Tools(names), tool) is None <==> exists|i: int|
            0 <= i < names@.len() && (#[trigger] names@[i])@ == tool,
        (tool_problem(ToolListing::Tools(names), tool) matches Some((told, message)) ==> {
            &&& told.len() == names@.len() + 2
            &&& told[0] == "\n❌ Tool '"@ + tool + "' not found on server"@
            &&& told[1] == "\nAvailable tools:"@
            &&& forall|i: int|
                0 <= i < names@.len() ==> told[i + 2] == "  - "@ + (#[trigger] names@[i])@
            &&& message == "Tool '"@ + tool + "' not found"@
        }),
{
    let all = owned_texts(names@);
    if all.contains(tool) {
        let k = choose|k: int| 0 <= k < all.len() && all[k] == tool;
        assert(names@[k]@ == tool);
    }
    if exists|i: int| 0 <= i < names@.len() && (#[trigger] names@[i])@ == tool {
        let i = choose|i: int| 0 <= i < names@.len() && (#[trigger] names@[i])@ == tool;
        assert(all[i] == tool);
    }
    if tool_problem(ToolListing::Tools(names), tool) is Some {
        let told = (tool_problem(ToolListing::Tools(names), tool)->0).0;
        assert forall|i: int| 0 <= i < names@.len() implies told[i + 2] == "  - "@ + (
        #[trigger] names@[i])@ by {
            assert(told[i + 2] == bullets(all)[i]);
        }
    }
}

/// A server that does not answer lists no tool, and the whole reason is told.
pub proof fn law_unlisted_tools_are_told(tool: Seq<char>, error: String)
    ensures
        (tool_problem(ToolListing::ConnectFailed(error), tool) matches Some((told, message))
            && told.len() == 0 && message == "Failed to connect to server: "@ + error@),
        (tool_problem(ToolListing::ListFailed(error), tool) matches Some((told, message))
            && told.len() == 0 && message == "Failed to list tools: "@ + error@),
{
}

/// Without a text there are no arguments; with one they are the object that it
/// is, and any other text is an error.
pub proof fn law_arguments_are_an_object(text: Seq<char>)
    ensures
        arguments_in(text) == Ok::<Option<Seq<char>>, ArgumentsProblem>(None) <==> text.len() == 0,
        text.len() > 0 ==> {
            &&& (arguments_in(text) matches Ok(a) ==> a matches Some(compact) && json_of(text)
                == Ok::<JsonModel, Seq<char>>(JsonModel::Object(compact)))
            &&& (arguments_in(text) == Err::<Option<Seq<char>>, ArgumentsProblem>(
                ArgumentsProblem::NotAnObject,
            ) <==> json_of(text) is Ok && !(json_of(text)->Ok_0 is Object))
            &&& (arguments_in(text) matches Err(ArgumentsProblem::Malformed(e)) ==> json_of(text)
                == Err::<JsonModel, Seq<char>>(e))
        },
{
}

/// What comes back is what the text gives: no arguments, the members of the
/// object, or the error.
pub proof fn law_arguments_come_back(
    arguments: Result<Option<serde_json::Map<String, serde_json::Value>>, ArgumentsError>,
    expected: Result<Option<Seq<char>>, ArgumentsProblem>,
)
    requires
        gives(arguments, expected),
    ensures
        arguments is Ok <==> expected is Ok,
        (arguments matches Ok(a) ==> (a is Some <==> expected->Ok_0 is Some)),
        (arguments matches Ok(Some(object)) ==> expected == Ok::<
            Option<Seq<char>>,
            ArgumentsProblem,
        >(Some(object_text(object)))),
        (arguments matches Err(ArgumentsError::Malformed(m)) ==> expected == Err::<
            Option<Seq<char>>,
            ArgumentsProblem,
        >(ArgumentsProblem::Malformed(m@))),
        (arguments matches Err(ArgumentsError::NotAnObject) ==> expected == Err::<
            Option<Seq<char>>,
            ArgumentsProblem,
        >(ArgumentsProblem::NotAnObject)),
{
}

/// An error of the arguments is told with the whole reason.
pub proof fn law_arguments_error_is_told(error: String)
    ensures
        ArgumentsError::Malformed(error).text() == "Failed to parse JSON arguments: "@ + error@,
        ArgumentsError::NotAnObject.text()
            == "JSON arguments must be an object (e.g., {\"key\": \"value\"})"@,
{
}

/// A parsed value is an object, with its members, or of the kind that it is.
pub proof fn law_parsed_by_kind(value: ParsedJson)
    ensures
        value is Null <==> value@ is Null,
        value is Bool <==> value@ is Bool,
        value is Number <==> value@ is Number,
        value is Text <==> value@ is Text,
        value is Array <==> value@ is Array,
        (value matches ParsedJson::Object(members) ==> value@ == JsonModel::Object(
            object_text(members),
        )),
{
}

} // verus!
