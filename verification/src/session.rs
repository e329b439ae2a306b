//! Starting a support session for a thread: which agents the orchestration
//! server is asked to run, and with which options.
//!
//! Nothing is sent from here. The request is put together as plain values,
//! which the program turns into the server's own types.

use std::collections::HashSet;
use vstd::prelude::*;
use vstd::std_specs::hash::group_hash_axioms;
use vstd::string::StringExecFns;
use crate::duration::{format_duration, humantime_format};

verus! {

broadcast use group_hash_axioms;

/// What the launcher was started with.
pub struct Arguments {
    /// The address of the orchestration server.
    pub coral_server: String,
    /// The token of the chat platform.
    pub discord_api_token: String,
    /// The time before the inactivity warning, in milliseconds, if one is set.
    pub timeout_duration_warning: Option<u64>,
    /// The time between the warning and the end, in milliseconds, if one is
    /// set.
    pub timeout_duration: Option<u64>,
    /// The key of the completion service.
    pub openrouter_api_key: String,
}

/// How the server runs an agent.
#[derive(Clone, Copy, Debug, PartialEq, Eq, Structural)]
pub enum RuntimeId {
    Executable,
    Docker,
}

/// What an [`AgentOption`] holds, as a mathematical value.
pub struct OptionView {
    pub name: Seq<char>,
    pub value: Seq<char>,
}

/// One option that an agent is started with.
pub struct AgentOption {
    pub name: String,
    pub value: String,
}

impl View for AgentOption {
    type V = OptionView;

    open spec fn view(&self) -> OptionView {
        OptionView { name: self.name@, value: self.value@ }
    }
}

/// The views of a sequence of options, in the same order.
pub open spec fn option_views(options: Seq<AgentOption>) -> Seq<OptionView> {
    options.map_values(|o: AgentOption| o@)
}

/// What a [`GraphAgentRequest`] holds, as a mathematical value.
pub struct AgentView {
    pub name: Seq<char>,
    pub registry_name: Seq<char>,
    pub version: Seq<char>,
    pub description: Option<Seq<char>>,
    pub options: Seq<OptionView>,
    pub runtime: RuntimeId,
    pub blocking: bool,
}

/// The request to run one agent in a session.
pub struct GraphAgentRequest {
    /// The name of the agent in the session.
    pub name: String,
    /// The name under which the registry knows the agent.
    pub registry_name: String,
    /// The version of the agent in the registry.
    pub version: String,
    pub description: Option<String>,
    pub options: Vec<AgentOption>,
    pub runtime: RuntimeId,
    /// Whether the session waits for this agent.
    pub blocking: bool,
}

impl View for GraphAgentRequest {
    type V = AgentView;

    open spec fn view(&self) -> AgentView {
        AgentView {
            name: self.name@,
            registry_name: self.registry_name@,
            version: self.version@,
            description: match self.description {
                Some(text) => Some(text@),
                None => None,
            },
            options: option_views(self.options@),
            runtime: self.runtime,
            blocking: self.blocking,
        }
    }
}

/// What a [`SessionRequest`] holds, as a mathematical value.
pub struct SessionRequestView {
    pub agents: Seq<AgentView>,
    pub groups: Seq<Seq<Seq<char>>>,
    pub application_id: Seq<char>,
    pub privacy_key: Seq<char>,
}

/// The request to start a session: the agents to run and the groups of
/// agents that may talk to each other.
pub struct SessionRequest {
    pub agents: Vec<GraphAgentRequest>,
    pub groups: Vec<Vec<String>>,
    pub application_id: String,
    pub privacy_key: String,
}

impl View for SessionRequest {
    type V = SessionRequestView;

    open spec fn view(&self) -> SessionRequestView {
        SessionRequestView {
            agents: self.agents@.map_values(|a: GraphAgentRequest| a@),
            groups: self.groups@.map_values(
                |g: Vec<String>| g@.map_values(|name: String| name@),
            ),
            application_id: self.application_id@,
            privacy_key: self.privacy_key@,
        }
    }
}

/// The option `name` with the value `value`.
pub open spec fn option_of(name: Seq<char>, value: Seq<char>) -> OptionView {
    OptionView { name, value }
}

/// The options of the thread agent: the two credentials and the thread, then
/// the time before the warning and the time from the warning to the end,
/// each under a name of its own and only where it is set.
pub open spec fn thread_agent_options(
    discord_api_token: Seq<char>,
    openrouter_api_key: Seq<char>,
    channel_id: Seq<char>,
    warning: Option<Seq<char>>,
    timeout: Option<Seq<char>>,
) -> Seq<OptionView> {
    let fixed = seq![
        option_of("DISCORD_API_TOKEN"@, discord_api_token),
        option_of("OPENROUTER_API_KEY"@, openrouter_api_key),
        option_of("DISCORD_THREAD_ID"@, channel_id),
    ];
    let warned = match warning {
        Some(text) => fixed.push(option_of("DISCORD_TIMEOUT_WARNING"@, text)),
        None => fixed,
    };
    match timeout {
        Some(text) => warned.push(option_of("DISCORD_TIMEOUT"@, text)),
        None => warned,
    }
}

/// The request for the agent that serves the thread.
pub open spec fn thread_agent(options: Seq<OptionView>) -> AgentView {
    AgentView {
        name: "discord"@,
        registry_name: "discord"@,
        version: "0.1.0"@,
        description: None,
        options,
        runtime: RuntimeId::Executable,
        blocking: true,
    }
}

/// The request for the agent that knows the documentation.
pub open spec fn documentation_agent(openrouter_api_key: Seq<char>) -> AgentView {
    AgentView {
        name: "ctx-coral"@,
        registry_name: "ca-context7"@,
        version: "0.1.0"@,
        description: Some("An agent with access to all the Coral documentation"@),
        options: seq![
            option_of("ENABLE_TELEMETRY"@, "true"@),
            option_of("LIBRARY_ID"@, "websites/coralprotocol"@),
            option_of("OPENROUTER_API_KEY"@, openrouter_api_key),
        ],
        runtime: RuntimeId::Docker,
        blocking: true,
    }
}

/// The text of a duration that is set, as `humantime` writes it.
pub open spec fn duration_text(setting: Option<u64>) -> Option<Seq<char>> {
    match setting {
        Some(millis) => Some(humantime_format(millis)),
        None => None,
    }
}

/// The request for a session of the two agents `documentation` and
/// `thread`, which form one group.
pub open spec fn session_of(documentation: AgentView, thread: AgentView) -> SessionRequestView {
    SessionRequestView {
        agents: seq![documentation, thread],
        groups: seq![seq![documentation.name, thread.name]],
        application_id: "coral-example-app"@,
        privacy_key: "unused"@,
    }
}

/// The view of a text that may be missing.
pub open spec fn optional_text(text: Option<String>) -> Option<Seq<char>> {
    match text {
        Some(text) => Some(text@),
        None => None,
    }
}

/// Whether no name occurs twice among `options`, so that they are a map
/// from names to values.
pub open spec fn names_distinct(options: Seq<OptionView>) -> bool {
    forall|i: int, j: int|
        0 <= i < j < options.len() ==> (#[trigger] options[i]).name != (#[trigger] options[j]).name
}

/// The options of an agent are a map from names to values: among the
/// options of the thread agent no name occurs twice, whichever durations are
/// set and whatever the values are, and neither among those of the
/// documentation agent.
pub proof fn lemma_option_names_are_distinct(
    discord_api_token: Seq<char>,
    openrouter_api_key: Seq<char>,
    channel_id: Seq<char>,
    warning: Option<Seq<char>>,
    timeout: Option<Seq<char>>,
)
    ensures
        names_distinct(
            thread_agent_options(
                discord_api_token,
                openrouter_api_key,
                channel_id,
                warning,
                timeout,
            ),
        ),
        names_distinct(documentation_agent(openrouter_api_key).options),
{
    reveal_strlit("DISCORD_API_TOKEN");
    reveal_strlit("OPENROUTER_API_KEY");
    reveal_strlit("DISCORD_THREAD_ID");
    reveal_strlit("DISCORD_TIMEOUT_WARNING");
    reveal_strlit("DISCORD_TIMEOUT");
    reveal_strlit("ENABLE_TELEMETRY");
    reveal_strlit("LIBRARY_ID");
    assert("DISCORD_API_TOKEN"@.len() == 17);
    assert("OPENROUTER_API_KEY"@.len() == 18);
    assert("DISCORD_THREAD_ID"@.len() == 17);
    assert("DISCORD_TIMEOUT_WARNING"@.len() == 23);
    assert("DISCORD_TIMEOUT"@.len() == 15);
    assert("ENABLE_TELEMETRY"@.len() == 16);
    assert("LIBRARY_ID"@.len() == 10);
    assert("DISCORD_API_TOKEN"@[8] == 'A');
    assert("DISCORD_THREAD_ID"@[8] == 'T');
    assert("DISCORD_API_TOKEN"@ != "DISCORD_THREAD_ID"@);
}

fn option(name: &str, value: &str) -> (option: AgentOption)
    ensures
        option@ == option_of(name@, value@),
{
    AgentOption { name: String::from_str(name), value: String::from_str(value) }
}

/// Puts the options of the thread agent together from the credentials, the
/// thread and the two durations as texts.
pub fn agent_options(
    discord_api_token: &str,
    openrouter_api_key: &str,
    channel_id: &str,
    warning: Option<String>,
    timeout: Option<String>,
) -> (options: Vec<AgentOption>)
    ensures
        option_views(options@) == thread_agent_options(
            discord_api_token@,
            openrouter_api_key@,
            channel_id@,
            optional_text(warning),
            optional_text(timeout),
        ),
        names_distinct(option_views(options@)),
{
    proof {
        lemma_option_names_are_distinct(
            discord_api_token@,
            openrouter_api_key@,
            channel_id@,
            optional_text(warning),
            optional_text(timeout),
        );
    }
    let mut options: Vec<AgentOption> = Vec::new();
    options.push(option("DISCORD_API_TOKEN", discord_api_token));
    options.push(option("OPENROUTER_API_KEY", openrouter_api_key));
    options.push(option("DISCORD_THREAD_ID", channel_id));
    let ghost fixed = option_views(options@);
    assert(fixed =~= seq![
        option_of("DISCORD_API_TOKEN"@, discord_api_token@),
        option_of("OPENROUTER_API_KEY"@, openrouter_api_key@),
        option_of("DISCORD_THREAD_ID"@, channel_id@),
    ]);
    if let Some(text) = warning {
        options.push(option("DISCORD_TIMEOUT_WARNING", text.as_str()));
        assert(option_views(options@) =~= fixed.push(
            option_of("DISCORD_TIMEOUT_WARNING"@, text@),
        ));
    }
    let ghost warned = option_views(options@);
    if let Some(text) = timeout {
        options.push(option("DISCORD_TIMEOUT", text.as_str()));
        assert(option_views(options@) =~= warned.push(option_of("DISCORD_TIMEOUT"@, text@)));
    }
    options
}

/// The launch of one support session.
pub struct Session {
    arguments: Arguments,
    channel_id: String,
}

impl Session {
    /// The launch of a session for the thread `channel_id`.
    pub fn new(arguments: Arguments, channel_id: String) -> (session: Self)
        ensures
            session.arguments() == arguments,
            session.channel_id() == channel_id,
    {
        Session { arguments, channel_id }
    }

    /// What the launcher was started with.
    pub closed spec fn arguments(&self) -> Arguments {
        self.arguments
    }

    /// The thread that the session is for.
    pub closed spec fn channel_id(&self) -> String {
        self.channel_id
    }

    /// The request for the agent that serves the thread. The two durations go
    /// in as `humantime` writes them.
    pub fn discord_graph_request(&self) -> (request: GraphAgentRequest)
        ensures
            request@ == thread_agent(
                thread_agent_options(
                    self.arguments().discord_api_token@,
                    self.arguments().openrouter_api_key@,
                    self.channel_id()@,
                    duration_text(self.arguments().timeout_duration_warning),
                    duration_text(self.arguments().timeout_duration),
                ),
            ),
            names_distinct(request@.options),
    {
        let warning = match self.arguments.timeout_duration_warning {
            Some(millis) => Some(format_duration(millis)),
            None => None,
        };
        let timeout = match self.arguments.timeout_duration {
            Some(millis) => Some(format_duration(millis)),
            None => None,
        };
        GraphAgentRequest {
            name: String::from_str("discord"),
            registry_name: String::from_str("discord"),
            version: String::from_str("0.1.0"),
            description: None,
            options: agent_options(
                self.arguments.discord_api_token.as_str(),
                self.arguments.openrouter_api_key.as_str(),
                self.channel_id.as_str(),
                warning,
                timeout,
            ),
            runtime: RuntimeId::Executable,
            blocking: true,
        }
    }

    /// The request for the agent that knows the documentation.
    pub fn coral_context_graph_request(&self) -> (request: GraphAgentRequest)
        ensures
            request@ == documentation_agent(self.arguments().openrouter_api_key@),
            names_distinct(request@.options),
    {
        proof {
            lemma_option_names_are_distinct(
                self.arguments().discord_api_token@,
                self.arguments().openrouter_api_key@,
                self.channel_id()@,
                None,
                None,
            );
        }
        let mut options: Vec<AgentOption> = Vec::new();
        options.push(option("ENABLE_TELEMETRY", "true"));
        options.push(option("LIBRARY_ID", "websites/coralprotocol"));
        options.push(option("OPENROUTER_API_KEY", self.arguments.openrouter_api_key.as_str()));
        assert(option_views(options@) =~= seq![
            option_of("ENABLE_TELEMETRY"@, "true"@),
            option_of("LIBRARY_ID"@, "websites/coralprotocol"@),
            option_of("OPENROUTER_API_KEY"@, self.arguments().openrouter_api_key@),
        ]);
        GraphAgentRequest {
            name: String::from_str("ctx-coral"),
            registry_name: String::from_str("ca-context7"),
            version: String::from_str("0.1.0"),
            description: Some(
                String::from_str("An agent with access to all the Coral documentation"),
            ),
            options,
            runtime: RuntimeId::Docker,
            blocking: true,
        }
    }

    /// The address of the server that the request goes to.
    pub fn server(&self) -> (server: &str)
        ensures
            server@ == self.arguments().coral_server@,
    {
        self.arguments.coral_server.as_str()
    }

    /// The request that starts the session when it is sent to the server:
    /// the documentation agent and the thread agent, in one group.
    pub fn execute(&self) -> (request: SessionRequest)
        ensures
            request@ == session_of(
                documentation_agent(self.arguments().openrouter_api_key@),
                thread_agent(
                    thread_agent_options(
                        self.arguments().discord_api_token@,
                        self.arguments().openrouter_api_key@,
                        self.channel_id()@,
                        duration_text(self.arguments().timeout_duration_warning),
                        duration_text(self.arguments().timeout_duration),
                    ),
                ),
            ),
    {
        let documentation = self.coral_context_graph_request();
        let thread = self.discord_graph_request();
        let mut group: Vec<String> = Vec::new();
        group.push(documentation.name.clone());
        group.push(thread.name.clone());
        let ghost names = group@.map_values(|name: String| name@);
        assert(names =~= seq![documentation@.name, thread@.name]);
        let mut groups: Vec<Vec<String>> = Vec::new();
        groups.push(group);
        let mut agents: Vec<GraphAgentRequest> = Vec::new();
        let ghost documentation_view = documentation@;
        let ghost thread_view = thread@;
        agents.push(documentation);
        agents.push(thread);
        assert(agents@.map_values(|a: GraphAgentRequest| a@) =~= seq![
            documentation_view,
            thread_view,
        ]);
        assert(groups@.map_values(|g: Vec<String>| g@.map_values(|name: String| name@))
            =~= seq![names]);
        SessionRequest {
            agents,
            groups,
            application_id: String::from_str("coral-example-app"),
            privacy_key: String::from_str("unused"),
        }
    }
}

/// The threads for which a session was started already.
pub struct Watchlist {
    threads: HashSet<u64>,
}

impl View for Watchlist {
    type V = Set<u64>;

    closed spec fn view(&self) -> Set<u64> {
        self.threads@
    }
}

impl Watchlist {
    /// A list without threads.
    pub fn new() -> (list: Self)
        ensures
            list@ == Set::<u64>::empty(),
    {
        Watchlist { threads: HashSet::new() }
    }

    /// Notes the thread. The answer is whether it is new to the list: a
    /// session is started for a thread the first time it is seen, and never
    /// again.
    pub fn insert(&mut self, thread: u64) -> (fresh: bool)
        ensures
            fresh == !old(self)@.contains(thread),
            final(self)@ == old(self)@.insert(thread),
    {
        self.threads.insert(thread)
    }
}

} // verus!
