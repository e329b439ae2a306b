use thread_supervisor::session::{
    agent_options, AgentOption, Arguments, GraphAgentRequest, RuntimeId, Session, Watchlist,
};
use thread_supervisor::tools::{tool_description, tool_name, Args, ThreadRespondToolOutput};

fn arguments(warning: Option<u64>, timeout: Option<u64>) -> Arguments {
    Arguments {
        coral_server: "http://localhost:5555".to_string(),
        discord_api_token: "token-of-the-platform".to_string(),
        timeout_duration_warning: warning,
        timeout_duration: timeout,
        openrouter_api_key: "key-of-the-service".to_string(),
    }
}

fn pairs(options: &[AgentOption]) -> Vec<(String, String)> {
    options.iter().map(|o| (o.name.clone(), o.value.clone())).collect()
}

fn pair(name: &str, value: &str) -> (String, String) {
    (name.to_string(), value.to_string())
}

fn check_thread_agent(request: &GraphAgentRequest) {
    assert_eq!(request.name, "discord");
    assert_eq!(request.registry_name, "discord");
    assert_eq!(request.version, "0.1.0");
    assert_eq!(request.description, None);
    assert_eq!(request.runtime, RuntimeId::Executable);
    assert!(request.blocking);
}

#[test]
fn thread_agent_without_durations() {
    let session = Session::new(arguments(None, None), "1234".to_string());
    let request = session.discord_graph_request();
    check_thread_agent(&request);
    assert_eq!(
        pairs(&request.options),
        vec![
            pair("DISCORD_API_TOKEN", "token-of-the-platform"),
            pair("OPENROUTER_API_KEY", "key-of-the-service"),
            pair("DISCORD_THREAD_ID", "1234"),
        ]
    );
}

#[test]
fn thread_agent_gets_each_duration_under_its_own_name() {
    let session = Session::new(arguments(Some(300_000), Some(9_420_000)), "1234".to_string());
    let request = session.discord_graph_request();
    check_thread_agent(&request);
    assert_eq!(
        pairs(&request.options),
        vec![
            pair("DISCORD_API_TOKEN", "token-of-the-platform"),
            pair("OPENROUTER_API_KEY", "key-of-the-service"),
            pair("DISCORD_THREAD_ID", "1234"),
            pair("DISCORD_TIMEOUT_WARNING", "5m"),
            pair("DISCORD_TIMEOUT", "2h 37m"),
        ]
    );
}

#[test]
fn thread_agent_with_one_duration() {
    let only_warning = Session::new(arguments(Some(5_000), None), "1".to_string());
    assert_eq!(
        pairs(&only_warning.discord_graph_request().options)[3..],
        [pair("DISCORD_TIMEOUT_WARNING", "5s")]
    );
    let only_timeout = Session::new(arguments(None, Some(32)), "1".to_string());
    assert_eq!(
        pairs(&only_timeout.discord_graph_request().options)[3..],
        [pair("DISCORD_TIMEOUT", "32ms")]
    );
}

#[test]
fn written_duration_is_read_back() {
    for millis in [1u64, 32, 999, 1_000, 5_000, 90_000, 9_420_000, 86_400_000, 31_557_600_000] {
        let session = Session::new(arguments(Some(millis), None), "1".to_string());
        let options = session.discord_graph_request().options;
        assert_eq!(options[3].name, "DISCORD_TIMEOUT_WARNING");
        assert_eq!(thread_supervisor::duration::parse_timeout(&options[3].value), Ok(millis));
    }
}

#[test]
fn options_are_put_together_from_texts() {
    let options = agent_options("t", "k", "c", None, Some("soon".to_string()));
    assert_eq!(
        pairs(&options),
        vec![
            pair("DISCORD_API_TOKEN", "t"),
            pair("OPENROUTER_API_KEY", "k"),
            pair("DISCORD_THREAD_ID", "c"),
            pair("DISCORD_TIMEOUT", "soon"),
        ]
    );
}

#[test]
fn documentation_agent() {
    let session = Session::new(arguments(Some(5_000), Some(5_000)), "1234".to_string());
    let request = session.coral_context_graph_request();
    assert_eq!(request.name, "ctx-coral");
    assert_eq!(request.registry_name, "ca-context7");
    assert_eq!(request.version, "0.1.0");
    assert_eq!(
        request.description,
        Some("An agent with access to all the Coral documentation".to_string())
    );
    assert_eq!(request.runtime, RuntimeId::Docker);
    assert!(request.blocking);
    assert_eq!(
        pairs(&request.options),
        vec![
            pair("ENABLE_TELEMETRY", "true"),
            pair("LIBRARY_ID", "websites/coralprotocol"),
            pair("OPENROUTER_API_KEY", "key-of-the-service"),
        ]
    );
}

#[test]
fn session_request_names_both_agents_in_one_group() {
    let session = Session::new(arguments(Some(5_000), None), "1234".to_string());
    assert_eq!(session.server(), "http://localhost:5555");
    let request = session.execute();
    assert_eq!(request.application_id, "coral-example-app");
    assert_eq!(request.privacy_key, "unused");
    assert_eq!(request.groups, vec![vec!["ctx-coral".to_string(), "discord".to_string()]]);
    assert_eq!(request.agents.len(), 2);
    assert_eq!(request.agents[0].name, "ctx-coral");
    assert_eq!(request.agents[0].registry_name, "ca-context7");
    assert_eq!(request.agents[0].options.len(), 3);
    check_thread_agent(&request.agents[1]);
    assert_eq!(
        pairs(&request.agents[1].options)[2..],
        [pair("DISCORD_THREAD_ID", "1234"), pair("DISCORD_TIMEOUT_WARNING", "5s")]
    );
}

#[test]
fn thread_is_new_to_the_watchlist_once() {
    let mut watchlist = Watchlist::new();
    assert!(watchlist.insert(10));
    assert!(!watchlist.insert(10));
    assert!(watchlist.insert(11));
    assert!(!watchlist.insert(11));
    assert!(!watchlist.insert(10));
    assert!(watchlist.insert(0));
}

#[test]
fn tool_is_named_and_described() {
    assert_eq!(tool_name(), "send_discord_message");
    assert_eq!(tool_description(), "Sends a message to the Discord thread.");
}

#[test]
fn tool_arguments_and_output() {
    let args = Args::new("on my way".to_string());
    assert_eq!(args.content(), "on my way");
    assert_eq!(args.content, "on my way");
    let output = ThreadRespondToolOutput { id: 99, timestamp: 1_700_000_000 };
    assert_eq!(output, ThreadRespondToolOutput { id: 99, timestamp: 1_700_000_000 });
}

#[test]
fn option_names_of_an_agent_are_distinct() {
    let session = Session::new(arguments(Some(5_000), Some(7_000)), "1234".to_string());
    for request in [session.discord_graph_request(), session.coral_context_graph_request()] {
        let names: std::collections::HashSet<String> =
            request.options.iter().map(|o| o.name.clone()).collect();
        assert_eq!(names.len(), request.options.len());
    }
    let same_values = agent_options("x", "x", "x", Some("x".to_string()), Some("x".to_string()));
    let names: std::collections::HashSet<String> =
        same_values.iter().map(|o| o.name.clone()).collect();
    assert_eq!(names.len(), 5);
}
