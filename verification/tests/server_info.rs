use servercore::server_info::{event_from_captures, list_from_captures, message_from_captures};
use servercore::server_info::{
    is_bukkit_like, looks_like_provider_unavailable, map_connect_error, parse_list_output, parse_log_line,
    parse_plugin_names, parse_u32, provider_unavailable_message, strip_leading_slash_echo, DomainEvent, LogLevel,
    LogLineInput, LogStream, MetricProviderKind, PerformanceProbeOptions, ProbeWarning, RconEndpoint,
    RconProbeOptions, ServerInfoError,
};

#[test]
fn detects_server_ready_event() {
    let parsed = parse_log_line(
        Some("paper"),
        LogLineInput {
            raw: "[12:00:00] [Server thread/INFO]: Done (1.234s)! For help, type \"help\"".to_string(),
            stream: LogStream::Stdout,
        },
    );
    assert_eq!(parsed.event, Some(DomainEvent::ServerReady));
    assert_eq!(parsed.structured.level, Some(LogLevel::Info));
}

#[test]
fn detects_player_join_leave_chat_and_error() {
    let join = parse_log_line(None, LogLineInput { raw: "Alex joined the game".to_string(), stream: LogStream::Stdout });
    assert_eq!(join.event, Some(DomainEvent::PlayerJoin { player: "Alex".to_string() }));

    let leave = parse_log_line(None, LogLineInput { raw: "Alex left the game".to_string(), stream: LogStream::Stdout });
    assert_eq!(leave.event, Some(DomainEvent::PlayerLeave { player: "Alex".to_string() }));

    let chat = parse_log_line(None, LogLineInput { raw: "<Alex> hello".to_string(), stream: LogStream::Stdout });
    assert_eq!(chat.event, Some(DomainEvent::Chat { player: "Alex".to_string(), message: "hello".to_string() }));

    let error = parse_log_line(
        None,
        LogLineInput { raw: "ERROR Failed to load something".to_string(), stream: LogStream::Stderr },
    );
    assert!(matches!(error.event, Some(DomainEvent::ErrorLike { .. })));
}

#[test]
fn preserves_unmatched_lines_as_structured_output() {
    let parsed = parse_log_line(None, LogLineInput { raw: "random line".to_string(), stream: LogStream::Unknown });
    assert_eq!(parsed.event, None);
    assert_eq!(parsed.structured.message, "random line");
}

#[test]
fn structured_lines_split_java_log_parts() {
    let parsed = parse_log_line(
        None,
        LogLineInput {
            raw: "[12:00:00] [Server thread/WARN]: Alex joined the game\r\n".to_string(),
            stream: LogStream::Stdout,
        },
    );
    assert_eq!(parsed.structured.raw, "[12:00:00] [Server thread/WARN]: Alex joined the game");
    assert_eq!(parsed.structured.message, "Alex joined the game");
    assert_eq!(parsed.structured.timestamp_text.as_deref(), Some("12:00:00"));
    assert_eq!(parsed.structured.thread.as_deref(), Some("Server thread"));
    assert_eq!(parsed.structured.level, Some(LogLevel::Warn));
    assert_eq!(parsed.event, Some(DomainEvent::PlayerJoin { player: "Alex".to_string() }));
    let simple = parse_log_line(None, LogLineInput { raw: "INFO: started".to_string(), stream: LogStream::Stdout });
    assert_eq!(simple.structured.message, "INFO started");
}

#[test]
fn parses_zero_player_list_output() {
    let parsed = parse_list_output("There are 0 of a max 20 players online").unwrap();
    assert_eq!(parsed.online, 0);
    assert_eq!(parsed.max, Some(20));
    assert!(parsed.players.is_empty());
}

#[test]
fn parses_list_output_with_names() {
    let parsed = parse_list_output("There are 2 of a max 20 players online: Alex, Steve").unwrap();
    assert_eq!(parsed.online, 2);
    assert_eq!(parsed.max, Some(20));
    assert_eq!(parsed.players, vec!["Alex", "Steve"]);
}

#[test]
fn parses_list_output_with_extra_of_variant() {
    let parsed = parse_list_output("There are 1 of a max of 20 players online: Alex").unwrap();
    assert_eq!(parsed.online, 1);
    assert_eq!(parsed.max, Some(20));
    assert_eq!(parsed.players, vec!["Alex"]);
}

#[test]
fn unreadable_list_output_is_a_parse_error() {
    assert_eq!(
        parse_list_output("  nothing here "),
        Err(ServerInfoError::Parse("failed to parse 'list' output: nothing here".to_string()))
    );
    assert_eq!(
        parse_list_output("There are 99999999999 of a max 20 players online"),
        Err(ServerInfoError::Parse(
            "failed to parse online count from: There are 99999999999 of a max 20 players online".to_string()
        ))
    );
}

#[test]
fn numbers_read_as_u32_from_str_reads_them() {
    let digits = |s: &str| parse_u32(&s.chars().collect::<Vec<_>>());
    assert_eq!(digits("0"), Some(0));
    assert_eq!(digits("+17"), Some(17));
    assert_eq!(digits("4294967295"), Some(u32::MAX));
    assert_eq!(digits("4294967296"), None);
    assert_eq!(digits("+"), None);
    assert_eq!(digits(""), None);
    assert_eq!(digits("-1"), None);
    assert_eq!(digits("12a"), None);
}

#[test]
fn extracts_plugin_names_from_bukkit_output() {
    let names = parse_plugin_names("Server Plugins (2): Essentials 2.0, WorldEdit 7.3");
    assert_eq!(names, vec!["Essentials", "WorldEdit"]);
}

#[test]
fn plugin_names_drop_brackets_and_blanks() {
    assert_eq!(parse_plugin_names("Plugins: [Vault], (LuckPerms) 5.4, , ()"), vec!["Vault", "LuckPerms"]);
    assert!(parse_plugin_names("no colon here").is_empty());
}

#[test]
fn performance_probe_options_default_to_known_providers() {
    let options = PerformanceProbeOptions::default();
    assert_eq!(
        options.providers,
        vec![
            MetricProviderKind::SparkHealth,
            MetricProviderKind::SparkTps,
            MetricProviderKind::SparkHealthReport,
            MetricProviderKind::ForgeTps,
            MetricProviderKind::PaperTps,
            MetricProviderKind::PaperMspt,
        ]
    );
}

#[test]
fn endpoint_type_is_constructible_for_probe_usage() {
    let endpoint = RconEndpoint { host: "127.0.0.1".to_string(), port: 25575, password: "secret".to_string() };
    assert_eq!(endpoint.address(), "127.0.0.1:25575");
}

#[test]
fn endpoint_address_trims_the_host() {
    let endpoint = RconEndpoint { host: "  mc.example.org ".to_string(), port: 7, password: String::new() };
    assert_eq!(endpoint.address(), "mc.example.org:7");
    let options = RconProbeOptions::default();
    assert_eq!(options.connect_timeout_ms, 5000);
    assert_eq!(options.read_timeout_ms, 5000);
}

#[test]
fn provider_commands_and_replies() {
    assert_eq!(MetricProviderKind::SparkHealthReport.command(), "spark healthreport");
    assert_eq!(MetricProviderKind::PaperMspt.name(), "paper_mspt");
    assert_eq!(strip_leading_slash_echo("/spark tps\nTPS: 19.98\nMSPT: 10.1"), "TPS: 19.98\nMSPT: 10.1");
    assert_eq!(strip_leading_slash_echo(" Spark Health \nTPS: 20"), "TPS: 20");
    assert!(looks_like_provider_unavailable("Unknown or incomplete command"));
    assert!(!looks_like_provider_unavailable("TPS: 20"));
    assert_eq!(provider_unavailable_message("  Unknown command \n"), "provider command unavailable: Unknown command");
}

#[test]
fn connection_errors_and_families() {
    assert_eq!(
        map_connect_error("127.0.0.1:25575", "Auth failed"),
        ServerInfoError::Authentication("failed to authenticate with RCON endpoint 127.0.0.1:25575: Auth failed".to_string())
    );
    assert_eq!(
        map_connect_error("h:1", "refused"),
        ServerInfoError::Connection("failed to connect to RCON endpoint h:1: refused".to_string())
    );
    assert!(is_bukkit_like(Some("Paper")));
    assert!(is_bukkit_like(Some("mohist")));
    assert!(!is_bukkit_like(Some("fabric")));
    assert!(!is_bukkit_like(None));
    let warning = ProbeWarning::new("snapshot", None, "version failed");
    assert_eq!(warning.message, "version failed");
    assert_eq!(ServerInfoError::Command("x".to_string()).message(), "x");
}

fn groups(v: &[Option<&str>]) -> Option<Vec<Option<String>>> {
    Some(v.iter().map(|g| g.map(|s| s.to_string())).collect())
}

#[test]
fn message_comes_from_java_group_else_plain_level_and_message() {
    let java = groups(&[Some("[1] [a/INFO]: hi"), Some("1"), Some("a"), Some("INFO"), Some("hi")]);
    assert_eq!(message_from_captures(&java, &None), Some("hi".to_string()));
    let plain = groups(&[Some("WARN: low disk"), Some("WARN"), Some("low disk")]);
    assert_eq!(message_from_captures(&None, &plain), Some("WARN low disk".to_string()));
    assert_eq!(message_from_captures(&None, &None), None);
}

#[test]
fn events_follow_their_captures_in_order() {
    let join = groups(&[Some("Alex joined the game"), Some("Alex")]);
    assert_eq!(
        event_from_captures("Alex joined the game", &join, &None, &None),
        Some(DomainEvent::PlayerJoin { player: "Alex".to_string() })
    );
    let chat = groups(&[Some("<Bob>  hi there "), Some(" Bob "), Some("hi there ")]);
    assert_eq!(
        event_from_captures("<Bob>  hi there", &None, &None, &chat),
        Some(DomainEvent::Chat { player: "Bob".to_string(), message: "hi there".to_string() })
    );
    assert_eq!(
        event_from_captures("Done (2.5s)! For help, type \"help\"", &join, &None, &None),
        Some(DomainEvent::ServerReady)
    );
    assert_eq!(
        event_from_captures("Caught Exception in tick", &None, &None, &None),
        Some(DomainEvent::ErrorLike { message: "Caught Exception in tick".to_string() })
    );
    assert_eq!(event_from_captures("plain", &None, &None, &None), None);
}

#[test]
fn list_reply_reads_its_captures() {
    let g = groups(&[Some("x"), Some("3"), Some("10"), Some("A, B ,, C")]);
    let p = list_from_captures("x", &g).unwrap();
    assert_eq!((p.online, p.max, p.players), (3, Some(10), vec!["A".to_string(), "B".to_string(), "C".to_string()]));
    let bad = groups(&[Some("x"), Some("99999999999"), Some("10"), None]);
    assert_eq!(
        list_from_captures("x", &bad),
        Err(ServerInfoError::Parse("failed to parse online count from: x".to_string()))
    );
    assert_eq!(
        list_from_captures("nope", &None),
        Err(ServerInfoError::Parse("failed to parse 'list' output: nope".to_string()))
    );
}
