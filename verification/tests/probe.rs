use servercore::probe::{MetricsProbe, SnapshotCommand, SnapshotProbe};
use servercore::server_info::{MetricProviderKind, PerformanceProbeOptions, ServerInfoError};

fn run_snapshot<F>(core_key: Option<&str>, mut runner: F) -> Result<SnapshotProbe, ServerInfoError>
where
    F: FnMut(&str) -> Result<String, ServerInfoError>,
{
    let mut probe = SnapshotProbe::start(core_key);
    while let Some(command) = probe.next {
        let reply = runner(command.as_str());
        probe = probe.on_reply(reply)?;
    }
    Ok(probe)
}

#[test]
fn snapshot_keeps_warnings_when_optional_commands_fail() {
    let snapshot = run_snapshot(Some("paper"), |command| match command {
        "list" => Ok("There are 2 of a max 20 players online: Alex, Steve".to_string()),
        "version" => Err(ServerInfoError::Command("version failed".to_string())),
        "plugins" => Err(ServerInfoError::Command("plugins failed".to_string())),
        other => Err(ServerInfoError::Command(format!("unexpected command: {other}"))),
    })
    .unwrap();

    assert_eq!(snapshot.players.unwrap().online, 2);
    assert_eq!(snapshot.warnings.len(), 2);
}

#[test]
fn snapshot_of_bukkit_like_server_reads_version_and_plugins() {
    let mut sent = Vec::new();
    let snapshot = run_snapshot(Some("Purpur"), |command| {
        sent.push(command.to_string());
        match command {
            "list" => Ok("There are 0 of a max 10 players online".to_string()),
            "version" => Ok("  This server is running Purpur 1.21  ".to_string()),
            "plugins" => Ok(" Server Plugins (2): LuckPerms 5.4, [Vault] \n".to_string()),
            other => Err(ServerInfoError::Command(format!("unexpected command: {other}"))),
        }
    })
    .unwrap();

    assert_eq!(sent, vec!["list", "version", "plugins"]);
    assert_eq!(snapshot.version_text.as_deref(), Some("This server is running Purpur 1.21"));
    assert_eq!(snapshot.plugins_text.as_deref(), Some("Server Plugins (2): LuckPerms 5.4, [Vault]"));
    assert_eq!(snapshot.plugin_names, vec!["LuckPerms", "Vault"]);
    assert!(snapshot.warnings.is_empty());
    let players = snapshot.players.unwrap();
    assert_eq!(players.online, 0);
    assert_eq!(players.max, Some(10));
}

#[test]
fn snapshot_of_other_servers_only_lists_players() {
    let mut sent = Vec::new();
    let snapshot = run_snapshot(Some("fabric"), |command| {
        sent.push(command.to_string());
        Ok("There are 1 of a max 5 players online: Alex".to_string())
    })
    .unwrap();

    assert_eq!(sent, vec!["list"]);
    assert_eq!(snapshot.players.unwrap().players, vec!["Alex"]);
    assert_eq!(snapshot.version_text, None);
    assert_eq!(snapshot.plugins_text, None);
    assert!(snapshot.warnings.is_empty());
}

#[test]
fn snapshot_fails_when_list_fails_or_is_unreadable() {
    let failed = run_snapshot(Some("paper"), |_| Err(ServerInfoError::Connection("refused".to_string())));
    assert_eq!(failed, Err(ServerInfoError::Connection("refused".to_string())));

    let unreadable = run_snapshot(None, |_| Ok("Unknown command".to_string()));
    assert_eq!(
        unreadable,
        Err(ServerInfoError::Parse("failed to parse 'list' output: Unknown command".to_string()))
    );
}

#[test]
fn warnings_of_failed_snapshot_steps_name_the_stage() {
    let snapshot = run_snapshot(Some("mohist"), |command| match command {
        "list" => Ok("There are 0 of a max 20 players online".to_string()),
        "version" => Err(ServerInfoError::Command("version failed".to_string())),
        _ => Ok("Plugins (0):".to_string()),
    })
    .unwrap();

    assert_eq!(snapshot.warnings.len(), 1);
    assert_eq!(snapshot.warnings[0].stage, "snapshot");
    assert_eq!(snapshot.warnings[0].provider, None);
    assert_eq!(snapshot.warnings[0].message, "version failed");
    assert!(snapshot.plugin_names.is_empty());
}

#[test]
fn finished_snapshot_ignores_further_replies() {
    let probe = run_snapshot(None, |_| Ok("There are 0 of a max 1 players online".to_string())).unwrap();
    let again = probe.clone().on_reply(Err(ServerInfoError::Command("late".to_string()))).unwrap();
    assert_eq!(again, probe);
    assert_eq!(SnapshotCommand::Plugins.as_str(), "plugins");
}

#[test]
fn metrics_probe_asks_providers_in_order_and_keeps_failures() {
    let mut probe = MetricsProbe::new(PerformanceProbeOptions::default().providers);
    assert_eq!(probe.next_provider(), Some(MetricProviderKind::SparkHealth));
    probe.provider_failed("spark missing");
    assert_eq!(probe.next_provider(), Some(MetricProviderKind::SparkTps));
    probe.provider_failed("still missing");

    assert_eq!(probe.position, 2);
    assert_eq!(probe.warnings.len(), 2);
    assert_eq!(probe.warnings[0].stage, "metrics");
    assert_eq!(probe.warnings[0].provider, Some("spark_health"));
    assert_eq!(probe.warnings[0].message, "spark missing");
    assert_eq!(probe.warnings[1].provider, Some("spark_tps"));
    assert_eq!(probe.next_provider(), Some(MetricProviderKind::SparkHealthReport));
}

#[test]
fn metrics_probe_stops_after_the_last_provider() {
    let mut probe = MetricsProbe::new(vec![MetricProviderKind::PaperTps]);
    probe.provider_failed("no tps");
    assert_eq!(probe.next_provider(), None);
    let before = probe.clone();
    probe.provider_failed("ignored");
    assert_eq!(probe, before);
}
