use servercore::metrics::{
    forge_from_captures, forge_scope_from_captures, paper_mspt_from_captures, paper_tps_from_captures,
    read_forge_tps, read_paper_mspt, read_paper_tps, read_provider, read_spark_health, spark_from_captures,
    ProviderReading,
};
use servercore::probe::MetricsProbe;
use servercore::server_info::{
    MetricProviderKind, PerformanceProbeOptions, PerformanceScopeKind, ProbeWarning, ServerInfoError,
};

fn number(text: &Option<String>) -> Option<f32> {
    text.as_deref().map(|t| t.parse::<f32>().unwrap())
}

fn run_metrics<F>(
    options: &PerformanceProbeOptions,
    mut runner: F,
) -> (Option<(MetricProviderKind, ProviderReading)>, Vec<ProbeWarning>)
where
    F: FnMut(&str) -> Result<String, ServerInfoError>,
{
    let mut probe = MetricsProbe::new(options.providers.clone());
    while let Some(provider) = probe.next_provider() {
        if let Some(reading) = probe.take_reply(runner(provider.command())) {
            return (Some((provider, reading)), probe.warnings);
        }
    }
    (None, probe.warnings)
}

fn first_tps(reading: &ProviderReading) -> Option<f32> {
    match reading {
        ProviderReading::Spark(r) => number(&r.tps),
        ProviderReading::Forge(r) => number(&r.overall_tps),
        ProviderReading::PaperTps(r) => r.averages.first().map(|t| t.parse::<f32>().unwrap()),
        ProviderReading::PaperMspt(_) => None,
    }
}

#[test]
fn parses_spark_health_summary() {
    let parsed = read_spark_health("TPS: 19.97\nMSPT: 12.4\nCPU: healthy", "spark health").unwrap();
    assert_eq!(number(&parsed.tps), Some(19.97));
    assert_eq!(number(&parsed.mspt), Some(12.4));
    assert_eq!(parsed.text, "TPS: 19.97\nMSPT: 12.4\nCPU: healthy");
    let read = read_provider(MetricProviderKind::SparkHealth, "TPS: 19.97\nMSPT: 12.4\nCPU: healthy").unwrap();
    assert_eq!(read, ProviderReading::Spark(parsed));
}

#[test]
fn parses_spark_tps_summary_with_command_echo() {
    let parsed = read_spark_health("/spark tps\nTPS: 19.98\nMSPT: 10.1", "spark tps").unwrap();
    assert_eq!(number(&parsed.tps), Some(19.98));
    assert_eq!(number(&parsed.mspt), Some(10.1));
    assert_eq!(parsed.text, "TPS: 19.98\nMSPT: 10.1");
}

#[test]
fn parses_spark_healthreport_summary() {
    let parsed = read_spark_health("TPS: 19.97\nMSPT: 12.4\nCPU: healthy", "spark healthreport").unwrap();
    assert_eq!(number(&parsed.tps), Some(19.97));
    assert_eq!(number(&parsed.mspt), Some(12.4));
}

#[test]
fn parses_spark_healthreport_with_command_echo() {
    let parsed = read_spark_health("/spark healthreport\nTPS: 19.97\nMSPT: 12.4", "spark healthreport").unwrap();
    assert_eq!(number(&parsed.tps), Some(19.97));
    assert_eq!(number(&parsed.mspt), Some(12.4));
}

#[test]
fn parses_forge_tps_summary_and_scopes() {
    let parsed =
        read_forge_tps("Overall tps: 20.0 mspt: 15.2\nDimension minecraft:overworld tps: 19.8 mspt: 16.1").unwrap();
    assert_eq!(number(&parsed.overall_tps), Some(20.0));
    assert_eq!(number(&parsed.overall_mspt), Some(15.2));
    assert_eq!(parsed.scopes.len(), 2);
    assert_eq!(parsed.scopes[0].kind, PerformanceScopeKind::Global);
    assert_eq!(parsed.scopes[0].name, None);
    assert_eq!(parsed.scopes[1].kind, PerformanceScopeKind::Dimension);
    assert_eq!(parsed.scopes[1].name.as_deref(), Some("minecraft:overworld"));
    assert_eq!(parsed.scopes[1].tps.as_deref(), Some("19.8"));
    assert_eq!(parsed.scopes[1].mspt.as_deref(), Some("16.1"));
}

#[test]
fn parses_paper_tps_summary() {
    let parsed = read_paper_tps("TPS from last 1m, 5m, 15m: 20.0, 19.9, 19.8").unwrap();
    assert_eq!(parsed.averages, vec!["20.0", "19.9", "19.8"]);
    assert_eq!(parsed.averages[0].parse::<f32>().unwrap(), 20.0);
}

#[test]
fn parses_paper_mspt_summary_with_command_echo() {
    let parsed = read_paper_mspt(
        "/mspt\nServer tick times (avg/min/max) from last 5s, 10s, 1m:\n◴ 12.3/10.0/17.1, 13.4/9.8/18.0, 14.5/9.9/20.2",
    )
    .unwrap();
    assert_eq!(parsed.values.len(), 9);
    assert_eq!(parsed.values[0].parse::<f32>().unwrap(), 12.3);
    assert_eq!(parsed.values, vec!["12.3", "10.0", "17.1", "13.4", "9.8", "18.0", "14.5", "9.9", "20.2"]);
}

#[test]
fn performance_probe_tries_next_provider_after_failure() {
    let options = PerformanceProbeOptions::default();
    let (found, warnings) = run_metrics(&options, |command| match command {
        "spark health" => Ok("Unknown or incomplete command".to_string()),
        "spark tps" => Ok("Unknown or incomplete command".to_string()),
        "spark healthreport" => Ok("Unknown or incomplete command".to_string()),
        "forge tps" => Ok("Overall tps: 20.0 mspt: 15.2".to_string()),
        "tps" => Ok("TPS from last 1m, 5m, 15m: 20.0, 19.9, 19.8".to_string()),
        "mspt" => Ok("Server tick times (avg/min/max) from last 5s, 10s, 1m:\n◴ 12.3/10.0/17.1, 13.4/9.8/18.0, 14.5/9.9/20.2".to_string()),
        other => Err(ServerInfoError::Command(format!("unexpected command: {other}"))),
    });
    let (provider, _) = found.unwrap();
    assert_eq!(provider, MetricProviderKind::ForgeTps);
    assert!(warnings.iter().any(|warning| warning.provider == Some("spark_health")));
    assert!(warnings.iter().any(|warning| warning.provider == Some("spark_tps")));
    assert!(warnings.iter().any(|warning| warning.provider == Some("spark_healthreport")));
    assert!(!warnings.iter().any(|warning| warning.provider == Some("paper_tps")));
}

#[test]
fn performance_probe_falls_back_to_paper_providers() {
    let options = PerformanceProbeOptions::default();
    let (found, warnings) = run_metrics(&options, |command| match command {
        "spark health" => Ok("Unknown or incomplete command".to_string()),
        "spark tps" => Ok("Unknown or incomplete command".to_string()),
        "spark healthreport" => Ok("Unknown or incomplete command".to_string()),
        "forge tps" => Ok("Unknown or incomplete command".to_string()),
        "tps" => Ok("TPS from last 1m, 5m, 15m: 20.0, 19.9, 19.8".to_string()),
        "mspt" => Ok("Unknown or incomplete command".to_string()),
        other => Err(ServerInfoError::Command(format!("unexpected command: {other}"))),
    });
    let (provider, reading) = found.unwrap();
    assert_eq!(provider, MetricProviderKind::PaperTps);
    assert_eq!(first_tps(&reading), Some(20.0));
    assert!(warnings.iter().any(|warning| warning.provider == Some("forge_tps")));
}

#[test]
fn performance_probe_returns_none_when_all_providers_fail() {
    let options = PerformanceProbeOptions::default();
    let (found, warnings) = run_metrics(&options, |_command| Ok("Unknown or incomplete command".to_string()));
    assert!(found.is_none());
    assert_eq!(warnings.len(), 6);
    for name in ["spark_health", "spark_tps", "spark_healthreport", "forge_tps", "paper_tps", "paper_mspt"] {
        assert!(warnings.iter().any(|warning| warning.provider == Some(name)));
    }
}

#[test]
fn unreadable_replies_quote_the_trimmed_reply() {
    assert_eq!(read_paper_tps("  /tps\n nothing here  "), Err("unable to parse tps output: nothing here".to_string()));
    assert_eq!(
        read_paper_mspt("12.3/10.0/17.1, 13.4/9.8/18.0, 14.5/9.9/20.2"),
        Err("unable to parse mspt output: 12.3/10.0/17.1, 13.4/9.8/18.0, 14.5/9.9/20.2".to_string())
    );
    assert_eq!(
        read_spark_health("CPU: healthy", "spark tps"),
        Err("unable to parse spark tps output: CPU: healthy".to_string())
    );
    assert_eq!(read_forge_tps("forge tps\n\n"), Err("unable to parse forge tps output: ".to_string()));
}

#[test]
fn spark_readings_fall_back_to_spelled_out_values() {
    let parsed = read_spark_health("ticks per second 19.5\ntick duration: 48.2 ms", "spark health").unwrap();
    assert_eq!(parsed.tps.as_deref(), Some("19.5"));
    assert_eq!(parsed.mspt.as_deref(), Some("48.2"));
    let only_mspt = read_spark_health("milliseconds per tick=7", "spark health").unwrap();
    assert_eq!(only_mspt.tps, None);
    assert_eq!(only_mspt.mspt.as_deref(), Some("7"));
}

#[test]
fn forge_scopes_tell_worlds_from_dimensions_and_keep_line_order() {
    let parsed = read_forge_tps(
        "  WORLD  My Base  tps=18.5 mspt=40.0\nnoise line\nmean tps: 19.0\nmean mspt: 30.5\ndimension the_nether tps: 20 mspt: 2",
    )
    .unwrap();
    assert_eq!(parsed.overall_tps.as_deref(), Some("19.0"));
    assert_eq!(parsed.overall_mspt.as_deref(), Some("30.5"));
    assert_eq!(parsed.scopes.len(), 2);
    assert_eq!(parsed.scopes[0].kind, PerformanceScopeKind::World);
    assert_eq!(parsed.scopes[0].name.as_deref(), Some("My Base"));
    assert_eq!(parsed.scopes[1].kind, PerformanceScopeKind::Dimension);
    assert_eq!(parsed.scopes[1].name.as_deref(), Some("the_nether"));
}

#[test]
fn unavailable_provider_replies_are_screened_out() {
    assert_eq!(
        read_provider(MetricProviderKind::PaperTps, "  Unknown command. Type \"/help\" for help.\n"),
        Err("provider command unavailable: Unknown command. Type \"/help\" for help.".to_string())
    );
    let read = read_provider(MetricProviderKind::PaperTps, "TPS from last 1m, 5m, 15m: 20.0, 20.0, 20.0").unwrap();
    assert!(matches!(read, ProviderReading::PaperTps(_)));
}

#[test]
fn take_reply_keeps_the_probe_on_a_reading_and_moves_on_after_a_failure() {
    let mut probe = MetricsProbe::new(vec![MetricProviderKind::SparkTps, MetricProviderKind::PaperMspt]);
    assert_eq!(probe.take_reply(Err(ServerInfoError::Connection("refused".to_string()))), None);
    assert_eq!(probe.position, 1);
    assert_eq!(probe.warnings[0].provider, Some("spark_tps"));
    assert_eq!(probe.warnings[0].message, "refused");
    let before = probe.clone();
    let reading = probe.take_reply(Ok(
        "mspt\nServer tick times (avg/min/max) from last 5s, 10s, 1m:\n1/2/3, 4/5/6, 7/8/9".to_string(),
    ));
    assert!(matches!(reading, Some(ProviderReading::PaperMspt(_))));
    assert_eq!(probe, before);
    probe.position = 2;
    assert_eq!(probe.take_reply(Ok("TPS: 20".to_string())), None);
    assert_eq!(probe.position, 2);
}

#[test]
fn exhausted_probe_warns_once_per_provider_in_order() {
    let options = PerformanceProbeOptions::default();
    let (found, warnings) = run_metrics(&options, |command| match command {
        "forge tps" => Err(ServerInfoError::Command("no forge".to_string())),
        _ => Ok("nothing to read".to_string()),
    });
    assert!(found.is_none());
    let names: Vec<_> = warnings.iter().map(|warning| warning.provider.unwrap()).collect();
    assert_eq!(names, vec!["spark_health", "spark_tps", "spark_healthreport", "forge_tps", "paper_tps", "paper_mspt"]);
    assert!(warnings.iter().all(|warning| warning.stage == "metrics"));
    assert_eq!(warnings[0].message, "unable to parse spark health output: nothing to read");
    assert_eq!(warnings[3].message, "no forge");
    assert_eq!(warnings[4].message, "unable to parse tps output: nothing to read");
}

fn groups(texts: &[Option<&str>]) -> Option<Vec<Option<String>>> {
    Some(texts.iter().map(|t| t.map(|t| t.to_string())).collect())
}

#[test]
fn paper_readings_from_given_captures() {
    let three = groups(&[Some("all"), Some("20.0"), Some("19.9"), Some("19.8")]);
    let read = paper_tps_from_captures("TPS text", &three).unwrap();
    assert_eq!(read.text, "TPS text");
    assert_eq!(read.averages, vec!["20.0", "19.9", "19.8"]);
    let two = groups(&[Some("all"), Some("20.0"), None, Some("19.8")]);
    assert_eq!(paper_tps_from_captures("x", &two), Err("unable to parse tps output: x".to_string()));

    let nine = groups(&[Some("all"), Some("1"), Some("2"), Some("3"), Some("4"), Some("5"), Some("6"), Some("7"), Some("8"), Some("9")]);
    let header = groups(&[Some("header")]);
    assert_eq!(paper_mspt_from_captures("m", &header, &nine).unwrap().values.len(), 9);
    assert_eq!(paper_mspt_from_captures("m", &None, &nine), Err("unable to parse mspt output: m".to_string()));
}

#[test]
fn spark_and_forge_readings_from_given_captures() {
    let tps = vec![None, groups(&[Some("ticks per second 19.5"), Some("19.5")]), groups(&[Some("x"), Some("3")])];
    let read = spark_from_captures("text", "spark health", &tps, &vec![None]).unwrap();
    assert_eq!(read.tps.as_deref(), Some("19.5"));
    assert_eq!(read.mspt, None);
    assert_eq!(
        spark_from_captures("text", "spark tps", &vec![None], &vec![None, None]),
        Err("unable to parse spark tps output: text".to_string())
    );

    let scope = forge_scope_from_captures(&None, &groups(&[Some("line"), Some("World"), Some(" Nether "), Some("20"), Some("2")]))
        .unwrap();
    assert_eq!(scope.kind, PerformanceScopeKind::World);
    assert_eq!(scope.name.as_deref(), Some("Nether"));
    assert_eq!(scope.mspt.as_deref(), Some("2"));
    assert_eq!(forge_scope_from_captures(&None, &None), None);
    let overall = forge_scope_from_captures(&groups(&[Some("line"), Some("20.0"), Some("15.2")]), &None).unwrap();
    assert_eq!(overall.kind, PerformanceScopeKind::Global);
    assert_eq!(overall.tps.as_deref(), Some("20.0"));

    assert_eq!(
        forge_from_captures("", Vec::new(), &vec![None], &vec![None]),
        Err("unable to parse forge tps output: ".to_string())
    );
    let read = forge_from_captures("t", vec![scope], &vec![None, None], &vec![None]).unwrap();
    assert_eq!(read.scopes.len(), 1);
    assert_eq!(read.overall_tps, None);
}
