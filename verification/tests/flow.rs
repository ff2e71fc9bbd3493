use servercore::flow::{owned_stop_outcome, port_probe_status, OwnedStopEnd};
use servercore::flavor::StartupMode;
use servercore::flow::{
    args_file_write, build_bat_command_text, build_windows_java_env_prefix, check_pid_stop, derive_local_flow_state,
    escape_for_cmd, local_flow_status, pid_stop_outcome, plan_launch_command, plan_owned_stop, prepend_path_entry,
    relative_or_owned_text, tasklist_csv_has_pid, ArgsFileSpec, GracefulStopSpec, JavaCommandSpec, JavaEnvSpec,
    LaunchError, LocalFlowState, LocalLaunchEntry, LocalLaunchSpec, ManagedJavaMode, PortProbeKind, PortProbeSpec,
    PortProbeStatus, ProcessStopStrategy, ScriptLaunchSpec, StarterInstallSpec, StopError, StopOutcome,
};

#[test]
fn tasklist_csv_has_pid_matches_actual_csv_rows() {
    let stdout = "\"java.exe\",\"25212\",\"Console\",\"1\",\"512,000 K\"\r\n";

    assert!(tasklist_csv_has_pid(stdout, 25212));
    assert!(!tasklist_csv_has_pid(stdout, 99999));
}

#[test]
fn tasklist_csv_has_pid_rejects_localized_no_match_text() {
    let stdout = "INFO: 没有运行的任务匹配指定标准。\r\n";

    assert!(!tasklist_csv_has_pid(stdout, 25212));
}

#[test]
fn derive_local_flow_state_reports_starting_when_process_is_running_but_port_is_not_ready() {
    let probe = PortProbeStatus { port: 25565, listening: false };

    let state = derive_local_flow_state(true, true, Some(&probe));

    assert_eq!(state, LocalFlowState::Starting);
}

#[test]
fn flow_status_follows_process_and_port() {
    assert_eq!(derive_local_flow_state(false, false, None), LocalFlowState::Unknown);
    assert_eq!(derive_local_flow_state(true, false, None), LocalFlowState::Stopped);
    let listening = PortProbeStatus { port: 25565, listening: true };
    assert_eq!(derive_local_flow_state(true, true, Some(&listening)), LocalFlowState::Running);
    let status = local_flow_status(Some(42), false, None);
    assert_eq!(status.state, LocalFlowState::Stopped);
    assert!(!status.running);
    assert_eq!(status.exit_code, None);
}

fn java(args: &[&str]) -> JavaCommandSpec {
    JavaCommandSpec {
        java_path: "java".to_string(),
        java_env: None,
        jvm_args: args.iter().map(|a| a.to_string()).collect(),
        add_nogui: true,
    }
}

#[test]
fn direct_jar_command_lists_jvm_args_jar_and_nogui() {
    let spec = LocalLaunchSpec::new(
        "jar-test",
        "/srv/jar",
        LocalLaunchEntry::DirectJar { jar_path: "/srv/jar/server.jar".to_string(), java: java(&["-Xmx4096M", "-Xms2048M"]) },
    );
    assert_eq!(spec.startup_mode(), StartupMode::Jar);
    let plan = plan_launch_command(&spec, false).expect("command should plan");
    assert_eq!(plan.program, "java");
    assert_eq!(plan.args, vec!["-Xmx4096M", "-Xms2048M", "-jar", "server.jar", "nogui"]);
    assert_eq!(plan.current_dir.as_deref(), Some("/srv/jar"));
}

#[test]
fn starter_command_appends_install_args() {
    let spec = LocalLaunchSpec::new(
        "starter",
        "/srv",
        LocalLaunchEntry::StarterInstall(StarterInstallSpec {
            installer_jar: "neoforge-installer.jar".to_string(),
            java: java(&[]),
            install_args: vec!["--install-server".to_string(), ".".to_string()],
            followup: Box::new(LocalLaunchEntry::DirectJar { jar_path: "x.jar".to_string(), java: java(&[]) }),
        }),
    );
    let plan = plan_launch_command(&spec, false).expect("command should plan");
    assert_eq!(plan.args, vec!["-jar", "neoforge-installer.jar", "nogui", "--install-server", "."]);
}

#[test]
fn script_commands_depend_on_the_platform() {
    let env = JavaEnvSpec::new("C:/Java/JDK 21", "C:/Java/JDK 21/bin");
    let bat = LocalLaunchSpec::new(
        "bat-test",
        "/srv",
        LocalLaunchEntry::Script(ScriptLaunchSpec {
            startup_mode: StartupMode::Bat,
            script_path: "/srv/launch.bat".to_string(),
            java_env: Some(env.clone()),
            windows_codepage: Some("65001".to_string()),
            args_file: None,
            trailing_args: vec!["nogui".to_string()],
        }),
    );
    let plan = plan_launch_command(&bat, true).expect("bat should plan on windows");
    assert_eq!(plan.program, "cmd");
    assert_eq!(plan.args[0], "/d");
    assert_eq!(plan.args[1], "/c");
    assert!(plan.args[2].contains("chcp 65001>nul"));
    assert!(plan.args[2].contains("JAVA_HOME=C:/Java/JDK 21"));
    assert!(plan.args[2].contains("PATH=C:/Java/JDK 21/bin;%PATH%"));
    assert!(plan.args[2].contains("call \"launch.bat\" nogui"));
    assert_eq!(
        plan_launch_command(&bat, false),
        Err(LaunchError::UnsupportedStartupMode(Some("bat".to_string())))
    );

    let sh = LocalLaunchSpec::new(
        "sh-test",
        "/srv",
        LocalLaunchEntry::Script(ScriptLaunchSpec {
            startup_mode: StartupMode::Sh,
            script_path: "/srv/start.sh".to_string(),
            java_env: Some(JavaEnvSpec::new("/opt/jdk", "/opt/jdk/bin")),
            windows_codepage: None,
            args_file: None,
            trailing_args: vec!["nogui".to_string()],
        }),
    );
    let plan = plan_launch_command(&sh, false).expect("sh should plan");
    assert_eq!(plan.program, "sh");
    assert_eq!(plan.args, vec!["start.sh", "nogui"]);
    assert_eq!(plan.java_env.as_ref().map(|e| e.java_home.as_str()), Some("/opt/jdk"));
}

#[test]
fn custom_commands_need_text() {
    let blank = LocalLaunchSpec::new(
        "custom",
        "/srv",
        LocalLaunchEntry::CustomCommand { command: "  ".to_string(), startup_mode: StartupMode::Custom, java_env: None },
    );
    assert_eq!(plan_launch_command(&blank, false), Err(LaunchError::MissingCustomCommand));
    let custom = LocalLaunchSpec::new(
        "custom",
        "/srv",
        LocalLaunchEntry::CustomCommand { command: "exit 0".to_string(), startup_mode: StartupMode::Custom, java_env: None },
    )
    .with_port_probe(PortProbeSpec { port: 25565, kind: PortProbeKind::TcpListening });
    let plan = plan_launch_command(&custom, false).expect("custom should plan");
    assert_eq!(plan.program, "sh");
    assert_eq!(plan.args, vec!["-c", "exit 0"]);
    assert_eq!(custom.port_probe.map(|p| p.port), Some(25565));
}

#[test]
fn args_files_list_one_argument_per_line() {
    let spec = ArgsFileSpec {
        path: "user_jvm_args.txt".to_string(),
        mode: ManagedJavaMode::ArgsFileOnly,
        args: vec!["-Xmx4096M".to_string(), "-Xms2048M".to_string()],
    };
    assert_eq!(
        args_file_write("/srv", Some(&spec)),
        Some(("/srv/user_jvm_args.txt".to_string(), "-Xmx4096M\n-Xms2048M\n".to_string()))
    );
    let direct = ArgsFileSpec { mode: ManagedJavaMode::DirectJvmArgs, ..spec.clone() };
    assert_eq!(args_file_write("/srv", Some(&direct)), None);
    let empty = ArgsFileSpec { args: Vec::new(), path: "/abs/args.txt".to_string(), ..spec };
    assert_eq!(args_file_write("/srv", Some(&empty)), Some(("/abs/args.txt".to_string(), String::new())));
}

#[test]
fn command_texts_are_built_exactly() {
    assert_eq!(escape_for_cmd("a^b&c(d)e%f"), "a^^b^&c^(d^)e%%f");
    assert_eq!(prepend_path_entry("/opt/jdk/bin", "/usr/bin", ":"), "/opt/jdk/bin:/usr/bin");
    assert_eq!(prepend_path_entry("/opt/jdk/bin", "", ":"), "/opt/jdk/bin");
    assert_eq!(
        build_windows_java_env_prefix("C:/J", "C:/J/bin"),
        "set \"JAVA_HOME=C:/J\" & set \"PATH=C:/J/bin;%PATH%\""
    );
    assert_eq!(
        build_bat_command_text("run (1).bat", None, Some(&"  ".to_string()), &Vec::new()),
        "call \"run ^(1^).bat\""
    );
    assert_eq!(relative_or_owned_text("/srv", "/srv/a/b.jar"), "a/b.jar");
    assert_eq!(relative_or_owned_text("/srv", "/opt/b.jar"), "/opt/b.jar");
}

#[test]
fn stop_decisions() {
    let graceful = GracefulStopSpec::stdin_line("stop");
    assert_eq!(graceful.timeout, std::time::Duration::from_secs(30));
    assert_eq!(graceful.poll_interval, std::time::Duration::from_millis(250));
    let shorter = graceful.clone().with_timeout(std::time::Duration::from_secs(2));
    assert_eq!(shorter.timeout, std::time::Duration::from_secs(2));
    assert_eq!(shorter.stdin_line, "stop");
    assert_eq!(
        check_pid_stop(Some(&graceful), &ProcessStopStrategy::GracefulThenForce),
        Err(StopError::GracefulStopUnsupported)
    );
    assert_eq!(check_pid_stop(Some(&graceful), &ProcessStopStrategy::ForceOnly), Ok(()));
    assert_eq!(check_pid_stop(None, &ProcessStopStrategy::GracefulThenForce), Ok(()));
    assert_eq!(
        pid_stop_outcome(7, false),
        StopOutcome { pid: 7, graceful_attempted: false, forced: false, exit_code: None }
    );
    assert_eq!(plan_owned_stop(Some(&graceful), &ProcessStopStrategy::GracefulThenForce), Ok(Some("stop\n".to_string())));
    assert_eq!(plan_owned_stop(None, &ProcessStopStrategy::GracefulThenForce), Err(StopError::GracefulStopUnsupported));
    assert_eq!(plan_owned_stop(None, &ProcessStopStrategy::ForceOnly), Ok(None));
}

#[test]
fn direct_jar_command_includes_jvm_args_and_nogui() {
    let spec = LocalLaunchSpec::new(
        "jar-test",
        "/tmp/sl-server-flow-jar",
        LocalLaunchEntry::DirectJar {
            jar_path: "server.jar".to_string(),
            java: JavaCommandSpec {
                java_path: "sh".to_string(),
                java_env: None,
                jvm_args: vec!["-Xmx4096M".to_string(), "-Xms2048M".to_string()],
                add_nogui: true,
            },
        },
    );

    let command = plan_launch_command(&spec, false).expect("command should build");

    assert_eq!(command.args, vec!["-Xmx4096M", "-Xms2048M", "-jar", "server.jar", "nogui"]);
}

#[test]
fn owned_stop_outcomes_record_how_the_stop_ended() {
    assert_eq!(
        owned_stop_outcome(7, true, OwnedStopEnd::ExitedGracefully(Some(0))),
        StopOutcome { pid: 7, graceful_attempted: true, forced: false, exit_code: Some(0) }
    );
    assert_eq!(
        owned_stop_outcome(7, true, OwnedStopEnd::Killed),
        StopOutcome { pid: 7, graceful_attempted: true, forced: true, exit_code: None }
    );
    assert_eq!(
        owned_stop_outcome(8, false, OwnedStopEnd::Killed),
        StopOutcome { pid: 8, graceful_attempted: false, forced: true, exit_code: None }
    );
}

#[test]
fn probe_local_status_reports_unknown_without_pid() {
    let status = local_flow_status(None, false, None);

    assert_eq!(status.state, LocalFlowState::Unknown);
    assert!(!status.running);
}

#[test]
fn probe_local_status_reports_stopped_for_missing_process_with_pid() {
    let probe = PortProbeSpec { port: 9, kind: PortProbeKind::TcpListening };

    let status = local_flow_status(Some(u32::MAX), false, Some(port_probe_status(&probe, false)));

    assert_eq!(status.state, LocalFlowState::Stopped);
    assert!(!status.running);
}
