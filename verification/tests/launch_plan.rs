use servercore::flavor::StartupMode;
use servercore::flow::{LocalLaunchEntry, PortProbeKind};
use servercore::launch_plan::{
    detect_core_key_from_path, parse_startup_mode, plan_launch_from_resolution, starter_install_args,
    LocalLaunchPlanInput,
};
use servercore::startup_scan::resolve_launch_target_with_jar;

fn input(mode: &str, configured: Option<&str>, custom: Option<&str>) -> LocalLaunchPlanInput {
    LocalLaunchPlanInput {
        server_id: "demo".to_string(),
        server_root: "/srv/demo".to_string(),
        startup_mode: mode.to_string(),
        configured_startup_path: configured.map(str::to_string),
        custom_command: custom.map(str::to_string),
        java_path: Some("java".to_string()),
        java_home: Some("/opt/jdk".to_string()),
        java_bin_dir: Some("/opt/jdk/bin".to_string()),
        jvm_args: vec!["-Xmx2G".to_string()],
        add_nogui: true,
        port: Some(25565),
    }
}

#[test]
fn jar_mode_plans_a_direct_jar_launch_with_a_port_probe() {
    let i = input("jar", Some("/srv/demo/server.jar"), None);
    let resolution = resolve_launch_target_with_jar("jar", Some("/srv/demo/server.jar"), None, Some("/srv/demo/server.jar".to_string()));
    let plan = plan_launch_from_resolution(i, resolution).expect("jar launch plan should build");
    assert_eq!(plan.spec.startup_mode(), StartupMode::Jar);
    assert_eq!(plan.spec.port_probe.as_ref().map(|p| (p.port, p.kind.clone())), Some((25565, PortProbeKind::TcpListening)));
    match plan.spec.entry {
        LocalLaunchEntry::DirectJar { jar_path, java } => {
            assert_eq!(jar_path, "/srv/demo/server.jar");
            assert_eq!(java.java_path, "java");
            assert_eq!(java.jvm_args, vec!["-Xmx2G"]);
        }
        other => panic!("unexpected entry: {other:?}"),
    }
}

#[test]
fn script_mode_plans_a_script_with_nogui() {
    let i = input("sh", Some("/srv/demo/start.sh"), None);
    let resolution = resolve_launch_target_with_jar("sh", Some("/srv/demo/start.sh"), None, None);
    let plan = plan_launch_from_resolution(i, resolution).expect("script launch plan should build");
    assert_eq!(plan.spec.startup_mode().as_str(), "sh");
    match plan.spec.entry {
        LocalLaunchEntry::Script(script) => {
            assert_eq!(script.trailing_args, vec!["nogui"]);
            assert_eq!(script.java_env.map(|e| e.java_bin_dir), Some("/opt/jdk/bin".to_string()));
        }
        other => panic!("unexpected entry: {other:?}"),
    }
}

#[test]
fn custom_mode_needs_a_command() {
    let resolution = resolve_launch_target_with_jar("custom", None, Some("   "), None);
    let error = plan_launch_from_resolution(input("custom", None, Some("   ")), resolution).expect_err("blank command");
    assert_eq!(error, "Missing custom command for custom startup mode");
    let resolution = resolve_launch_target_with_jar("custom", None, Some("java -jar custom.jar nogui"), None);
    let plan = plan_launch_from_resolution(input("custom", None, Some("java -jar custom.jar nogui")), resolution)
        .expect("custom launch plan should build");
    match plan.spec.entry {
        LocalLaunchEntry::CustomCommand { command, .. } => assert_eq!(command, "java -jar custom.jar nogui"),
        other => panic!("unexpected entry: {other:?}"),
    }
}

#[test]
fn starter_mode_installs_with_core_specific_args() {
    let resolution = resolve_launch_target_with_jar(
        "starter",
        Some("/srv/demo/neoforge-installer.jar"),
        None,
        Some("/srv/demo/neoforge-installer.jar".to_string()),
    );
    let plan = plan_launch_from_resolution(input("starter", Some("/srv/demo/neoforge-installer.jar"), None), resolution)
        .expect("starter launch plan should build");
    match plan.spec.entry {
        LocalLaunchEntry::StarterInstall(starter) => {
            assert_eq!(starter.install_args, vec!["--install-server", ".", "--server-starter"]);
            assert!(matches!(*starter.followup, LocalLaunchEntry::DirectJar { .. }));
        }
        other => panic!("unexpected entry: {other:?}"),
    }
    assert_eq!(detect_core_key_from_path("/x/Arclight-Forge.jar"), "arclight-forge");
    assert_eq!(detect_core_key_from_path("/x/mohist.jar"), "mohist");
    assert_eq!(detect_core_key_from_path("/x/paper.jar"), "unknown");
    assert_eq!(starter_install_args(Some("forge")), vec!["--installServer", "."]);
    assert_eq!(starter_install_args(None), vec!["--install-server", "."]);
}

#[test]
fn missing_pieces_are_reported() {
    let mut i = input("jar", None, None);
    i.java_path = None;
    let resolution = resolve_launch_target_with_jar("jar", None, None, None);
    assert_eq!(
        plan_launch_from_resolution(i.clone(), resolution).err().as_deref(),
        Some("Missing jar path for jar startup mode")
    );
    let resolution = resolve_launch_target_with_jar("jar", Some("/srv/demo/a.jar"), None, None);
    i.configured_startup_path = Some("/srv/demo/a.jar".to_string());
    assert_eq!(
        plan_launch_from_resolution(i, resolution).err().as_deref(),
        Some("Java path is required for jar startup mode")
    );
    assert_eq!(parse_startup_mode("weird"), Err("Unsupported startup mode: weird".to_string()));
    assert_eq!(parse_startup_mode(" EXE "), Ok(StartupMode::Exe));
}
