use servercore::startup_scan::{
    archive_format_of, archive_jar_result, archive_pumpkin_result, build_parsed_core_from_script_target,
    choose_server_jar, classify_folder_entry, detect_core_display_hint_from_filename,
    detect_core_key_from_filename_and_main_class, extract_target_from_script_line,
    find_manifest_main_class, format_core_label, is_pumpkin_executable, jar_path_preference,
    normalize_startup_mode, parse_script_startup_target, resolve_direct_jar_launch_target,
    resolve_launch_target, resolve_launch_target_with_jar, select_best_server_jar_path,
    startup_mode_prefers_direct_jar, to_relative_archive_path, ArchiveFormat, FolderEntryKind,
    JarPathPreference, StartupCandidateKind, StartupFolderScan, StartupScanConfidence,
    STARTUP_SCAN_CORE_KEY_OPTIONS,
};

fn chars(s: &str) -> Vec<char> {
    s.chars().collect()
}

fn text(v: Option<Vec<char>>) -> Option<String> {
    v.map(|c| c.into_iter().collect())
}

#[test]
fn detect_core_key_from_filename_and_main_class_normalizes_aliases() {
    assert_eq!(
        detect_core_key_from_filename_and_main_class("Waterfall.jar", Some("net.md_5.bungee.Bootstrap"),)
            .as_deref(),
        Some("lightfall")
    );
    assert_eq!(
        detect_core_key_from_filename_and_main_class("Leaf.jar", None).as_deref(),
        Some("leaves")
    );
}

#[test]
fn startup_scan_options_expose_canonical_core_keys() {
    assert!(STARTUP_SCAN_CORE_KEY_OPTIONS.contains(&"leaves"));
    assert!(STARTUP_SCAN_CORE_KEY_OPTIONS.contains(&"pufferfish"));
    assert!(STARTUP_SCAN_CORE_KEY_OPTIONS.contains(&"forge"));
    assert!(STARTUP_SCAN_CORE_KEY_OPTIONS.contains(&"fabric"));
    assert!(STARTUP_SCAN_CORE_KEY_OPTIONS.contains(&"vanilla"));
    assert!(STARTUP_SCAN_CORE_KEY_OPTIONS.contains(&"nukkit"));
    assert!(!STARTUP_SCAN_CORE_KEY_OPTIONS.contains(&"leaf"));
    assert!(!STARTUP_SCAN_CORE_KEY_OPTIONS.contains(&"arclight-fabric"));
}

#[test]
fn resolve_direct_jar_launch_target_uses_filename_for_root_jar() {
    let target = resolve_direct_jar_launch_target("E:/servers/fabric-1.20.1", "E:/servers/fabric-1.20.1/server.jar");

    assert_eq!(target, "server.jar");
}

#[test]
fn resolve_direct_jar_launch_target_keeps_nested_or_external_path() {
    let nested = resolve_direct_jar_launch_target(
        "E:/servers/fabric-1.20.1",
        "E:/servers/fabric-1.20.1/libraries/server.jar",
    );
    let external = resolve_direct_jar_launch_target("E:/servers/fabric-1.20.1", "E:/srv/shared/server.jar");

    assert_eq!(nested.replace('\\', "/"), "E:/servers/fabric-1.20.1/libraries/server.jar");
    assert_eq!(external.replace('\\', "/"), "E:/srv/shared/server.jar");
}

#[test]
fn resolve_launch_target_matches_mode_shape() {
    assert_eq!(
        resolve_launch_target(
            "jar",
            None,
            Some("E:/servers/paper/server.jar"),
            Some("java -jar custom.jar nogui"),
            "start.sh",
        ),
        "E:/servers/paper/server.jar"
    );
    assert_eq!(
        resolve_launch_target(
            "custom",
            None,
            Some("E:/servers/paper/server.jar"),
            Some("java -jar custom.jar nogui"),
            "start.sh",
        ),
        "java -jar custom.jar nogui"
    );
    assert_eq!(
        resolve_launch_target(
            "sh",
            Some("E:/servers/paper/found.jar"),
            Some("E:/servers/paper/server.jar"),
            Some("java -jar custom.jar nogui"),
            "start.sh",
        ),
        "E:/servers/paper/found.jar"
    );
}

#[test]
fn script_mode_launch_target_uses_the_file_name() {
    let resolved = resolve_launch_target_with_jar("sh", Some("E:/servers/paper/start.sh"), None, None);

    assert_eq!(resolved.startup_mode, "sh");
    assert_eq!(resolved.startup_filename, "start.sh");
    assert_eq!(resolved.preferred_jar_path, None);
    assert_eq!(resolved.launch_target, "start.sh");
}

#[test]
fn jar_mode_prefers_a_configured_jar_and_skips_script_modes() {
    assert_eq!(
        jar_path_preference("jar", Some("E:/servers/paper/server.jar")),
        JarPathPreference::Configured("E:/servers/paper/server.jar".to_string())
    );
    assert_eq!(
        jar_path_preference("sh", Some("E:/servers/paper/server.jar")),
        JarPathPreference::NoPreference
    );
    assert_eq!(jar_path_preference("starter", Some("  start.sh ")), JarPathPreference::SearchServerRoot);
    assert_eq!(jar_path_preference("jar", Some("   ")), JarPathPreference::NoPreference);
    assert_eq!(jar_path_preference("jar", None), JarPathPreference::NoPreference);
    assert_eq!(
        jar_path_preference(" JAR ", Some(" Server.JAR ")),
        JarPathPreference::Configured("Server.JAR".to_string())
    );
}

#[test]
fn startup_modes_normalize_to_known_names() {
    assert_eq!(normalize_startup_mode(" Starter "), "starter");
    assert_eq!(normalize_startup_mode("CMD"), "bat");
    assert_eq!(normalize_startup_mode("ps1"), "ps1");
    assert_eq!(normalize_startup_mode("weird"), "jar");
    assert_eq!(normalize_startup_mode(&normalize_startup_mode("Cmd")), "bat");
    assert!(startup_mode_prefers_direct_jar("starter"));
    assert!(!startup_mode_prefers_direct_jar("custom"));
}

#[test]
fn script_lines_name_their_start_targets() {
    assert_eq!(
        text(extract_target_from_script_line(&chars("java -Xmx2G -jar \"paper clip.jar\" nogui"))),
        Some("paper clip.jar".to_string())
    );
    assert_eq!(
        text(extract_target_from_script_line(&chars("& './pumpkin.exe' nogui"))),
        Some("./pumpkin.exe".to_string())
    );
    assert_eq!(
        text(extract_target_from_script_line(&chars("./launch.sh nogui"))),
        Some("./launch.sh".to_string())
    );
    assert_eq!(text(extract_target_from_script_line(&chars("rem java -jar x.jar"))), None);
    assert_eq!(text(extract_target_from_script_line(&chars("# java -jar x.jar"))), None);
    assert_eq!(text(extract_target_from_script_line(&chars("@echo off"))), None);
    assert_eq!(
        parse_script_startup_target("@echo off\njava -jar paperclip.jar nogui\n").as_deref(),
        Some("paperclip.jar")
    );
    assert_eq!(parse_script_startup_target("#!/bin/sh\n"), None);
}

#[test]
fn display_hints_follow_file_names() {
    assert_eq!(detect_core_display_hint_from_filename("E:/x/arclight-neoforge-1.jar"), "arclight_neoforge");
    assert_eq!(detect_core_display_hint_from_filename("PowerNukkit.jar"), "powernukkitx");
    assert_eq!(detect_core_display_hint_from_filename("bedrock_server"), "bds");
    assert_eq!(detect_core_display_hint_from_filename("mystery.jar"), "unknown");
    assert_eq!(format_core_label("pocketmine"), "PocketMine-MP");
    assert_eq!(format_core_label("paper"), "paper");
}

#[test]
fn manifests_name_their_main_class() {
    assert_eq!(
        find_manifest_main_class("Manifest-Version: 1.0\r\nMain-Class: io.papermc.paperclip.Main\r\n\r\n").as_deref(),
        Some("io.papermc.paperclip.Main")
    );
    assert_eq!(
        find_manifest_main_class("main-class: net.minecraft.server\n .MinecraftServer\n").as_deref(),
        Some("net.minecraft.server.MinecraftServer")
    );
    assert_eq!(find_manifest_main_class("Main-Class:   \nOther: x\n"), None);
    assert_eq!(find_manifest_main_class(""), None);
}

#[test]
fn best_server_jar_prefers_telling_names_then_alphabetical_order() {
    let files = vec![
        "/srv/zeta.jar".to_string(),
        "/srv/Paper-1.20.jar".to_string(),
        "/srv/alpha.jar".to_string(),
        "/srv/forge-1.20.jar".to_string(),
    ];
    assert_eq!(select_best_server_jar_path(files).as_deref(), Some("/srv/forge-1.20.jar"));
    assert_eq!(select_best_server_jar_path(vec!["/srv/b.jar".into(), "/srv/a.jar".into()]).as_deref(), Some("/srv/a.jar"));
    assert_eq!(select_best_server_jar_path(Vec::new()), None);
    assert_eq!(
        choose_server_jar(Vec::new(), vec!["/srv/fake.jar".to_string()]),
        Err("Detected a directory masquerading as a JAR file: /srv/fake.jar".to_string())
    );
    assert_eq!(
        choose_server_jar(Vec::new(), Vec::new()),
        Err("No JAR file found in server root".to_string())
    );
}

#[test]
fn folder_scan_orders_candidates_and_prefers_known_cores() {
    let mut scan = StartupFolderScan::new();
    assert_eq!(classify_folder_entry("/srv/run.sh"), FolderEntryKind::Script);
    assert_eq!(classify_folder_entry("/srv/a-helper.jar"), FolderEntryKind::Jar);
    assert_eq!(classify_folder_entry("/srv/notes.txt"), FolderEntryKind::Other);
    assert_eq!(classify_folder_entry("/srv/pumpkin"), FolderEntryKind::PumpkinExecutable);
    scan.add_script("/srv/run.sh", None, None);
    scan.add_script("/srv/start.bat", None, None);
    scan.add_jar("/srv/a-helper.jar", Some("net.minecraft.client.Main".to_string()));
    scan.add_jar("/srv/paper-server.jar", Some("io.papermc.paperclip.Main".to_string()));
    let result = scan.finish(&["1.20.1"]);

    let modes: Vec<&str> = result.candidates.iter().map(|c| c.mode.as_str()).collect();
    assert_eq!(modes, vec!["sh", "bat", "jar", "jar"]);
    assert_eq!(result.candidates[0].recommended_rank, 2);
    assert_eq!(result.candidates[2].label, "a-helper.jar");
    assert_eq!(result.parsed_core.detected_core_key.as_deref(), Some("paper"));
    assert_eq!(result.parsed_core.startup_path.as_deref(), Some("/srv/paper-server.jar"));
    assert_eq!(result.mc_version_options, vec!["1.20.1".to_string()]);
    assert_eq!(result.core_key_options.len(), STARTUP_SCAN_CORE_KEY_OPTIONS.len());
}

#[test]
fn empty_folder_scan_reports_unknown_core() {
    let result = StartupFolderScan::new().finish(&[]);
    assert!(result.candidates.is_empty());
    assert_eq!(result.parsed_core.detected_core_key, None);
    assert_eq!(result.parsed_core.display_hint, "unknown");
    assert_eq!(result.parsed_core.confidence, StartupScanConfidence::Unknown);
}

#[test]
fn script_targets_tell_the_core_they_start() {
    let pumpkin = build_parsed_core_from_script_target("/srv", "./pumpkin.exe", None);
    assert_eq!(pumpkin.detected_core_key.as_deref(), Some("pumpkin"));
    assert_eq!(pumpkin.confidence, StartupScanConfidence::Likely);
    let jar = build_parsed_core_from_script_target("/srv", " paperclip.jar ", Some("io.papermc.paperclip.Main".into()));
    assert_eq!(jar.detected_core_key.as_deref(), Some("paper"));
    assert_eq!(jar.startup_path.as_deref(), Some("/srv/paperclip.jar"));
    assert_eq!(jar.confidence, StartupScanConfidence::Explicit);
    let other = build_parsed_core_from_script_target("/srv", "/opt/velocity-start", None);
    assert_eq!(other.detected_core_key.as_deref(), Some("velocity"));
    assert_eq!(other.startup_path.as_deref(), Some("/opt/velocity-start"));
    assert_eq!(other.confidence, StartupScanConfidence::Heuristic);
    let empty = build_parsed_core_from_script_target("/srv", "  ", None);
    assert_eq!(empty.display_hint, "unknown");
}

#[test]
fn archive_sources_give_one_candidate() {
    let installer = archive_jar_result(
        "/tmp/neoforge-26.1.0.0-alpha.1+snapshot-1-installer.jar",
        Some("net.minecraftforge.installer.SimpleInstaller".to_string()),
        &[],
    );
    assert_eq!(installer.parsed_core.detected_core_key.as_deref(), Some("neoforge"));
    assert_eq!(installer.candidates[0].mode, "starter");
    assert_eq!(installer.candidates[0].label, "Installer");
    assert_eq!(installer.candidates[0].kind, StartupCandidateKind::Starter);

    let paper = archive_jar_result("/tmp/paper-server.jar", Some("io.papermc.paperclip.Main".into()), &[]);
    assert_eq!(paper.candidates.len(), 1);
    assert_eq!(paper.candidates[0].mode, "jar");
    assert_eq!(paper.candidates[0].label, "server.jar");
    assert_eq!(paper.candidates[0].detail, "paper \u{b7} io.papermc.paperclip.Main");

    assert!(is_pumpkin_executable("/tmp/pumpkin-X64-Windows.exe"));
    let pumpkin = archive_pumpkin_result("/tmp/pumpkin-X64-Windows.exe", &[]);
    assert_eq!(pumpkin.parsed_core.detected_core_key.as_deref(), Some("pumpkin"));
    assert_eq!(pumpkin.candidates[0].mode, "custom");
    assert_eq!(pumpkin.candidates[0].label, "Pumpkin");
}

#[test]
fn archive_paths_and_formats() {
    assert_eq!(archive_format_of("/x/Pack.TAR.GZ"), Ok(ArchiveFormat::TarGz));
    assert_eq!(archive_format_of("/x/pack.zip"), Ok(ArchiveFormat::Zip));
    assert!(archive_format_of("/x/pack.rar").is_err());
    assert_eq!(
        to_relative_archive_path("/tmp/extract", "/tmp/extract/pack/server.jar"),
        Ok("pack/server.jar".to_string())
    );
    assert_eq!(
        to_relative_archive_path("/tmp/extract", "/tmp/extract"),
        Err("Detected startup file path is empty".to_string())
    );
    assert!(to_relative_archive_path("/tmp/extract", "/srv/server.jar").is_err());
}

#[test]
fn resolve_preferred_jar_path_prefers_configured_jar_for_jar_mode() {
    let resolved = jar_path_preference("jar", Some("E:/servers/paper/server.jar"));

    assert_eq!(resolved, JarPathPreference::Configured("E:/servers/paper/server.jar".to_string()));
}

#[test]
fn resolve_preferred_jar_path_ignores_script_mode_even_when_configured_path_exists() {
    let resolved = jar_path_preference("sh", Some("E:/servers/paper/server.jar"));

    assert_eq!(resolved, JarPathPreference::NoPreference);
}

#[test]
fn resolve_mode_aware_launch_target_uses_filename_for_script_mode() {
    let preferred = match jar_path_preference("sh", Some("E:/servers/paper/start.sh")) {
        JarPathPreference::Configured(path) => Some(path),
        _ => None,
    };
    let resolved = resolve_launch_target_with_jar("sh", Some("E:/servers/paper/start.sh"), None, preferred);

    assert_eq!(resolved.startup_mode, "sh");
    assert_eq!(resolved.startup_filename, "start.sh");
    assert_eq!(resolved.preferred_jar_path, None);
    assert_eq!(resolved.launch_target, "start.sh");
}

#[test]
fn scan_startup_candidates_prefers_known_core_over_unknown_helper_jar() {
    let helper = find_manifest_main_class("Manifest-Version: 1.0\r\nMain-Class: net.minecraft.client.Main\r\n\r\n");
    let paper = find_manifest_main_class("Manifest-Version: 1.0\r\nMain-Class: io.papermc.paperclip.Main\r\n\r\n");
    let mut scan = StartupFolderScan::new();
    scan.add_jar("/srv/scan/a-helper.jar", helper);
    scan.add_jar("/srv/scan/paper-server.jar", paper);

    let result = scan.finish(&[]);

    assert_eq!(result.parsed_core.detected_core_key.as_deref(), Some("paper"));
    assert!(result
        .parsed_core
        .startup_path
        .as_deref()
        .is_some_and(|path| path.ends_with("paper-server.jar")));
}

#[test]
fn scan_startup_candidates_keeps_neoforge_type_for_legacy_simpleinstaller_manifest() {
    let jar_path = "/srv/scan/neoforge-26.1.0.0-alpha.1+snapshot-1-installer.jar";
    let main_class = find_manifest_main_class(
        "Manifest-Version: 1.0\r\nMain-Class: net.minecraftforge.installer.SimpleInstaller\r\n\r\n",
    );

    let result = archive_jar_result(jar_path, main_class, &[]);

    assert_eq!(result.parsed_core.detected_core_key.as_deref(), Some("neoforge"));
    assert_eq!(result.candidates[0].mode, "starter");
    assert_eq!(result.candidates[0].label, "Installer");
}
