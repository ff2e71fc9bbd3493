use servercore::discovery::{
    canonical_file_entry, candidate_catalog, classify_generic_owner, depth_exceeded, discovered_entry,
    discovery_surfaces, generic_root_entry, is_backup_like, is_readme_like, normalize_allowed_formats,
    normalize_excluded_directories, normalize_name_set, normalize_relative, normalize_scan_roots, plan_surface,
    root_properties_entry, should_skip_directory, should_skip_file, surface_catalog, ConfigDiscoveryError,
    ConfigDiscoveryInput, ConfigEntryConfidence, ConfigEntrySource, ConfigMatchReason, ConfigOwnerScope,
    EntryCollector, GenericConfigDiscoveryInput, SurfacePlan,
};
use servercore::document::ConfigFormat;

#[test]
fn readme_and_backup_files_are_left_out() {
    assert!(is_readme_like("README.txt"));
    assert!(is_readme_like(" readme "));
    assert!(!is_readme_like("readmes.txt"));
    assert!(is_backup_like("keep.yml.BAK"));
    assert!(is_backup_like("a.orig"));
    assert!(!is_backup_like("keep.yml"));
    let all = [ConfigFormat::Yaml, ConfigFormat::Toml, ConfigFormat::Json, ConfigFormat::Properties, ConfigFormat::Text];
    assert!(should_skip_file("/srv/plugins/Demo/README.txt", &all));
    assert!(should_skip_file("/srv/config/keep.yml.bak", &all));
    assert!(!should_skip_file("/srv/config/keep.yml", &all));
    assert!(should_skip_file("/srv/config/keep.yml", &[ConfigFormat::Toml]));
    assert!(should_skip_file("/srv/config/noext", &all));
}

#[test]
fn generic_scan_owners_follow_their_roots() {
    assert_eq!(classify_generic_owner(" Plugins "), ConfigOwnerScope::Plugin);
    assert_eq!(classify_generic_owner("world\\serverconfig"), ConfigOwnerScope::FallbackDirectory);
    assert_eq!(classify_generic_owner("mods"), ConfigOwnerScope::Generic);
}

#[test]
fn generic_inputs_are_normalized() {
    assert_eq!(
        normalize_allowed_formats(&[ConfigFormat::Toml, ConfigFormat::Toml, ConfigFormat::Yaml]),
        vec![ConfigFormat::Toml, ConfigFormat::Yaml]
    );
    assert_eq!(normalize_allowed_formats(&[]).len(), 5);
    assert_eq!(
        normalize_scan_roots(&vec![" config ".to_string(), "  ".to_string(), "world\\serverconfig".to_string()]),
        vec!["config".to_string(), "world/serverconfig".to_string()]
    );
    assert_eq!(normalize_scan_roots(&Vec::new()).len(), 7);
    let mut names = normalize_name_set(&vec![" Logs ".to_string(), "logs".to_string(), " ".to_string()]);
    names.sort();
    assert_eq!(names, vec!["logs".to_string()]);
    assert_eq!(normalize_excluded_directories(&Vec::new()).len(), 10);
    let excluded = normalize_excluded_directories(&Vec::new());
    assert!(should_skip_directory("/srv/Logs", &excluded));
    assert!(!should_skip_directory("/srv/world", &excluded));
    assert!(depth_exceeded(Some(1), 2));
    assert!(!depth_exceeded(Some(1), 1));
    assert!(!depth_exceeded(None, 100));
    let input = GenericConfigDiscoveryInput::new("/srv");
    assert_eq!(input.max_depth, Some(8));
    assert!(input.include_root_files);
    assert_eq!(input.scan_roots[6], "world/serverconfig");
}

#[test]
fn relative_paths_use_slashes() {
    assert_eq!(normalize_relative("/srv", "/srv/plugins/Essentials/config.yml"), "plugins/Essentials/config.yml");
    assert_eq!(normalize_relative("/srv", "/other/x.yml"), "/other/x.yml");
}

#[test]
fn core_surfaces_plan_file_checks_and_directory_walks() {
    let (key, surfaces) = discovery_surfaces(&ConfigDiscoveryInput::new("Paper", "/srv")).expect("paper is known");
    assert_eq!(key, "paper");
    let properties = surfaces.iter().find(|s| s.key == "server_properties").expect("server.properties surface");
    assert_eq!(plan_surface("/srv", properties), SurfacePlan::CheckFile("/srv/server.properties".to_string()));
    let entry = canonical_file_entry("/srv", properties);
    assert_eq!(entry.relative_path, "server.properties");
    assert_eq!(entry.format, ConfigFormat::Properties);
    assert_eq!(entry.source, ConfigEntrySource::ExplicitSurface);
    assert_eq!(entry.reason, ConfigMatchReason::ExplicitSurfaceKey("server_properties".to_string()));
    let plugins = surfaces.iter().find(|s| s.key == "plugins_root").expect("plugins surface");
    assert!(matches!(
        plan_surface("/srv", plugins),
        SurfacePlan::WalkDirectory { owner: ConfigOwnerScope::Plugin, source: ConfigEntrySource::PluginDiscovery, .. }
    ));
    assert_eq!(
        discovery_surfaces(&ConfigDiscoveryInput::new("mystery", "/srv")).err(),
        Some(ConfigDiscoveryError::UnknownCoreKey("mystery".to_string()))
    );
}

#[test]
fn collected_entries_are_unique_and_sorted_by_path() {
    let mut collector = EntryCollector::new();
    let reason = ConfigMatchReason::PluginDirectoryPattern;
    for path in ["/srv/plugins/b.yml", "/srv/plugins/a.yml", "/srv/plugins/b.yml", "/srv/plugins/noext"] {
        if let Some(entry) = discovered_entry(
            "/srv",
            path,
            ConfigOwnerScope::Plugin,
            ConfigEntrySource::PluginDiscovery,
            ConfigEntryConfidence::Likely,
            &reason,
        ) {
            collector.push_entry(entry);
        }
    }
    if let Some(entry) = root_properties_entry("/srv", "/srv/ops.properties") {
        collector.push_entry(entry);
    }
    assert!(root_properties_entry("/srv", "/srv/README.properties").is_none());
    assert!(root_properties_entry("/srv", "/srv/server.PROPERTIES").is_none());
    let catalog = surface_catalog("paper".to_string(), "/srv", collector);
    let paths: Vec<&str> = catalog.entries.iter().map(|e| e.relative_path.as_str()).collect();
    assert_eq!(paths, vec!["ops.properties", "plugins/a.yml", "plugins/b.yml"]);
    assert_eq!(catalog.entries[0].owner, ConfigOwnerScope::ServerCore);
    assert_eq!(catalog.entries[0].reason, ConfigMatchReason::RootPropertiesFallback);
}

#[test]
fn generic_root_files_become_heuristic_candidates() {
    let all = [ConfigFormat::Text, ConfigFormat::Json];
    let entry = generic_root_entry("/srv", "/srv/eula.txt", &all).expect("eula.txt is a candidate");
    assert_eq!(entry.relative_path, "eula.txt");
    assert_eq!(entry.source, ConfigEntrySource::GenericRootScan);
    assert_eq!(entry.owner, ConfigOwnerScope::Generic);
    assert_eq!(entry.format, ConfigFormat::Text);
    assert_eq!(entry.reason, ConfigMatchReason::GenericScanRoot(".".to_string()));
    assert!(generic_root_entry("/srv", "/srv/server.properties", &all).is_none());
    let mut collector = EntryCollector::new();
    collector.push_entry(entry);
    let catalog = candidate_catalog("/srv", collector);
    assert_eq!(catalog.entries.len(), 1);
}
