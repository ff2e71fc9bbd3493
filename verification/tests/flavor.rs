use servercore::flavor::{
    resolve_server_flavor_profile, runtime_family, ConfigFormat, ConfigSurfaceKind,
    ConfigSurfaceOwner, ControlChannel, FlavorResolutionInput, RuntimeFamily, ServerEdition,
    ServerExtensionKind, ServerFlavorKind, ServerRole, SpecialConfigKind, StartupMode, WrapperKind,
};
use servercore::taxonomy::normalize_core_key;

#[test]
fn normalizes_known_core_aliases() {
    assert_eq!(normalize_core_key("Paper"), Some("paper"));
    assert_eq!(
        normalize_core_key("Arclight-Neoforge"),
        Some("arclight_neoforge")
    );
    assert_eq!(normalize_core_key("Waterfall"), Some("waterfall"));
    assert_eq!(normalize_core_key("BungeeCord"), Some("bungeecord"));
    assert_eq!(normalize_core_key("Folia"), Some("folia"));
    assert_eq!(normalize_core_key("Paper-Airplane"), Some("airplane"));
    assert_eq!(normalize_core_key("bedrock-dedicated-server"), Some("bds"));
    assert_eq!(normalize_core_key("LiteLoader-BDS"), Some("liteloaderbds"));
    assert_eq!(normalize_core_key("AllayMC"), Some("allay"));
    assert_eq!(normalize_core_key("unknown-core"), None);
}

#[test]
fn resolves_vanilla_like_profile() {
    let profile = resolve_server_flavor_profile(&FlavorResolutionInput {
        core_key: Some("vanilla"),
        ..FlavorResolutionInput::default()
    });

    assert_eq!(profile.flavor_kind, ServerFlavorKind::VanillaLike);
    assert_eq!(profile.edition, ServerEdition::Java);
    assert_eq!(profile.server_role, ServerRole::GameServer);
    assert_eq!(
        profile.default_extension_kind,
        Some(ServerExtensionKind::Datapack)
    );
    assert_eq!(profile.detected_core_key, Some("vanilla"));
}

#[test]
fn resolves_bukkit_like_profile() {
    let profile = resolve_server_flavor_profile(&FlavorResolutionInput {
        core_key: Some("paper"),
        ..FlavorResolutionInput::default()
    });

    assert_eq!(profile.flavor_kind, ServerFlavorKind::BukkitLike);
    assert_eq!(profile.edition, ServerEdition::Java);
    assert_eq!(profile.server_role, ServerRole::GameServer);
    assert_eq!(profile.default_startup_mode, Some(StartupMode::Jar));
    assert_eq!(
        profile.default_extension_kind,
        Some(ServerExtensionKind::Plugin)
    );
    assert!(!profile.allow_manual_extension_switch);
}

#[test]
fn resolves_additional_bukkit_like_forks() {
    for core_key in ["folia", "pufferfish", "tuinity", "airplane", "glowstone"] {
        let profile = resolve_server_flavor_profile(&FlavorResolutionInput {
            core_key: Some(core_key),
            ..FlavorResolutionInput::default()
        });

        assert_eq!(
            profile.flavor_kind,
            ServerFlavorKind::BukkitLike,
            "{core_key}"
        );
        assert_eq!(
            profile.default_extension_kind,
            Some(ServerExtensionKind::Plugin),
            "{core_key}"
        );
        assert_eq!(profile.edition, ServerEdition::Java, "{core_key}");
    }
}

#[test]
fn resolves_embedded_java_profiles() {
    for core_key in ["sponge", "minestom"] {
        let profile = resolve_server_flavor_profile(&FlavorResolutionInput {
            core_key: Some(core_key),
            ..FlavorResolutionInput::default()
        });

        assert_eq!(
            profile.flavor_kind,
            ServerFlavorKind::EmbeddedJavaLike,
            "{core_key}"
        );
        assert_eq!(profile.edition, ServerEdition::Java, "{core_key}");
        assert_eq!(profile.server_role, ServerRole::GameServer, "{core_key}");
        assert_eq!(
            profile.default_extension_kind,
            Some(ServerExtensionKind::Plugin),
            "{core_key}"
        );
        assert!(
            profile.supports_extension_kind(ServerExtensionKind::Plugin),
            "{core_key}"
        );
        assert!(!profile.allow_manual_extension_switch, "{core_key}");
    }
}

#[test]
fn resolves_forge_like_profile_with_starter() {
    let profile = resolve_server_flavor_profile(&FlavorResolutionInput {
        core_key: Some("neoforge"),
        ..FlavorResolutionInput::default()
    });

    assert_eq!(profile.flavor_kind, ServerFlavorKind::ForgeLike);
    assert_eq!(profile.edition, ServerEdition::Java);
    assert_eq!(profile.default_startup_mode, Some(StartupMode::Starter));
    assert!(profile.supports_starter_install);
    assert_eq!(
        profile.default_extension_kind,
        Some(ServerExtensionKind::Mod)
    );
}

#[test]
fn resolves_mixed_extension_profile() {
    let profile = resolve_server_flavor_profile(&FlavorResolutionInput {
        core_key: Some("arclight"),
        ..FlavorResolutionInput::default()
    });

    assert!(profile.allow_manual_extension_switch);
    assert_eq!(profile.server_role, ServerRole::GameServer);
    assert!(profile
        .extension_kinds
        .contains(&ServerExtensionKind::Plugin));
    assert!(profile.extension_kinds.contains(&ServerExtensionKind::Mod));
}

#[test]
fn resolves_pumpkin_as_native_executable() {
    let profile = resolve_server_flavor_profile(&FlavorResolutionInput {
        core_key: Some("pumpkin"),
        startup_mode: Some("custom"),
        has_pumpkin_config: true,
        ..FlavorResolutionInput::default()
    });

    assert_eq!(profile.flavor_kind, ServerFlavorKind::NativeExecutable);
    assert_eq!(profile.edition, ServerEdition::Java);
    assert_eq!(profile.default_startup_mode, Some(StartupMode::Custom));
    assert!(!profile.requires_java);
    assert_eq!(
        profile.special_config_kinds,
        vec![SpecialConfigKind::PumpkinToml]
    );
}

#[test]
fn resolves_cuberite_as_native_executable() {
    let profile = resolve_server_flavor_profile(&FlavorResolutionInput {
        core_key: Some("cuberite"),
        startup_mode: Some("custom"),
        ..FlavorResolutionInput::default()
    });

    assert_eq!(profile.flavor_kind, ServerFlavorKind::NativeExecutable);
    assert_eq!(profile.server_role, ServerRole::GameServer);
    assert_eq!(profile.display_key, "cuberite");
    assert!(!profile.requires_java);
    assert!(profile.special_config_kinds.is_empty());
}

#[test]
fn resolves_additional_proxy_forks() {
    for core_key in ["bungeecord", "waterfall", "travertine", "flamecord"] {
        let profile = resolve_server_flavor_profile(&FlavorResolutionInput {
            core_key: Some(core_key),
            ..FlavorResolutionInput::default()
        });

        assert_eq!(
            profile.flavor_kind,
            ServerFlavorKind::ProxyLike,
            "{core_key}"
        );
        assert_eq!(
            profile.default_extension_kind,
            Some(ServerExtensionKind::Plugin),
            "{core_key}"
        );
        assert!(profile.is_proxy(), "{core_key}");
    }
}

#[test]
fn resolves_bedrock_dedicated_profile() {
    let profile = resolve_server_flavor_profile(&FlavorResolutionInput {
        core_key: Some("bds"),
        ..FlavorResolutionInput::default()
    });

    assert_eq!(profile.flavor_kind, ServerFlavorKind::BedrockLike);
    assert_eq!(profile.edition, ServerEdition::Bedrock);
    assert_eq!(profile.server_role, ServerRole::GameServer);
    assert_eq!(profile.display_key, "bedrock_dedicated");
    assert_eq!(profile.default_startup_mode, Some(StartupMode::Exe));
    assert_eq!(
        profile.default_extension_kind,
        Some(ServerExtensionKind::Addon)
    );
    assert!(!profile.requires_java);
}

#[test]
fn resolves_bedrock_wrappers() {
    for core_key in ["liteloaderbds", "levilamina", "bdsx"] {
        let profile = resolve_server_flavor_profile(&FlavorResolutionInput {
            core_key: Some(core_key),
            ..FlavorResolutionInput::default()
        });

        assert_eq!(
            profile.flavor_kind,
            ServerFlavorKind::BedrockLike,
            "{core_key}"
        );
        assert_eq!(profile.display_key, "bedrock_wrapped", "{core_key}");
        assert_eq!(
            profile.default_extension_kind,
            Some(ServerExtensionKind::Plugin),
            "{core_key}"
        );
        assert_eq!(profile.edition, ServerEdition::Bedrock, "{core_key}");
        assert!(profile.allow_manual_extension_switch, "{core_key}");
        assert!(
            profile
                .extension_kinds
                .contains(&ServerExtensionKind::Addon),
            "{core_key}"
        );
    }
}

#[test]
fn resolves_bedrock_java_plugin_servers() {
    for core_key in ["allay", "nukkit", "powernukkitx"] {
        let profile = resolve_server_flavor_profile(&FlavorResolutionInput {
            core_key: Some(core_key),
            ..FlavorResolutionInput::default()
        });

        assert_eq!(
            profile.flavor_kind,
            ServerFlavorKind::BedrockLike,
            "{core_key}"
        );
        assert_eq!(profile.display_key, "bedrock_plugin_java", "{core_key}");
        assert_eq!(
            profile.default_startup_mode,
            Some(StartupMode::Jar),
            "{core_key}"
        );
        assert_eq!(
            profile.default_extension_kind,
            Some(ServerExtensionKind::Plugin),
            "{core_key}"
        );
        assert_eq!(profile.server_role, ServerRole::GameServer, "{core_key}");
        assert!(profile.requires_java, "{core_key}");
    }
}

#[test]
fn resolves_other_bedrock_plugin_servers() {
    let pocketmine = resolve_server_flavor_profile(&FlavorResolutionInput {
        core_key: Some("pocketmine"),
        ..FlavorResolutionInput::default()
    });
    assert_eq!(pocketmine.flavor_kind, ServerFlavorKind::BedrockLike);
    assert_eq!(pocketmine.edition, ServerEdition::Bedrock);
    assert_eq!(pocketmine.display_key, "bedrock_plugin_script");
    assert_eq!(pocketmine.default_startup_mode, Some(StartupMode::Custom));
    assert!(!pocketmine.requires_java);

    let endstone = resolve_server_flavor_profile(&FlavorResolutionInput {
        core_key: Some("endstone"),
        ..FlavorResolutionInput::default()
    });
    assert_eq!(endstone.flavor_kind, ServerFlavorKind::BedrockLike);
    assert_eq!(endstone.edition, ServerEdition::Bedrock);
    assert_eq!(endstone.display_key, "bedrock_plugin_native");
    assert_eq!(endstone.default_startup_mode, Some(StartupMode::Exe));
    assert!(!endstone.requires_java);
}

#[test]
fn resolves_mcdr_wrapper_profile() {
    let profile = resolve_server_flavor_profile(&FlavorResolutionInput {
        core_key: Some("paper"),
        startup_mode: Some("custom"),
        wrapper_kind: Some(WrapperKind::Mcdr),
        ..FlavorResolutionInput::default()
    });

    assert_eq!(profile.flavor_kind, ServerFlavorKind::WrappedServer);
    assert_eq!(profile.server_role, ServerRole::Wrapper);
    assert!(profile.is_wrapper());
    assert_eq!(
        profile.default_extension_kind,
        Some(ServerExtensionKind::McdrPlugin)
    );
    assert_eq!(
        profile.preferred_control_channel,
        ControlChannel::WrapperConsole
    );
}

#[test]
fn falls_back_to_unknown_profile_with_manual_extension_switch() {
    let profile = resolve_server_flavor_profile(&FlavorResolutionInput {
        startup_mode: Some("custom"),
        runtime_kind: Some("local"),
        ..FlavorResolutionInput::default()
    });

    assert_eq!(profile.flavor_kind, ServerFlavorKind::WrappedServer);
    assert_eq!(profile.edition, ServerEdition::Unknown);
    assert_eq!(profile.server_role, ServerRole::Wrapper);
    assert!(profile.allow_manual_extension_switch);
    assert_eq!(
        profile.preferred_control_channel,
        ControlChannel::WrapperConsole
    );
}

#[test]
fn docker_runtime_prefers_rcon_for_unknown_profiles() {
    let profile = resolve_server_flavor_profile(&FlavorResolutionInput {
        runtime_kind: Some("docker_itzg"),
        ..FlavorResolutionInput::default()
    });

    assert_eq!(profile.preferred_control_channel, ControlChannel::Rcon);
}

#[test]
fn runtime_family_classifies_known_runtime_kinds() {
    assert_eq!(runtime_family(Some("local")), RuntimeFamily::Local);
    assert_eq!(
        runtime_family(Some("docker_itzg")),
        RuntimeFamily::DockerItzg
    );
    assert_eq!(runtime_family(Some("mcdr_local")), RuntimeFamily::Other);
    assert_eq!(runtime_family(None), RuntimeFamily::Local);
}

#[test]
fn builder_style_input_constructs_expected_profile() {
    let profile = resolve_server_flavor_profile(
        &FlavorResolutionInput::new()
            .with_core_key("paper")
            .with_runtime_kind("local")
            .with_startup_mode("jar"),
    );

    assert_eq!(profile.flavor_kind, ServerFlavorKind::BukkitLike);
    assert_eq!(profile.edition, ServerEdition::Java);
    assert!(profile.supports_extension_kind(ServerExtensionKind::Plugin));
    assert!(!profile.prefers_custom_startup());
}

#[test]
fn bukkit_like_profile_exposes_server_and_plugin_config_surfaces() {
    let profile = resolve_server_flavor_profile(&FlavorResolutionInput {
        core_key: Some("paper"),
        ..FlavorResolutionInput::default()
    });

    let server_properties = profile
        .config_surface("server_properties")
        .expect("server.properties surface should exist");
    assert_eq!(server_properties.owner, ConfigSurfaceOwner::ServerCore);
    assert_eq!(server_properties.kind, ConfigSurfaceKind::CanonicalFile);
    assert_eq!(server_properties.relative_path, "server.properties");
    assert_eq!(server_properties.format, Some(ConfigFormat::Properties));

    let plugins_root = profile
        .config_surface("plugins_root")
        .expect("plugins root should exist");
    assert_eq!(plugins_root.owner, ConfigSurfaceOwner::Plugin);
    assert_eq!(plugins_root.kind, ConfigSurfaceKind::PluginDirectory);
    assert!(plugins_root.recursive);
}

#[test]
fn paper_like_profile_exposes_paper_specific_config_files() {
    let profile = resolve_server_flavor_profile(&FlavorResolutionInput {
        core_key: Some("paper"),
        ..FlavorResolutionInput::default()
    });

    assert!(profile.config_surface("paper_yml").is_some());
    assert!(profile.config_surface("paper_yaml").is_some());
    assert!(profile.config_surface("paper_global_yml").is_some());
    assert!(profile.config_surface("paper_world_defaults_yml").is_some());
}

#[test]
fn spigot_like_profile_exposes_bukkit_and_spigot_configs() {
    let profile = resolve_server_flavor_profile(&FlavorResolutionInput {
        core_key: Some("spigot"),
        ..FlavorResolutionInput::default()
    });

    assert!(profile.config_surface("bukkit_yml").is_some());
    assert!(profile.config_surface("spigot_yml").is_some());
    assert!(profile.config_surface("paper_yml").is_none());
}

#[test]
fn fallback_profile_keeps_generic_config_roots() {
    let profile = resolve_server_flavor_profile(&FlavorResolutionInput {
        core_key: Some("mystery"),
        ..FlavorResolutionInput::default()
    });

    for key in ["plugins_root", "defaultconfig", "defaultconfigs", "config", "configs"] {
        assert!(profile.config_surface(key).is_some(), "missing surface {key}");
    }
}

#[test]
fn every_resolved_profile_is_consistent() {
    let keys = [
        None, Some("vanilla"), Some("paper"), Some("forge"), Some("fabric"), Some("sponge"),
        Some("velocity"), Some("bds"), Some("levilamina"), Some("nukkit"), Some("pocketmine"),
        Some("endstone"), Some("mohist"), Some("pumpkin"), Some("cuberite"), Some("mystery"),
    ];
    let modes = [None, Some("jar"), Some("custom"), Some("sh")];
    let wrappers = [None, Some(WrapperKind::Mcdr), Some(WrapperKind::Generic)];
    for core_key in keys {
        for startup_mode in modes {
            for wrapper_kind in wrappers {
                let p = resolve_server_flavor_profile(&FlavorResolutionInput {
                    core_key,
                    runtime_kind: Some("local"),
                    startup_mode,
                    wrapper_kind,
                    has_pumpkin_config: false,
                });
                let mode = p.default_startup_mode.expect("a default mode");
                assert!(p.preferred_candidate_modes.contains(&mode));
                if let Some(kind) = p.default_extension_kind {
                    assert!(p.extension_kinds.contains(&kind));
                }
                assert_eq!(p.server_role == ServerRole::Wrapper, p.flavor_kind == ServerFlavorKind::WrappedServer);
                assert_eq!(p.server_role == ServerRole::Proxy, p.flavor_kind == ServerFlavorKind::ProxyLike);
                if wrapper_kind.is_some() {
                    assert_eq!(p.flavor_kind, ServerFlavorKind::WrappedServer);
                    assert_eq!(p.default_startup_mode, Some(StartupMode::Custom));
                }
            }
        }
    }
}
