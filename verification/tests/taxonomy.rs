use servercore::taxonomy::{normalize_core_key, CoreFamily};

#[test]
fn normalizes_known_aliases() {
    assert_eq!(normalize_core_key("Paper"), Some("paper"));
    assert_eq!(normalize_core_key("Waterfall"), Some("waterfall"));
    assert_eq!(normalize_core_key("BungeeCord"), Some("bungeecord"));
    assert_eq!(normalize_core_key("Paper-Airplane"), Some("airplane"));
    assert_eq!(
        normalize_core_key("Arclight-Neoforge"),
        Some("arclight_neoforge")
    );
    assert_eq!(normalize_core_key("Folia"), Some("folia"));
    assert_eq!(normalize_core_key("FlameCord"), Some("flamecord"));
    assert_eq!(normalize_core_key("bedrock-dedicated-server"), Some("bds"));
    assert_eq!(normalize_core_key("LiteLoader-BDS"), Some("liteloaderbds"));
    assert_eq!(normalize_core_key("AllayMC"), Some("allay"));
    assert_eq!(normalize_core_key("unknown-core"), None);
}

#[test]
fn classifies_known_core_families() {
    assert_eq!(
        CoreFamily::from_core_key("vanilla"),
        CoreFamily::VanillaLike
    );
    assert_eq!(CoreFamily::from_core_key("paper"), CoreFamily::BukkitLike);
    assert_eq!(CoreFamily::from_core_key("folia"), CoreFamily::BukkitLike);
    assert_eq!(
        CoreFamily::from_core_key("glowstone"),
        CoreFamily::BukkitLike
    );
    assert_eq!(CoreFamily::from_core_key("forge"), CoreFamily::ForgeLike);
    assert_eq!(CoreFamily::from_core_key("fabric"), CoreFamily::FabricLike);
    assert_eq!(CoreFamily::from_core_key("velocity"), CoreFamily::ProxyLike);
    assert_eq!(
        CoreFamily::from_core_key("bungeecord"),
        CoreFamily::ProxyLike
    );
    assert_eq!(
        CoreFamily::from_core_key("travertine"),
        CoreFamily::ProxyLike
    );
    assert_eq!(CoreFamily::from_core_key("bds"), CoreFamily::BedrockLike);
    assert_eq!(
        CoreFamily::from_core_key("liteloaderbds"),
        CoreFamily::BedrockLike
    );
    assert_eq!(
        CoreFamily::from_core_key("levilamina"),
        CoreFamily::BedrockLike
    );
    assert_eq!(CoreFamily::from_core_key("bdsx"), CoreFamily::BedrockLike);
    assert_eq!(CoreFamily::from_core_key("allay"), CoreFamily::BedrockLike);
    assert_eq!(
        CoreFamily::from_core_key("pumpkin"),
        CoreFamily::NativeExecutable
    );
    assert_eq!(
        CoreFamily::from_core_key("cuberite"),
        CoreFamily::NativeExecutable
    );
    assert_eq!(
        CoreFamily::from_core_key("arclight"),
        CoreFamily::MixedExtension
    );
    assert_eq!(CoreFamily::from_core_key("minestom"), CoreFamily::Unknown);
    assert_eq!(CoreFamily::from_core_key("sponge"), CoreFamily::Unknown);
    assert_eq!(CoreFamily::from_core_key("mystery"), CoreFamily::Unknown);
}
