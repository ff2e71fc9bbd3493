//! Normalized server core keys and coarse core families.
use vstd::prelude::*;
use crate::text::{eq_str, lemma_literal_norm, norm, norm_chars};

verus! {

/// A canonical server core key.
#[derive(Debug, Clone, Copy, PartialEq, Eq, Structural)]
pub enum CoreKey {
    Airplane,
    Allay,
    Arclight,
    ArclightForge,
    ArclightNeoforge,
    Bds,
    Bdsx,
    Bukkit,
    Bungeecord,
    Catserver,
    Cuberite,
    Endstone,
    Fabric,
    Flamecord,
    Folia,
    Forge,
    Glowstone,
    Leaves,
    Levilamina,
    Lightfall,
    Liteloaderbds,
    Minestom,
    Mohist,
    Neoforge,
    Nukkit,
    Paper,
    Pocketmine,
    Powernukkitx,
    Pufferfish,
    Pumpkin,
    Purpur,
    Quilt,
    Spigot,
    Sponge,
    Travertine,
    Tuinity,
    Vanilla,
    Velocity,
    Waterfall,
}

/// Coarse family of a server core.
#[derive(Debug, Clone, Copy, PartialEq, Eq, Hash, Structural)]
pub enum CoreFamily {
    VanillaLike,
    BukkitLike,
    ForgeLike,
    FabricLike,
    ProxyLike,
    BedrockLike,
    NativeExecutable,
    MixedExtension,
    Unknown,
}

impl CoreKey {
    /// The canonical text of the key.
    pub open spec fn name(self) -> Seq<char> {
        match self {
            CoreKey::Airplane => "airplane"@,
            CoreKey::Allay => "allay"@,
            CoreKey::Arclight => "arclight"@,
            CoreKey::ArclightForge => "arclight_forge"@,
            CoreKey::ArclightNeoforge => "arclight_neoforge"@,
            CoreKey::Bds => "bds"@,
            CoreKey::Bdsx => "bdsx"@,
            CoreKey::Bukkit => "bukkit"@,
            CoreKey::Bungeecord => "bungeecord"@,
            CoreKey::Catserver => "catserver"@,
            CoreKey::Cuberite => "cuberite"@,
            CoreKey::Endstone => "endstone"@,
            CoreKey::Fabric => "fabric"@,
            CoreKey::Flamecord => "flamecord"@,
            CoreKey::Folia => "folia"@,
            CoreKey::Forge => "forge"@,
            CoreKey::Glowstone => "glowstone"@,
            CoreKey::Leaves => "leaves"@,
            CoreKey::Levilamina => "levilamina"@,
            CoreKey::Lightfall => "lightfall"@,
            CoreKey::Liteloaderbds => "liteloaderbds"@,
            CoreKey::Minestom => "minestom"@,
            CoreKey::Mohist => "mohist"@,
            CoreKey::Neoforge => "neoforge"@,
            CoreKey::Nukkit => "nukkit"@,
            CoreKey::Paper => "paper"@,
            CoreKey::Pocketmine => "pocketmine"@,
            CoreKey::Powernukkitx => "powernukkitx"@,
            CoreKey::Pufferfish => "pufferfish"@,
            CoreKey::Pumpkin => "pumpkin"@,
            CoreKey::Purpur => "purpur"@,
            CoreKey::Quilt => "quilt"@,
            CoreKey::Spigot => "spigot"@,
            CoreKey::Sponge => "sponge"@,
            CoreKey::Travertine => "travertine"@,
            CoreKey::Tuinity => "tuinity"@,
            CoreKey::Vanilla => "vanilla"@,
            CoreKey::Velocity => "velocity"@,
            CoreKey::Waterfall => "waterfall"@,
        }
    }

    /// The canonical text of the key, as a static string.
    pub fn as_str(self) -> (r: &'static str)
        ensures
            r@ == self.name(),
    {
        match self {
            CoreKey::Airplane => "airplane",
            CoreKey::Allay => "allay",
            CoreKey::Arclight => "arclight",
            CoreKey::ArclightForge => "arclight_forge",
            CoreKey::ArclightNeoforge => "arclight_neoforge",
            CoreKey::Bds => "bds",
            CoreKey::Bdsx => "bdsx",
            CoreKey::Bukkit => "bukkit",
            CoreKey::Bungeecord => "bungeecord",
            CoreKey::Catserver => "catserver",
            CoreKey::Cuberite => "cuberite",
            CoreKey::Endstone => "endstone",
            CoreKey::Fabric => "fabric",
            CoreKey::Flamecord => "flamecord",
            CoreKey::Folia => "folia",
            CoreKey::Forge => "forge",
            CoreKey::Glowstone => "glowstone",
            CoreKey::Leaves => "leaves",
            CoreKey::Levilamina => "levilamina",
            CoreKey::Lightfall => "lightfall",
            CoreKey::Liteloaderbds => "liteloaderbds",
            CoreKey::Minestom => "minestom",
            CoreKey::Mohist => "mohist",
            CoreKey::Neoforge => "neoforge",
            CoreKey::Nukkit => "nukkit",
            CoreKey::Paper => "paper",
            CoreKey::Pocketmine => "pocketmine",
            CoreKey::Powernukkitx => "powernukkitx",
            CoreKey::Pufferfish => "pufferfish",
            CoreKey::Pumpkin => "pumpkin",
            CoreKey::Purpur => "purpur",
            CoreKey::Quilt => "quilt",
            CoreKey::Spigot => "spigot",
            CoreKey::Sponge => "sponge",
            CoreKey::Travertine => "travertine",
            CoreKey::Tuinity => "tuinity",
            CoreKey::Vanilla => "vanilla",
            CoreKey::Velocity => "velocity",
            CoreKey::Waterfall => "waterfall",
        }
    }
}

/// The canonical key that an already-normalized alias stands for.
/// Aliases are grouped by their first character; inside a group each key is
/// tried with all of its spellings that start with that character.
pub open spec fn core_alias(s: Seq<char>) -> Option<CoreKey> {
    if s.len() == 0 {
        None
    } else if s[0] == 'a' {
        if s == "airplane"@ {
            Some(CoreKey::Airplane)
        } else if s == "allay"@ || s == "allaymc"@ {
            Some(CoreKey::Allay)
        } else if s == "arclight"@ {
            Some(CoreKey::Arclight)
        } else if s == "arclight-forge"@ || s == "arclight_forge"@ {
            Some(CoreKey::ArclightForge)
        } else if s == "arclight-neoforge"@ || s == "arclight_neoforge"@ {
            Some(CoreKey::ArclightNeoforge)
        } else {
            None
        }
    } else if s[0] == 'b' {
        if s == "bds"@ || s == "bedrock"@ || s == "bedrock_server"@ || s == "bedrock-server"@ || s == "bedrockdedicatedserver"@ || s == "bedrock_dedicated_server"@ || s == "bedrock-dedicated-server"@ {
            Some(CoreKey::Bds)
        } else if s == "bdsx"@ {
            Some(CoreKey::Bdsx)
        } else if s == "bukkit"@ {
            Some(CoreKey::Bukkit)
        } else if s == "bungeecord"@ {
            Some(CoreKey::Bungeecord)
        } else {
            None
        }
    } else if s[0] == 'c' {
        if s == "craftbukkit"@ {
            Some(CoreKey::Bukkit)
        } else if s == "catserver"@ {
            Some(CoreKey::Catserver)
        } else if s == "cuberite"@ {
            Some(CoreKey::Cuberite)
        } else if s == "cloudburstnukkit"@ {
            Some(CoreKey::Nukkit)
        } else {
            None
        }
    } else if s[0] == 'e' {
        if s == "endstone"@ {
            Some(CoreKey::Endstone)
        } else {
            None
        }
    } else if s[0] == 'f' {
        if s == "fabric"@ {
            Some(CoreKey::Fabric)
        } else if s == "flamecord"@ {
            Some(CoreKey::Flamecord)
        } else if s == "folia"@ {
            Some(CoreKey::Folia)
        } else if s == "forge"@ {
            Some(CoreKey::Forge)
        } else {
            None
        }
    } else if s[0] == 'g' {
        if s == "glowstone"@ {
            Some(CoreKey::Glowstone)
        } else {
            None
        }
    } else if s[0] == 'l' {
        if s == "leaves"@ {
            Some(CoreKey::Leaves)
        } else if s == "levilamina"@ {
            Some(CoreKey::Levilamina)
        } else if s == "lightfall"@ {
            Some(CoreKey::Lightfall)
        } else if s == "liteloaderbds"@ || s == "liteloader-bds"@ || s == "liteloader_bds"@ {
            Some(CoreKey::Liteloaderbds)
        } else {
            None
        }
    } else if s[0] == 'm' {
        if s == "minestom"@ {
            Some(CoreKey::Minestom)
        } else if s == "mohist"@ {
            Some(CoreKey::Mohist)
        } else {
            None
        }
    } else if s[0] == 'n' {
        if s == "neoforge"@ {
            Some(CoreKey::Neoforge)
        } else if s == "nukkit"@ {
            Some(CoreKey::Nukkit)
        } else {
            None
        }
    } else if s[0] == 'p' {
        if s == "paperairplane"@ || s == "paper-airplane"@ {
            Some(CoreKey::Airplane)
        } else if s == "paper"@ {
            Some(CoreKey::Paper)
        } else if s == "pocketmine"@ || s == "pocketmine-mp"@ || s == "pocketmine_mp"@ {
            Some(CoreKey::Pocketmine)
        } else if s == "powernukkitx"@ || s == "powernukkit"@ {
            Some(CoreKey::Powernukkitx)
        } else if s == "pufferfish"@ {
            Some(CoreKey::Pufferfish)
        } else if s == "pumpkin"@ {
            Some(CoreKey::Pumpkin)
        } else if s == "purpur"@ {
            Some(CoreKey::Purpur)
        } else {
            None
        }
    } else if s[0] == 'q' {
        if s == "quilt"@ {
            Some(CoreKey::Quilt)
        } else {
            None
        }
    } else if s[0] == 's' {
        if s == "spigot"@ {
            Some(CoreKey::Spigot)
        } else if s == "sponge"@ {
            Some(CoreKey::Sponge)
        } else {
            None
        }
    } else if s[0] == 't' {
        if s == "travertine"@ {
            Some(CoreKey::Travertine)
        } else if s == "tuinity"@ {
            Some(CoreKey::Tuinity)
        } else {
            None
        }
    } else if s[0] == 'v' {
        if s == "vanilla"@ {
            Some(CoreKey::Vanilla)
        } else if s == "velocity"@ {
            Some(CoreKey::Velocity)
        } else {
            None
        }
    } else if s[0] == 'w' {
        if s == "waterfall"@ {
            Some(CoreKey::Waterfall)
        } else {
            None
        }
    } else {
        None
    }
}

/// The canonical key of a raw core-key text: trimmed, ASCII-lowercased, then looked up.
pub open spec fn spec_core_key(s: Seq<char>) -> Option<CoreKey> {
    core_alias(norm(s))
}

/// Canonical key of already-normalized characters.
pub fn core_alias_exec(s: &[char]) -> (r: Option<CoreKey>)
    ensures
        r == core_alias(s@),
{
    if s.len() == 0 {
        return None;
    }
    let head = s[0];
    if head == 'a' {
        if eq_str(s, "airplane") {
            Some(CoreKey::Airplane)
        } else if eq_str(s, "allay") || eq_str(s, "allaymc") {
            Some(CoreKey::Allay)
        } else if eq_str(s, "arclight") {
            Some(CoreKey::Arclight)
        } else if eq_str(s, "arclight-forge") || eq_str(s, "arclight_forge") {
            Some(CoreKey::ArclightForge)
        } else if eq_str(s, "arclight-neoforge") || eq_str(s, "arclight_neoforge") {
            Some(CoreKey::ArclightNeoforge)
        } else {
            None
        }
    } else if head == 'b' {
        if eq_str(s, "bds") || eq_str(s, "bedrock") || eq_str(s, "bedrock_server") || eq_str(s, "bedrock-server") || eq_str(s, "bedrockdedicatedserver") || eq_str(s, "bedrock_dedicated_server") || eq_str(s, "bedrock-dedicated-server") {
            Some(CoreKey::Bds)
        } else if eq_str(s, "bdsx") {
            Some(CoreKey::Bdsx)
        } else if eq_str(s, "bukkit") {
            Some(CoreKey::Bukkit)
        } else if eq_str(s, "bungeecord") {
            Some(CoreKey::Bungeecord)
        } else {
            None
        }
    } else if head == 'c' {
        if eq_str(s, "craftbukkit") {
            Some(CoreKey::Bukkit)
        } else if eq_str(s, "catserver") {
            Some(CoreKey::Catserver)
        } else if eq_str(s, "cuberite") {
            Some(CoreKey::Cuberite)
        } else if eq_str(s, "cloudburstnukkit") {
            Some(CoreKey::Nukkit)
        } else {
            None
        }
    } else if head == 'e' {
        if eq_str(s, "endstone") {
            Some(CoreKey::Endstone)
        } else {
            None
        }
    } else if head == 'f' {
        if eq_str(s, "fabric") {
            Some(CoreKey::Fabric)
        } else if eq_str(s, "flamecord") {
            Some(CoreKey::Flamecord)
        } else if eq_str(s, "folia") {
            Some(CoreKey::Folia)
        } else if eq_str(s, "forge") {
            Some(CoreKey::Forge)
        } else {
            None
        }
    } else if head == 'g' {
        if eq_str(s, "glowstone") {
            Some(CoreKey::Glowstone)
        } else {
            None
        }
    } else if head == 'l' {
        if eq_str(s, "leaves") {
            Some(CoreKey::Leaves)
        } else if eq_str(s, "levilamina") {
            Some(CoreKey::Levilamina)
        } else if eq_str(s, "lightfall") {
            Some(CoreKey::Lightfall)
        } else if eq_str(s, "liteloaderbds") || eq_str(s, "liteloader-bds") || eq_str(s, "liteloader_bds") {
            Some(CoreKey::Liteloaderbds)
        } else {
            None
        }
    } else if head == 'm' {
        if eq_str(s, "minestom") {
            Some(CoreKey::Minestom)
        } else if eq_str(s, "mohist") {
            Some(CoreKey::Mohist)
        } else {
            None
        }
    } else if head == 'n' {
        if eq_str(s, "neoforge") {
            Some(CoreKey::Neoforge)
        } else if eq_str(s, "nukkit") {
            Some(CoreKey::Nukkit)
        } else {
            None
        }
    } else if head == 'p' {
        if eq_str(s, "paperairplane") || eq_str(s, "paper-airplane") {
            Some(CoreKey::Airplane)
        } else if eq_str(s, "paper") {
            Some(CoreKey::Paper)
        } else if eq_str(s, "pocketmine") || eq_str(s, "pocketmine-mp") || eq_str(s, "pocketmine_mp") {
            Some(CoreKey::Pocketmine)
        } else if eq_str(s, "powernukkitx") || eq_str(s, "powernukkit") {
            Some(CoreKey::Powernukkitx)
        } else if eq_str(s, "pufferfish") {
            Some(CoreKey::Pufferfish)
        } else if eq_str(s, "pumpkin") {
            Some(CoreKey::Pumpkin)
        } else if eq_str(s, "purpur") {
            Some(CoreKey::Purpur)
        } else {
            None
        }
    } else if head == 'q' {
        if eq_str(s, "quilt") {
            Some(CoreKey::Quilt)
        } else {
            None
        }
    } else if head == 's' {
        if eq_str(s, "spigot") {
            Some(CoreKey::Spigot)
        } else if eq_str(s, "sponge") {
            Some(CoreKey::Sponge)
        } else {
            None
        }
    } else if head == 't' {
        if eq_str(s, "travertine") {
            Some(CoreKey::Travertine)
        } else if eq_str(s, "tuinity") {
            Some(CoreKey::Tuinity)
        } else {
            None
        }
    } else if head == 'v' {
        if eq_str(s, "vanilla") {
            Some(CoreKey::Vanilla)
        } else if eq_str(s, "velocity") {
            Some(CoreKey::Velocity)
        } else {
            None
        }
    } else if head == 'w' {
        if eq_str(s, "waterfall") {
            Some(CoreKey::Waterfall)
        } else {
            None
        }
    } else {
        None
    }
}

/// Canonical key of a raw core-key text.
pub fn core_key_of(value: &str) -> (r: Option<CoreKey>)
    ensures
        r == spec_core_key(value@),
{
    let n = norm_chars(value);
    core_alias_exec(n.as_slice())
}

/// Text view of an optional canonical key.
pub open spec fn key_text(k: Option<CoreKey>) -> Option<Seq<char>> {
    match k {
        Some(k) => Some(k.name()),
        None => None,
    }
}

/// View of an optional string slice.
pub open spec fn opt_str_view(s: Option<&str>) -> Option<Seq<char>> {
    match s {
        Some(s) => Some(s@),
        None => None,
    }
}

/// Optional canonical key as a static string.
pub fn key_str(k: Option<CoreKey>) -> (r: Option<&'static str>)
    ensures
        opt_str_view(r) == key_text(k),
{
    match k {
        Some(k) => Some(k.as_str()),
        None => None,
    }
}

/// Normalizes a raw core key to its canonical text, or `None` for unknown cores.
pub fn normalize_core_key(value: &str) -> (r: Option<&'static str>)
    ensures
        opt_str_view(r) == key_text(spec_core_key(value@)),
{
    key_str(core_key_of(value))
}

/// The family of a canonical key (`Unknown` for keys outside every family).
pub open spec fn family_of(k: Option<CoreKey>) -> CoreFamily {
    match k {
        Some(CoreKey::Vanilla) => CoreFamily::VanillaLike,
        Some(CoreKey::Airplane | CoreKey::Bukkit | CoreKey::Folia | CoreKey::Glowstone | CoreKey::Leaves | CoreKey::Paper | CoreKey::Pufferfish | CoreKey::Purpur | CoreKey::Spigot | CoreKey::Tuinity) => CoreFamily::BukkitLike,
        Some(CoreKey::Forge | CoreKey::Neoforge) => CoreFamily::ForgeLike,
        Some(CoreKey::Fabric | CoreKey::Quilt) => CoreFamily::FabricLike,
        Some(CoreKey::Bungeecord | CoreKey::Flamecord | CoreKey::Lightfall | CoreKey::Travertine | CoreKey::Velocity | CoreKey::Waterfall) => CoreFamily::ProxyLike,
        Some(CoreKey::Allay | CoreKey::Bds | CoreKey::Bdsx | CoreKey::Endstone | CoreKey::Levilamina | CoreKey::Liteloaderbds | CoreKey::Nukkit | CoreKey::Pocketmine | CoreKey::Powernukkitx) => CoreFamily::BedrockLike,
        Some(CoreKey::Arclight | CoreKey::ArclightForge | CoreKey::ArclightNeoforge | CoreKey::Catserver | CoreKey::Mohist) => CoreFamily::MixedExtension,
        Some(CoreKey::Cuberite | CoreKey::Pumpkin) => CoreFamily::NativeExecutable,
        _ => CoreFamily::Unknown,
    }
}

/// Family of an optional canonical key.
pub fn family_of_key(k: Option<CoreKey>) -> (r: CoreFamily)
    ensures
        r == family_of(k),
{
    match k {
        Some(CoreKey::Vanilla) => CoreFamily::VanillaLike,
        Some(CoreKey::Airplane | CoreKey::Bukkit | CoreKey::Folia | CoreKey::Glowstone | CoreKey::Leaves | CoreKey::Paper | CoreKey::Pufferfish | CoreKey::Purpur | CoreKey::Spigot | CoreKey::Tuinity) => CoreFamily::BukkitLike,
        Some(CoreKey::Forge | CoreKey::Neoforge) => CoreFamily::ForgeLike,
        Some(CoreKey::Fabric | CoreKey::Quilt) => CoreFamily::FabricLike,
        Some(CoreKey::Bungeecord | CoreKey::Flamecord | CoreKey::Lightfall | CoreKey::Travertine | CoreKey::Velocity | CoreKey::Waterfall) => CoreFamily::ProxyLike,
        Some(CoreKey::Allay | CoreKey::Bds | CoreKey::Bdsx | CoreKey::Endstone | CoreKey::Levilamina | CoreKey::Liteloaderbds | CoreKey::Nukkit | CoreKey::Pocketmine | CoreKey::Powernukkitx) => CoreFamily::BedrockLike,
        Some(CoreKey::Arclight | CoreKey::ArclightForge | CoreKey::ArclightNeoforge | CoreKey::Catserver | CoreKey::Mohist) => CoreFamily::MixedExtension,
        Some(CoreKey::Cuberite | CoreKey::Pumpkin) => CoreFamily::NativeExecutable,
        _ => CoreFamily::Unknown,
    }
}

impl CoreFamily {
    /// Family of a raw core key.
    pub fn from_core_key(core_key: &str) -> (r: Self)
        ensures
            r == family_of(spec_core_key(core_key@)),
    {
        family_of_key(core_key_of(core_key))
    }
}

/// The canonical names that start with 'a' are fixed points of the lookup.
proof fn lemma_fixed_names_a()
    ensures
        spec_core_key("airplane"@) == Some(CoreKey::Airplane),
        spec_core_key("allay"@) == Some(CoreKey::Allay),
        spec_core_key("arclight"@) == Some(CoreKey::Arclight),
        spec_core_key("arclight_forge"@) == Some(CoreKey::ArclightForge),
        spec_core_key("arclight_neoforge"@) == Some(CoreKey::ArclightNeoforge),
{
    reveal_strlit("airplane");
    reveal_strlit("allay");
    reveal_strlit("allaymc");
    reveal_strlit("arclight");
    reveal_strlit("arclight-forge");
    reveal_strlit("arclight_forge");
    reveal_strlit("arclight-neoforge");
    reveal_strlit("arclight_neoforge");
    lemma_literal_norm("airplane"@);
    lemma_literal_norm("allay"@);
    lemma_literal_norm("arclight"@);
    lemma_literal_norm("arclight_forge"@);
    lemma_literal_norm("arclight_neoforge"@);
}

/// The canonical names that start with 'b' are fixed points of the lookup.
proof fn lemma_fixed_names_b()
    ensures
        spec_core_key("bds"@) == Some(CoreKey::Bds),
        spec_core_key("bdsx"@) == Some(CoreKey::Bdsx),
        spec_core_key("bukkit"@) == Some(CoreKey::Bukkit),
        spec_core_key("bungeecord"@) == Some(CoreKey::Bungeecord),
{
    reveal_strlit("bds");
    reveal_strlit("bedrock");
    reveal_strlit("bedrock_server");
    reveal_strlit("bedrock-server");
    reveal_strlit("bedrockdedicatedserver");
    reveal_strlit("bedrock_dedicated_server");
    reveal_strlit("bedrock-dedicated-server");
    reveal_strlit("bdsx");
    reveal_strlit("bukkit");
    reveal_strlit("bungeecord");
    lemma_literal_norm("bds"@);
    lemma_literal_norm("bdsx"@);
    lemma_literal_norm("bukkit"@);
    lemma_literal_norm("bungeecord"@);
}

/// The canonical names that start with 'c' are fixed points of the lookup.
proof fn lemma_fixed_names_c()
    ensures
        spec_core_key("catserver"@) == Some(CoreKey::Catserver),
        spec_core_key("cuberite"@) == Some(CoreKey::Cuberite),
{
    reveal_strlit("craftbukkit");
    reveal_strlit("catserver");
    reveal_strlit("cuberite");
    reveal_strlit("cloudburstnukkit");
    lemma_literal_norm("catserver"@);
    lemma_literal_norm("cuberite"@);
}

/// The canonical names that start with 'e' are fixed points of the lookup.
proof fn lemma_fixed_names_e()
    ensures
        spec_core_key("endstone"@) == Some(CoreKey::Endstone),
{
    reveal_strlit("endstone");
    lemma_literal_norm("endstone"@);
}

/// The canonical names that start with 'f' are fixed points of the lookup.
proof fn lemma_fixed_names_f()
    ensures
        spec_core_key("fabric"@) == Some(CoreKey::Fabric),
        spec_core_key("flamecord"@) == Some(CoreKey::Flamecord),
        spec_core_key("folia"@) == Some(CoreKey::Folia),
        spec_core_key("forge"@) == Some(CoreKey::Forge),
{
    reveal_strlit("fabric");
    reveal_strlit("flamecord");
    reveal_strlit("folia");
    reveal_strlit("forge");
    lemma_literal_norm("fabric"@);
    lemma_literal_norm("flamecord"@);
    lemma_literal_norm("folia"@);
    lemma_literal_norm("forge"@);
}

/// The canonical names that start with 'g' are fixed points of the lookup.
proof fn lemma_fixed_names_g()
    ensures
        spec_core_key("glowstone"@) == Some(CoreKey::Glowstone),
{
    reveal_strlit("glowstone");
    lemma_literal_norm("glowstone"@);
}

/// The canonical names that start with 'l' are fixed points of the lookup.
proof fn lemma_fixed_names_l()
    ensures
        spec_core_key("leaves"@) == Some(CoreKey::Leaves),
        spec_core_key("levilamina"@) == Some(CoreKey::Levilamina),
        spec_core_key("lightfall"@) == Some(CoreKey::Lightfall),
        spec_core_key("liteloaderbds"@) == Some(CoreKey::Liteloaderbds),
{
    reveal_strlit("leaves");
    reveal_strlit("levilamina");
    reveal_strlit("lightfall");
    reveal_strlit("liteloaderbds");
    reveal_strlit("liteloader-bds");
    reveal_strlit("liteloader_bds");
    lemma_literal_norm("leaves"@);
    lemma_literal_norm("levilamina"@);
    lemma_literal_norm("lightfall"@);
    lemma_literal_norm("liteloaderbds"@);
}

/// The canonical names that start with 'm' are fixed points of the lookup.
proof fn lemma_fixed_names_m()
    ensures
        spec_core_key("minestom"@) == Some(CoreKey::Minestom),
        spec_core_key("mohist"@) == Some(CoreKey::Mohist),
{
    reveal_strlit("minestom");
    reveal_strlit("mohist");
    lemma_literal_norm("minestom"@);
    lemma_literal_norm("mohist"@);
}

/// The canonical names that start with 'n' are fixed points of the lookup.
proof fn lemma_fixed_names_n()
    ensures
        spec_core_key("neoforge"@) == Some(CoreKey::Neoforge),
        spec_core_key("nukkit"@) == Some(CoreKey::Nukkit),
{
    reveal_strlit("neoforge");
    reveal_strlit("nukkit");
    lemma_literal_norm("neoforge"@);
    lemma_literal_norm("nukkit"@);
}

/// The canonical names that start with 'p' are fixed points of the lookup.
proof fn lemma_fixed_names_p()
    ensures
        spec_core_key("paper"@) == Some(CoreKey::Paper),
        spec_core_key("pocketmine"@) == Some(CoreKey::Pocketmine),
        spec_core_key("powernukkitx"@) == Some(CoreKey::Powernukkitx),
        spec_core_key("pufferfish"@) == Some(CoreKey::Pufferfish),
        spec_core_key("pumpkin"@) == Some(CoreKey::Pumpkin),
        spec_core_key("purpur"@) == Some(CoreKey::Purpur),
{
    reveal_strlit("paperairplane");
    reveal_strlit("paper-airplane");
    reveal_strlit("paper");
    reveal_strlit("pocketmine");
    reveal_strlit("pocketmine-mp");
    reveal_strlit("pocketmine_mp");
    reveal_strlit("powernukkitx");
    reveal_strlit("powernukkit");
    reveal_strlit("pufferfish");
    reveal_strlit("pumpkin");
    reveal_strlit("purpur");
    lemma_literal_norm("paper"@);
    lemma_literal_norm("pocketmine"@);
    lemma_literal_norm("powernukkitx"@);
    lemma_literal_norm("pufferfish"@);
    lemma_literal_norm("pumpkin"@);
    lemma_literal_norm("purpur"@);
}

/// The canonical names that start with 'q' are fixed points of the lookup.
proof fn lemma_fixed_names_q()
    ensures
        spec_core_key("quilt"@) == Some(CoreKey::Quilt),
{
    reveal_strlit("quilt");
    lemma_literal_norm("quilt"@);
}

/// The canonical names that start with 's' are fixed points of the lookup.
proof fn lemma_fixed_names_s()
    ensures
        spec_core_key("spigot"@) == Some(CoreKey::Spigot),
        spec_core_key("sponge"@) == Some(CoreKey::Sponge),
{
    reveal_strlit("spigot");
    reveal_strlit("sponge");
    lemma_literal_norm("spigot"@);
    lemma_literal_norm("sponge"@);
}

/// The canonical names that start with 't' are fixed points of the lookup.
proof fn lemma_fixed_names_t()
    ensures
        spec_core_key("travertine"@) == Some(CoreKey::Travertine),
        spec_core_key("tuinity"@) == Some(CoreKey::Tuinity),
{
    reveal_strlit("travertine");
    reveal_strlit("tuinity");
    lemma_literal_norm("travertine"@);
    lemma_literal_norm("tuinity"@);
}

/// The canonical names that start with 'v' are fixed points of the lookup.
proof fn lemma_fixed_names_v()
    ensures
        spec_core_key("vanilla"@) == Some(CoreKey::Vanilla),
        spec_core_key("velocity"@) == Some(CoreKey::Velocity),
{
    reveal_strlit("vanilla");
    reveal_strlit("velocity");
    lemma_literal_norm("vanilla"@);
    lemma_literal_norm("velocity"@);
}

/// The canonical names that start with 'w' are fixed points of the lookup.
proof fn lemma_fixed_names_w()
    ensures
        spec_core_key("waterfall"@) == Some(CoreKey::Waterfall),
{
    reveal_strlit("waterfall");
    lemma_literal_norm("waterfall"@);
}

/// Every canonical key is its own normal form: normalizing its text gives the key back.
pub proof fn lemma_canonical_key_fixed(k: CoreKey)
    ensures
        spec_core_key(k.name()) == Some(k),
{
    lemma_fixed_names_a();
    lemma_fixed_names_b();
    lemma_fixed_names_c();
    lemma_fixed_names_e();
    lemma_fixed_names_f();
    lemma_fixed_names_g();
    lemma_fixed_names_l();
    lemma_fixed_names_m();
    lemma_fixed_names_n();
    lemma_fixed_names_p();
    lemma_fixed_names_q();
    lemma_fixed_names_s();
    lemma_fixed_names_t();
    lemma_fixed_names_v();
    lemma_fixed_names_w();
}

/// Normalizing a normalized key changes nothing.
pub proof fn lemma_normalize_idempotent(s: Seq<char>)
    ensures
        match spec_core_key(s) {
            Some(k) => spec_core_key(k.name()) == Some(k),
            None => true,
        },
{
    if let Some(k) = spec_core_key(s) {
        lemma_canonical_key_fixed(k);
    }
}


/// The family of every canonical core, as a table of expected families.
pub open spec fn family_table() -> Seq<(CoreKey, CoreFamily)> {
    seq![
        (CoreKey::Vanilla, CoreFamily::VanillaLike),
        (CoreKey::Paper, CoreFamily::BukkitLike),
        (CoreKey::Folia, CoreFamily::BukkitLike),
        (CoreKey::Spigot, CoreFamily::BukkitLike),
        (CoreKey::Purpur, CoreFamily::BukkitLike),
        (CoreKey::Pufferfish, CoreFamily::BukkitLike),
        (CoreKey::Leaves, CoreFamily::BukkitLike),
        (CoreKey::Tuinity, CoreFamily::BukkitLike),
        (CoreKey::Airplane, CoreFamily::BukkitLike),
        (CoreKey::Glowstone, CoreFamily::BukkitLike),
        (CoreKey::Bukkit, CoreFamily::BukkitLike),
        (CoreKey::Forge, CoreFamily::ForgeLike),
        (CoreKey::Neoforge, CoreFamily::ForgeLike),
        (CoreKey::Fabric, CoreFamily::FabricLike),
        (CoreKey::Quilt, CoreFamily::FabricLike),
        (CoreKey::Velocity, CoreFamily::ProxyLike),
        (CoreKey::Bungeecord, CoreFamily::ProxyLike),
        (CoreKey::Waterfall, CoreFamily::ProxyLike),
        (CoreKey::Lightfall, CoreFamily::ProxyLike),
        (CoreKey::Travertine, CoreFamily::ProxyLike),
        (CoreKey::Flamecord, CoreFamily::ProxyLike),
        (CoreKey::Bds, CoreFamily::BedrockLike),
        (CoreKey::Liteloaderbds, CoreFamily::BedrockLike),
        (CoreKey::Levilamina, CoreFamily::BedrockLike),
        (CoreKey::Bdsx, CoreFamily::BedrockLike),
        (CoreKey::Allay, CoreFamily::BedrockLike),
        (CoreKey::Nukkit, CoreFamily::BedrockLike),
        (CoreKey::Powernukkitx, CoreFamily::BedrockLike),
        (CoreKey::Pocketmine, CoreFamily::BedrockLike),
        (CoreKey::Endstone, CoreFamily::BedrockLike),
        (CoreKey::Arclight, CoreFamily::MixedExtension),
        (CoreKey::ArclightForge, CoreFamily::MixedExtension),
        (CoreKey::ArclightNeoforge, CoreFamily::MixedExtension),
        (CoreKey::Mohist, CoreFamily::MixedExtension),
        (CoreKey::Catserver, CoreFamily::MixedExtension),
        (CoreKey::Pumpkin, CoreFamily::NativeExecutable),
        (CoreKey::Cuberite, CoreFamily::NativeExecutable),
        (CoreKey::Minestom, CoreFamily::Unknown),
        (CoreKey::Sponge, CoreFamily::Unknown),
    ]
}

/// The table lists the core.
pub open spec fn in_family_table(k: CoreKey) -> bool {
    exists|i: int| 0 <= i < family_table().len() && #[trigger] family_table()[i].0 == k
}

/// Every canonical core, and its canonical name, classifies into the family the table gives
/// it: Bukkit's forks are Bukkit-like, Forge and NeoForge Forge-like, Fabric and Quilt
/// Fabric-like, the proxies proxy-like, and so on.
pub proof fn lemma_family_table()
    ensures
        forall|i: int|
            0 <= i < family_table().len() ==> family_of(Some(#[trigger] family_table()[i].0)) == family_table()[i].1
                && family_of(spec_core_key(family_table()[i].0.name())) == family_table()[i].1,
        forall|k: CoreKey| #[trigger] in_family_table(k),
{
    assert(family_table().len() == 39);
    assert forall|i: int| 0 <= i < family_table().len() implies family_of(Some(#[trigger] family_table()[i].0))
        == family_table()[i].1 && family_of(spec_core_key(family_table()[i].0.name())) == family_table()[i].1 by {
        lemma_canonical_key_fixed(family_table()[i].0);
            if i == 0 {
                assert(family_table()[i] == (CoreKey::Vanilla, CoreFamily::VanillaLike));
            } else if i == 1 {
                assert(family_table()[i] == (CoreKey::Paper, CoreFamily::BukkitLike));
            } else if i == 2 {
                assert(family_table()[i] == (CoreKey::Folia, CoreFamily::BukkitLike));
            } else if i == 3 {
                assert(family_table()[i] == (CoreKey::Spigot, CoreFamily::BukkitLike));
            } else if i == 4 {
                assert(family_table()[i] == (CoreKey::Purpur, CoreFamily::BukkitLike));
            } else if i == 5 {
                assert(family_table()[i] == (CoreKey::Pufferfish, CoreFamily::BukkitLike));
            } else if i == 6 {
                assert(family_table()[i] == (CoreKey::Leaves, CoreFamily::BukkitLike));
            } else if i == 7 {
                assert(family_table()[i] == (CoreKey::Tuinity, CoreFamily::BukkitLike));
            } else if i == 8 {
                assert(family_table()[i] == (CoreKey::Airplane, CoreFamily::BukkitLike));
            } else if i == 9 {
                assert(family_table()[i] == (CoreKey::Glowstone, CoreFamily::BukkitLike));
            } else if i == 10 {
                assert(family_table()[i] == (CoreKey::Bukkit, CoreFamily::BukkitLike));
            } else if i == 11 {
                assert(family_table()[i] == (CoreKey::Forge, CoreFamily::ForgeLike));
            } else if i == 12 {
                assert(family_table()[i] == (CoreKey::Neoforge, CoreFamily::ForgeLike));
            } else if i == 13 {
                assert(family_table()[i] == (CoreKey::Fabric, CoreFamily::FabricLike));
            } else if i == 14 {
                assert(family_table()[i] == (CoreKey::Quilt, CoreFamily::FabricLike));
            } else if i == 15 {
                assert(family_table()[i] == (CoreKey::Velocity, CoreFamily::ProxyLike));
            } else if i == 16 {
                assert(family_table()[i] == (CoreKey::Bungeecord, CoreFamily::ProxyLike));
            } else if i == 17 {
                assert(family_table()[i] == (CoreKey::Waterfall, CoreFamily::ProxyLike));
            } else if i == 18 {
                assert(family_table()[i] == (CoreKey::Lightfall, CoreFamily::ProxyLike));
            } else if i == 19 {
                assert(family_table()[i] == (CoreKey::Travertine, CoreFamily::ProxyLike));
            } else if i == 20 {
                assert(family_table()[i] == (CoreKey::Flamecord, CoreFamily::ProxyLike));
            } else if i == 21 {
                assert(family_table()[i] == (CoreKey::Bds, CoreFamily::BedrockLike));
            } else if i == 22 {
                assert(family_table()[i] == (CoreKey::Liteloaderbds, CoreFamily::BedrockLike));
            } else if i == 23 {
                assert(family_table()[i] == (CoreKey::Levilamina, CoreFamily::BedrockLike));
            } else if i == 24 {
                assert(family_table()[i] == (CoreKey::Bdsx, CoreFamily::BedrockLike));
            } else if i == 25 {
                assert(family_table()[i] == (CoreKey::Allay, CoreFamily::BedrockLike));
            } else if i == 26 {
                assert(family_table()[i] == (CoreKey::Nukkit, CoreFamily::BedrockLike));
            } else if i == 27 {
                assert(family_table()[i] == (CoreKey::Powernukkitx, CoreFamily::BedrockLike));
            } else if i == 28 {
                assert(family_table()[i] == (CoreKey::Pocketmine, CoreFamily::BedrockLike));
            } else if i == 29 {
                assert(family_table()[i] == (CoreKey::Endstone, CoreFamily::BedrockLike));
            } else if i == 30 {
                assert(family_table()[i] == (CoreKey::Arclight, CoreFamily::MixedExtension));
            } else if i == 31 {
                assert(family_table()[i] == (CoreKey::ArclightForge, CoreFamily::MixedExtension));
            } else if i == 32 {
                assert(family_table()[i] == (CoreKey::ArclightNeoforge, CoreFamily::MixedExtension));
            } else if i == 33 {
                assert(family_table()[i] == (CoreKey::Mohist, CoreFamily::MixedExtension));
            } else if i == 34 {
                assert(family_table()[i] == (CoreKey::Catserver, CoreFamily::MixedExtension));
            } else if i == 35 {
                assert(family_table()[i] == (CoreKey::Pumpkin, CoreFamily::NativeExecutable));
            } else if i == 36 {
                assert(family_table()[i] == (CoreKey::Cuberite, CoreFamily::NativeExecutable));
            } else if i == 37 {
                assert(family_table()[i] == (CoreKey::Minestom, CoreFamily::Unknown));
            } else if i == 38 {
                assert(family_table()[i] == (CoreKey::Sponge, CoreFamily::Unknown));
            }
    }
    assert forall|k: CoreKey| #[trigger] in_family_table(k) by {
        match k {
            CoreKey::Vanilla => { assert(family_table()[0].0 == k); },
            CoreKey::Paper => { assert(family_table()[1].0 == k); },
            CoreKey::Folia => { assert(family_table()[2].0 == k); },
            CoreKey::Spigot => { assert(family_table()[3].0 == k); },
            CoreKey::Purpur => { assert(family_table()[4].0 == k); },
            CoreKey::Pufferfish => { assert(family_table()[5].0 == k); },
            CoreKey::Leaves => { assert(family_table()[6].0 == k); },
            CoreKey::Tuinity => { assert(family_table()[7].0 == k); },
            CoreKey::Airplane => { assert(family_table()[8].0 == k); },
            CoreKey::Glowstone => { assert(family_table()[9].0 == k); },
            CoreKey::Bukkit => { assert(family_table()[10].0 == k); },
            CoreKey::Forge => { assert(family_table()[11].0 == k); },
            CoreKey::Neoforge => { assert(family_table()[12].0 == k); },
            CoreKey::Fabric => { assert(family_table()[13].0 == k); },
            CoreKey::Quilt => { assert(family_table()[14].0 == k); },
            CoreKey::Velocity => { assert(family_table()[15].0 == k); },
            CoreKey::Bungeecord => { assert(family_table()[16].0 == k); },
            CoreKey::Waterfall => { assert(family_table()[17].0 == k); },
            CoreKey::Lightfall => { assert(family_table()[18].0 == k); },
            CoreKey::Travertine => { assert(family_table()[19].0 == k); },
            CoreKey::Flamecord => { assert(family_table()[20].0 == k); },
            CoreKey::Bds => { assert(family_table()[21].0 == k); },
            CoreKey::Liteloaderbds => { assert(family_table()[22].0 == k); },
            CoreKey::Levilamina => { assert(family_table()[23].0 == k); },
            CoreKey::Bdsx => { assert(family_table()[24].0 == k); },
            CoreKey::Allay => { assert(family_table()[25].0 == k); },
            CoreKey::Nukkit => { assert(family_table()[26].0 == k); },
            CoreKey::Powernukkitx => { assert(family_table()[27].0 == k); },
            CoreKey::Pocketmine => { assert(family_table()[28].0 == k); },
            CoreKey::Endstone => { assert(family_table()[29].0 == k); },
            CoreKey::Arclight => { assert(family_table()[30].0 == k); },
            CoreKey::ArclightForge => { assert(family_table()[31].0 == k); },
            CoreKey::ArclightNeoforge => { assert(family_table()[32].0 == k); },
            CoreKey::Mohist => { assert(family_table()[33].0 == k); },
            CoreKey::Catserver => { assert(family_table()[34].0 == k); },
            CoreKey::Pumpkin => { assert(family_table()[35].0 == k); },
            CoreKey::Cuberite => { assert(family_table()[36].0 == k); },
            CoreKey::Minestom => { assert(family_table()[37].0 == k); },
            CoreKey::Sponge => { assert(family_table()[38].0 == k); },
        }
    }
}

} // verus!
