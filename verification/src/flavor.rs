//! Server flavor modeling and capability resolution.
use vstd::prelude::*;
use crate::taxonomy::{core_key_of, family_of, key_str, key_text, opt_str_view, spec_core_key, CoreFamily, CoreKey};
use crate::text::{eq_str, norm, norm_chars, str_eq};

verus! {

#[derive(Debug, Clone, Copy, PartialEq, Eq, Hash, Structural)]
pub enum ServerFlavorKind {
    VanillaLike,
    BukkitLike,
    ForgeLike,
    FabricLike,
    EmbeddedJavaLike,
    ProxyLike,
    BedrockLike,
    NativeExecutable,
    WrappedServer,
    Unknown,
}

#[derive(Debug, Clone, Copy, PartialEq, Eq, Hash, Structural)]
pub enum ServerEdition {
    Java,
    Bedrock,
    Unknown,
}

#[derive(Debug, Clone, Copy, PartialEq, Eq, Hash, Structural)]
pub enum ServerRole {
    GameServer,
    Proxy,
    Wrapper,
    Unknown,
}

#[derive(Debug, Clone, Copy, PartialEq, Eq, Hash, Structural)]
pub enum ServerExtensionKind {
    Plugin,
    Mod,
    Datapack,
    Addon,
    McdrPlugin,
}

#[derive(Debug, Clone, Copy, PartialEq, Eq, Hash, Structural)]
pub enum StartupMode {
    Jar,
    Exe,
    Bat,
    Sh,
    Ps1,
    Starter,
    Custom,
}

#[derive(Debug, Clone, Copy, PartialEq, Eq, Hash, Structural)]
pub enum ControlChannel {
    Stdin,
    Rcon,
    DockerStdio,
    WrapperConsole,
}

#[derive(Debug, Clone, Copy, PartialEq, Eq, Hash, Structural)]
pub enum SpecialConfigKind {
    ServerProperties,
    PumpkinToml,
}

#[derive(Debug, Clone, Copy, PartialEq, Eq, Hash, Structural)]
pub enum ConfigSurfaceOwner {
    ServerCore,
    Plugin,
    FallbackDirectory,
}

#[derive(Debug, Clone, Copy, PartialEq, Eq, Hash, Structural)]
pub enum ConfigFormat {
    Yaml,
    Toml,
    Json,
    Properties,
    Text,
}

#[derive(Debug, Clone, Copy, PartialEq, Eq, Hash, Structural)]
pub enum ConfigSurfaceKind {
    CanonicalFile,
    PluginDirectory,
    FallbackDirectory,
}

/// A configuration location that a server flavor is known to use.
#[derive(Debug, Clone, Copy, PartialEq, Eq, Hash)]
pub struct ConfigSurface {
    pub key: &'static str,
    pub owner: ConfigSurfaceOwner,
    pub kind: ConfigSurfaceKind,
    pub relative_path: &'static str,
    pub format: Option<ConfigFormat>,
    pub recursive: bool,
}

#[derive(Debug, Clone, Copy, PartialEq, Eq, Hash, Structural)]
pub enum WrapperKind {
    Mcdr,
    Generic,
}

#[derive(Debug, Clone, Copy, PartialEq, Eq, Hash, Structural)]
pub enum RuntimeFamily {
    Local,
    DockerItzg,
    Other,
}

/// The resolved capabilities of a server flavor.
#[derive(Debug, Clone, PartialEq, Eq)]
pub struct ServerFlavorProfile {
    pub flavor_kind: ServerFlavorKind,
    pub edition: ServerEdition,
    pub server_role: ServerRole,
    pub display_key: &'static str,
    pub detected_core_key: Option<&'static str>,
    pub default_startup_mode: Option<StartupMode>,
    pub preferred_candidate_modes: Vec<StartupMode>,
    pub requires_java: bool,
    pub supports_starter_install: bool,
    pub supports_custom_wrapper: bool,
    pub extension_kinds: Vec<ServerExtensionKind>,
    pub default_extension_kind: Option<ServerExtensionKind>,
    pub allow_manual_extension_switch: bool,
    pub preferred_control_channel: ControlChannel,
    pub special_config_kinds: Vec<SpecialConfigKind>,
    pub config_surfaces: Vec<ConfigSurface>,
}

/// What a flavor resolution starts from.
#[derive(Debug, Clone, PartialEq, Eq)]
pub struct FlavorResolutionInput<'a> {
    pub core_key: Option<&'a str>,
    pub runtime_kind: Option<&'a str>,
    pub startup_mode: Option<&'a str>,
    pub wrapper_kind: Option<WrapperKind>,
    pub has_pumpkin_config: bool,
}

impl<'a> Default for FlavorResolutionInput<'a> {
    fn default() -> (r: Self)
        ensures
            r.core_key is None,
            r.runtime_kind is None,
            r.startup_mode is None,
            r.wrapper_kind is None,
            !r.has_pumpkin_config,
    {
        FlavorResolutionInput {
            core_key: None,
            runtime_kind: None,
            startup_mode: None,
            wrapper_kind: None,
            has_pumpkin_config: false,
        }
    }
}

impl StartupMode {
    pub open spec fn name(self) -> Seq<char> {
        match self {
            StartupMode::Jar => "jar"@,
            StartupMode::Exe => "exe"@,
            StartupMode::Bat => "bat"@,
            StartupMode::Sh => "sh"@,
            StartupMode::Ps1 => "ps1"@,
            StartupMode::Starter => "starter"@,
            StartupMode::Custom => "custom"@,
        }
    }

    pub fn as_str(self) -> (r: &'static str)
        ensures
            r@ == self.name(),
    {
        match self {
            StartupMode::Jar => "jar",
            StartupMode::Exe => "exe",
            StartupMode::Bat => "bat",
            StartupMode::Sh => "sh",
            StartupMode::Ps1 => "ps1",
            StartupMode::Starter => "starter",
            StartupMode::Custom => "custom",
        }
    }

    /// The mode that a normalized mode text names.
    pub open spec fn from_norm(s: Seq<char>) -> Option<StartupMode> {
        if s == "jar"@ {
            Some(StartupMode::Jar)
        } else if s == "exe"@ {
            Some(StartupMode::Exe)
        } else if s == "bat"@ || s == "cmd"@ {
            Some(StartupMode::Bat)
        } else if s == "sh"@ {
            Some(StartupMode::Sh)
        } else if s == "ps1"@ {
            Some(StartupMode::Ps1)
        } else if s == "starter"@ {
            Some(StartupMode::Starter)
        } else if s == "custom"@ {
            Some(StartupMode::Custom)
        } else {
            None
        }
    }

    /// Parses a startup mode, ignoring surrounding whitespace and ASCII case.
    pub fn parse(value: &str) -> (r: Option<Self>)
        ensures
            r == StartupMode::from_norm(norm(value@)),
    {
        let n = norm_chars(value);
        let s = n.as_slice();
        if eq_str(s, "jar") {
            Some(StartupMode::Jar)
        } else if eq_str(s, "exe") {
            Some(StartupMode::Exe)
        } else if eq_str(s, "bat") || eq_str(s, "cmd") {
            Some(StartupMode::Bat)
        } else if eq_str(s, "sh") {
            Some(StartupMode::Sh)
        } else if eq_str(s, "ps1") {
            Some(StartupMode::Ps1)
        } else if eq_str(s, "starter") {
            Some(StartupMode::Starter)
        } else if eq_str(s, "custom") {
            Some(StartupMode::Custom)
        } else {
            None
        }
    }
}

impl<'a> FlavorResolutionInput<'a> {
    pub fn new() -> (r: Self)
        ensures
            r.core_key is None,
            r.runtime_kind is None,
            r.startup_mode is None,
            r.wrapper_kind is None,
            !r.has_pumpkin_config,
    {
        Self::default()
    }

    pub fn with_core_key(self, core_key: &'a str) -> (r: Self)
        ensures
            r == (FlavorResolutionInput { core_key: Some(core_key), ..self }),
    {
        FlavorResolutionInput { core_key: Some(core_key), ..self }
    }

    pub fn with_runtime_kind(self, runtime_kind: &'a str) -> (r: Self)
        ensures
            r == (FlavorResolutionInput { runtime_kind: Some(runtime_kind), ..self }),
    {
        FlavorResolutionInput { runtime_kind: Some(runtime_kind), ..self }
    }

    pub fn with_startup_mode(self, startup_mode: &'a str) -> (r: Self)
        ensures
            r == (FlavorResolutionInput { startup_mode: Some(startup_mode), ..self }),
    {
        FlavorResolutionInput { startup_mode: Some(startup_mode), ..self }
    }

    pub fn with_wrapper_kind(self, wrapper_kind: WrapperKind) -> (r: Self)
        ensures
            r == (FlavorResolutionInput { wrapper_kind: Some(wrapper_kind), ..self }),
    {
        FlavorResolutionInput { wrapper_kind: Some(wrapper_kind), ..self }
    }

    pub fn with_pumpkin_config(self, has_pumpkin_config: bool) -> (r: Self)
        ensures
            r == (FlavorResolutionInput { has_pumpkin_config, ..self }),
    {
        FlavorResolutionInput { has_pumpkin_config, ..self }
    }
}

/// A vector holding one element.
pub fn one<T>(x: T) -> (v: Vec<T>)
    ensures
        v@ == seq![x],
{
    let mut v: Vec<T> = Vec::new();
    v.push(x);
    v
}

/// Index of the first surface with the given key.
pub open spec fn first_surface_with_key(s: Seq<ConfigSurface>, key: Seq<char>) -> Option<int> {
    if exists|i: int| 0 <= i < s.len() && s[i].key@ == key {
        Some(
            choose|i: int|
                0 <= i < s.len() && s[i].key@ == key && forall|j: int|
                    0 <= j < i ==> s[j].key@ != key,
        )
    } else {
        None
    }
}

impl ServerFlavorProfile {
    pub fn supports_extension_kind(&self, kind: ServerExtensionKind) -> (r: bool)
        ensures
            r == self.extension_kinds@.contains(kind),
    {
        let mut i: usize = 0;
        while i < self.extension_kinds.len()
            invariant
                i <= self.extension_kinds@.len(),
                forall|j: int| 0 <= j < i ==> self.extension_kinds@[j] != kind,
            decreases self.extension_kinds@.len() - i,
        {
            if self.extension_kinds[i] == kind {
                assert(self.extension_kinds@[i as int] == kind);
                return true;
            }
            i = i + 1;
        }
        false
    }

    pub fn prefers_custom_startup(&self) -> (r: bool)
        ensures
            r == (self.default_startup_mode == Some(StartupMode::Custom)),
    {
        match self.default_startup_mode {
            Some(StartupMode::Custom) => true,
            _ => false,
        }
    }

    pub fn is_proxy(&self) -> (r: bool)
        ensures
            r == (self.server_role == ServerRole::Proxy),
    {
        self.server_role == ServerRole::Proxy
    }

    pub fn is_wrapper(&self) -> (r: bool)
        ensures
            r == (self.server_role == ServerRole::Wrapper),
    {
        self.server_role == ServerRole::Wrapper
    }

    /// The first configuration surface whose key is `key`.
    pub fn config_surface(&self, key: &str) -> (r: Option<&ConfigSurface>)
        ensures
            match first_surface_with_key(self.config_surfaces@, key@) {
                Some(i) => r == Some(&self.config_surfaces@[i]),
                None => r is None,
            },
    {
        let mut i: usize = 0;
        while i < self.config_surfaces.len()
            invariant
                i <= self.config_surfaces@.len(),
                forall|j: int| 0 <= j < i ==> self.config_surfaces@[j].key@ != key@,
            decreases self.config_surfaces@.len() - i,
        {
            if str_eq(self.config_surfaces[i].key, key) {
                proof {
                    let s = self.config_surfaces@;
                    assert(s[i as int].key@ == key@);
                    let w = choose|k: int|
                        0 <= k < s.len() && s[k].key@ == key@ && forall|j: int|
                            0 <= j < k ==> s[j].key@ != key@;
                    if w < i {
                    } else if w > i {
                        assert(s[i as int].key@ != key@);
                    }
                }
                return Some(&self.config_surfaces[i]);
            }
            i = i + 1;
        }
        None
    }
}

/// Canonical key named by the input's core key.
pub open spec fn input_core(input: FlavorResolutionInput) -> Option<CoreKey> {
    match input.core_key {
        Some(s) => spec_core_key(s@),
        None => None,
    }
}

fn input_core_exec(input: &FlavorResolutionInput) -> (r: Option<CoreKey>)
    ensures
        r == input_core(*input),
{
    match input.core_key {
        Some(s) => core_key_of(s),
        None => None,
    }
}

/// Runtime family named by an optional runtime kind.
pub open spec fn spec_runtime_family(runtime_kind: Option<Seq<char>>) -> RuntimeFamily {
    match runtime_kind {
        Some(v) => if norm(v) == "local"@ {
            RuntimeFamily::Local
        } else if norm(v) == "docker_itzg"@ {
            RuntimeFamily::DockerItzg
        } else {
            RuntimeFamily::Other
        },
        None => RuntimeFamily::Local,
    }
}

pub fn runtime_family(runtime_kind: Option<&str>) -> (r: RuntimeFamily)
    ensures
        r == spec_runtime_family(opt_str_view(runtime_kind)),
{
    match runtime_kind {
        Some(v) => {
            let n = norm_chars(v);
            if eq_str(n.as_slice(), "local") {
                RuntimeFamily::Local
            } else if eq_str(n.as_slice(), "docker_itzg") {
                RuntimeFamily::DockerItzg
            } else {
                RuntimeFamily::Other
            }
        },
        None => RuntimeFamily::Local,
    }
}

pub open spec fn canonical_file_spec(
    key: &'static str,
    relative_path: &'static str,
    format: ConfigFormat,
) -> ConfigSurface {
    ConfigSurface {
        key,
        owner: ConfigSurfaceOwner::ServerCore,
        kind: ConfigSurfaceKind::CanonicalFile,
        relative_path,
        format: Some(format),
        recursive: false,
    }
}

pub open spec fn plugin_directory_spec(key: &'static str, relative_path: &'static str) -> ConfigSurface {
    ConfigSurface {
        key,
        owner: ConfigSurfaceOwner::Plugin,
        kind: ConfigSurfaceKind::PluginDirectory,
        relative_path,
        format: None,
        recursive: true,
    }
}

pub open spec fn fallback_directory_spec(key: &'static str, relative_path: &'static str) -> ConfigSurface {
    ConfigSurface {
        key,
        owner: ConfigSurfaceOwner::FallbackDirectory,
        kind: ConfigSurfaceKind::FallbackDirectory,
        relative_path,
        format: None,
        recursive: true,
    }
}

fn canonical_file(key: &'static str, relative_path: &'static str, format: ConfigFormat) -> (r: ConfigSurface)
    ensures
        r == canonical_file_spec(key, relative_path, format),
{
    ConfigSurface {
        key,
        owner: ConfigSurfaceOwner::ServerCore,
        kind: ConfigSurfaceKind::CanonicalFile,
        relative_path,
        format: Some(format),
        recursive: false,
    }
}

fn plugin_directory(key: &'static str, relative_path: &'static str) -> (r: ConfigSurface)
    ensures
        r == plugin_directory_spec(key, relative_path),
{
    ConfigSurface {
        key,
        owner: ConfigSurfaceOwner::Plugin,
        kind: ConfigSurfaceKind::PluginDirectory,
        relative_path,
        format: None,
        recursive: true,
    }
}

fn fallback_directory(key: &'static str, relative_path: &'static str) -> (r: ConfigSurface)
    ensures
        r == fallback_directory_spec(key, relative_path),
{
    ConfigSurface {
        key,
        owner: ConfigSurfaceOwner::FallbackDirectory,
        kind: ConfigSurfaceKind::FallbackDirectory,
        relative_path,
        format: None,
        recursive: true,
    }
}

/// Surfaces every flavor has.
pub open spec fn base_surfaces() -> Seq<ConfigSurface> {
    seq![
        canonical_file_spec("server_properties", "server.properties", ConfigFormat::Properties),
        plugin_directory_spec("plugins_root", "plugins"),
        fallback_directory_spec("defaultconfig", "defaultconfig"),
        fallback_directory_spec("defaultconfigs", "defaultconfigs"),
        fallback_directory_spec("config", "config"),
        fallback_directory_spec("configs", "configs"),
    ]
}

fn base_config_surfaces() -> (r: Vec<ConfigSurface>)
    ensures
        r@ == base_surfaces(),
{
    vec![
        canonical_file("server_properties", "server.properties", ConfigFormat::Properties),
        plugin_directory("plugins_root", "plugins"),
        fallback_directory("defaultconfig", "defaultconfig"),
        fallback_directory("defaultconfigs", "defaultconfigs"),
        fallback_directory("config", "config"),
        fallback_directory("configs", "configs"),
    ]
}

/// Surfaces that a core adds to the base ones.
pub open spec fn extra_surfaces(core_key: Option<CoreKey>) -> Seq<ConfigSurface> {
    match core_key {
        Some(CoreKey::Paper) | Some(CoreKey::Folia) | Some(CoreKey::Purpur) | Some(
            CoreKey::Pufferfish,
        ) | Some(CoreKey::Leaves) => seq![
            canonical_file_spec("bukkit_yml", "bukkit.yml", ConfigFormat::Yaml),
            canonical_file_spec("spigot_yml", "spigot.yml", ConfigFormat::Yaml),
            canonical_file_spec("paper_yml", "paper.yml", ConfigFormat::Yaml),
            canonical_file_spec("paper_yaml", "paper.yaml", ConfigFormat::Yaml),
            canonical_file_spec("paper_global_yml", "config/paper-global.yml", ConfigFormat::Yaml),
            canonical_file_spec("paper_global_yaml", "config/paper-global.yaml", ConfigFormat::Yaml),
            canonical_file_spec(
                "paper_world_defaults_yml",
                "config/paper-world-defaults.yml",
                ConfigFormat::Yaml,
            ),
            canonical_file_spec(
                "paper_world_defaults_yaml",
                "config/paper-world-defaults.yaml",
                ConfigFormat::Yaml,
            ),
        ],
        Some(CoreKey::Spigot) | Some(CoreKey::Bukkit) | Some(CoreKey::Glowstone) => seq![
            canonical_file_spec("bukkit_yml", "bukkit.yml", ConfigFormat::Yaml),
            canonical_file_spec("spigot_yml", "spigot.yml", ConfigFormat::Yaml),
        ],
        Some(CoreKey::Tuinity) | Some(CoreKey::Airplane) => seq![
            canonical_file_spec("bukkit_yml", "bukkit.yml", ConfigFormat::Yaml),
            canonical_file_spec("spigot_yml", "spigot.yml", ConfigFormat::Yaml),
            canonical_file_spec("paper_yml", "paper.yml", ConfigFormat::Yaml),
        ],
        Some(CoreKey::Pumpkin) => seq![
            canonical_file_spec("pumpkin_toml", "pumpkin.toml", ConfigFormat::Toml),
        ],
        _ => seq![],
    }
}

/// Whether some surface of `s` has key `key`.
pub open spec fn has_surface_key(s: Seq<ConfigSurface>, key: Seq<char>) -> bool {
    exists|i: int| 0 <= i < s.len() && s[i].key@ == key
}

/// Keeps the first surface of each key, in order.
pub open spec fn dedup_surfaces(s: Seq<ConfigSurface>) -> Seq<ConfigSurface>
    decreases s.len(),
{
    if s.len() == 0 {
        seq![]
    } else {
        let r = dedup_surfaces(s.drop_last());
        if has_surface_key(r, s.last().key@) {
            r
        } else {
            r.push(s.last())
        }
    }
}

/// The configuration surfaces of a core.
pub open spec fn surfaces_for_core(core_key: Option<CoreKey>) -> Seq<ConfigSurface> {
    dedup_surfaces(base_surfaces() + extra_surfaces(core_key))
}

/// A canonical file surface names the format of its file.
pub open spec fn format_named(s: ConfigSurface) -> bool {
    s.kind == ConfigSurfaceKind::CanonicalFile ==> s.format is Some
}

proof fn lemma_dedup_keeps_format_named(s: Seq<ConfigSurface>)
    requires
        forall|i: int| 0 <= i < s.len() ==> format_named(#[trigger] s[i]),
    ensures
        forall|i: int| 0 <= i < dedup_surfaces(s).len() ==> format_named(#[trigger] dedup_surfaces(s)[i]),
    decreases s.len(),
{
    if s.len() > 0 {
        let d = s.drop_last();
        assert forall|i: int| 0 <= i < d.len() implies format_named(#[trigger] d[i]) by {
            assert(d[i] == s[i]);
        }
        lemma_dedup_keeps_format_named(d);
        let r = dedup_surfaces(d);
        assert(format_named(s[s.len() - 1]));
        if !has_surface_key(r, s.last().key@) {
            let out = r.push(s.last());
            assert(dedup_surfaces(s) == out);
            assert forall|i: int| 0 <= i < out.len() implies format_named(#[trigger] out[i]) by {
                if i < r.len() {
                    assert(out[i] == r[i]);
                }
            }
        } else {
            assert(dedup_surfaces(s) == r);
        }
    }
}

/// Every canonical file surface of a core names the format of its file.
pub proof fn lemma_core_surfaces_name_formats(core_key: Option<CoreKey>)
    ensures
        forall|i: int|
            0 <= i < surfaces_for_core(core_key).len() ==> format_named(#[trigger] surfaces_for_core(core_key)[i]),
{
    let s = base_surfaces() + extra_surfaces(core_key);
    assert forall|i: int| 0 <= i < s.len() implies format_named(#[trigger] s[i]) by {
        if i < base_surfaces().len() {
            assert(s[i] == base_surfaces()[i]);
        } else {
            assert(s[i] == extra_surfaces(core_key)[i - base_surfaces().len()]);
        }
    }
    lemma_dedup_keeps_format_named(s);
}

fn dedup_config_surfaces(surfaces: Vec<ConfigSurface>) -> (r: Vec<ConfigSurface>)
    ensures
        r@ == dedup_surfaces(surfaces@),
{
    let mut deduped: Vec<ConfigSurface> = Vec::new();
    let mut i: usize = 0;
    while i < surfaces.len()
        invariant
            i <= surfaces@.len(),
            deduped@ == dedup_surfaces(surfaces@.subrange(0, i as int)),
        decreases surfaces@.len() - i,
    {
        let surface = surfaces[i];
        let mut found = false;
        let mut k: usize = 0;
        while k < deduped.len()
            invariant
                k <= deduped@.len(),
                !found ==> forall|j: int| 0 <= j < k ==> deduped@[j].key@ != surface.key@,
                found ==> has_surface_key(deduped@, surface.key@),
            decreases deduped@.len() - k,
        {
            if str_eq(deduped[k].key, surface.key) {
                found = true;
            }
            k = k + 1;
        }
        proof {
            let t = surfaces@.subrange(0, i + 1);
            assert(t.drop_last() == surfaces@.subrange(0, i as int));
            assert(t.last() == surface);
        }
        if !found {
            deduped.push(surface);
        }
        i = i + 1;
    }
    assert(surfaces@.subrange(0, surfaces@.len() as int) == surfaces@);
    deduped
}

pub(crate) fn config_surfaces_for_core(core_key: Option<CoreKey>) -> (r: Vec<ConfigSurface>)
    ensures
        r@ == surfaces_for_core(core_key),
{
    let mut surfaces = base_config_surfaces();
    match core_key {
        Some(CoreKey::Paper) | Some(CoreKey::Folia) | Some(CoreKey::Purpur) | Some(
            CoreKey::Pufferfish,
        ) | Some(CoreKey::Leaves) => {
            surfaces.push(canonical_file("bukkit_yml", "bukkit.yml", ConfigFormat::Yaml));
            surfaces.push(canonical_file("spigot_yml", "spigot.yml", ConfigFormat::Yaml));
            surfaces.push(canonical_file("paper_yml", "paper.yml", ConfigFormat::Yaml));
            surfaces.push(canonical_file("paper_yaml", "paper.yaml", ConfigFormat::Yaml));
            surfaces.push(
                canonical_file("paper_global_yml", "config/paper-global.yml", ConfigFormat::Yaml),
            );
            surfaces.push(
                canonical_file("paper_global_yaml", "config/paper-global.yaml", ConfigFormat::Yaml),
            );
            surfaces.push(
                canonical_file(
                    "paper_world_defaults_yml",
                    "config/paper-world-defaults.yml",
                    ConfigFormat::Yaml,
                ),
            );
            surfaces.push(
                canonical_file(
                    "paper_world_defaults_yaml",
                    "config/paper-world-defaults.yaml",
                    ConfigFormat::Yaml,
                ),
            );
        },
        Some(CoreKey::Spigot) | Some(CoreKey::Bukkit) | Some(CoreKey::Glowstone) | Some(
            CoreKey::Tuinity,
        ) | Some(CoreKey::Airplane) => {
            surfaces.push(canonical_file("bukkit_yml", "bukkit.yml", ConfigFormat::Yaml));
            surfaces.push(canonical_file("spigot_yml", "spigot.yml", ConfigFormat::Yaml));
            match core_key {
                Some(CoreKey::Tuinity) | Some(CoreKey::Airplane) => {
                    surfaces.push(canonical_file("paper_yml", "paper.yml", ConfigFormat::Yaml));
                },
                _ => {},
            }
        },
        Some(CoreKey::Pumpkin) => {
            surfaces.push(canonical_file("pumpkin_toml", "pumpkin.toml", ConfigFormat::Toml));
        },
        _ => {},
    }
    assert(surfaces@ == base_surfaces() + extra_surfaces(core_key));
    dedup_config_surfaces(surfaces)
}

/// All the fields of a profile, stated at once.
pub open spec fn profile_is(
    p: ServerFlavorProfile,
    kind: ServerFlavorKind,
    edition: ServerEdition,
    role: ServerRole,
    display: Seq<char>,
    detected: Option<CoreKey>,
    default_mode: Option<StartupMode>,
    modes: Seq<StartupMode>,
    requires_java: bool,
    starter: bool,
    custom_wrapper: bool,
    extensions: Seq<ServerExtensionKind>,
    default_extension: Option<ServerExtensionKind>,
    manual_switch: bool,
    control: ControlChannel,
    special: Seq<SpecialConfigKind>,
    surfaces: Seq<ConfigSurface>,
) -> bool {
    &&& p.flavor_kind == kind
    &&& p.edition == edition
    &&& p.server_role == role
    &&& p.display_key@ == display
    &&& opt_str_view(p.detected_core_key) == key_text(detected)
    &&& p.default_startup_mode == default_mode
    &&& p.preferred_candidate_modes@ == modes
    &&& p.requires_java == requires_java
    &&& p.supports_starter_install == starter
    &&& p.supports_custom_wrapper == custom_wrapper
    &&& p.extension_kinds@ == extensions
    &&& p.default_extension_kind == default_extension
    &&& p.allow_manual_extension_switch == manual_switch
    &&& p.preferred_control_channel == control
    &&& p.special_config_kinds@ == special
    &&& p.config_surfaces@ == surfaces
}

pub open spec fn vanilla_like_profile_spec(p: ServerFlavorProfile, core_key: Option<CoreKey>) -> bool {
    profile_is(p, ServerFlavorKind::VanillaLike, ServerEdition::Java, ServerRole::GameServer, "vanilla_like"@, core_key, Some(StartupMode::Jar), seq![StartupMode::Jar, StartupMode::Sh, StartupMode::Bat], true, false, true, seq![ServerExtensionKind::Datapack], Some(ServerExtensionKind::Datapack), false, ControlChannel::Stdin, seq![SpecialConfigKind::ServerProperties], surfaces_for_core(core_key))
}

fn vanilla_like_profile(core_key: Option<CoreKey>) -> (p: ServerFlavorProfile)
    ensures
        vanilla_like_profile_spec(p, core_key),
{
    ServerFlavorProfile {
        flavor_kind: ServerFlavorKind::VanillaLike,
        edition: ServerEdition::Java,
        server_role: ServerRole::GameServer,
        display_key: "vanilla_like",
        detected_core_key: key_str(core_key),
        default_startup_mode: Some(StartupMode::Jar),
        preferred_candidate_modes: vec![StartupMode::Jar, StartupMode::Sh, StartupMode::Bat],
        requires_java: true,
        supports_starter_install: false,
        supports_custom_wrapper: true,
        extension_kinds: one(ServerExtensionKind::Datapack),
        default_extension_kind: Some(ServerExtensionKind::Datapack),
        allow_manual_extension_switch: false,
        preferred_control_channel: ControlChannel::Stdin,
        special_config_kinds: one(SpecialConfigKind::ServerProperties),
        config_surfaces: config_surfaces_for_core(core_key),
    }
}

pub open spec fn bukkit_like_profile_spec(p: ServerFlavorProfile, core_key: Option<CoreKey>) -> bool {
    profile_is(p, ServerFlavorKind::BukkitLike, ServerEdition::Java, ServerRole::GameServer, "bukkit_like"@, core_key, Some(StartupMode::Jar), seq![StartupMode::Jar, StartupMode::Sh, StartupMode::Bat], true, false, true, seq![ServerExtensionKind::Plugin, ServerExtensionKind::Datapack], Some(ServerExtensionKind::Plugin), false, ControlChannel::Stdin, seq![SpecialConfigKind::ServerProperties], surfaces_for_core(core_key))
}

fn bukkit_like_profile(core_key: Option<CoreKey>) -> (p: ServerFlavorProfile)
    ensures
        bukkit_like_profile_spec(p, core_key),
{
    ServerFlavorProfile {
        flavor_kind: ServerFlavorKind::BukkitLike,
        edition: ServerEdition::Java,
        server_role: ServerRole::GameServer,
        display_key: "bukkit_like",
        detected_core_key: key_str(core_key),
        default_startup_mode: Some(StartupMode::Jar),
        preferred_candidate_modes: vec![StartupMode::Jar, StartupMode::Sh, StartupMode::Bat],
        requires_java: true,
        supports_starter_install: false,
        supports_custom_wrapper: true,
        extension_kinds: vec![ServerExtensionKind::Plugin, ServerExtensionKind::Datapack],
        default_extension_kind: Some(ServerExtensionKind::Plugin),
        allow_manual_extension_switch: false,
        preferred_control_channel: ControlChannel::Stdin,
        special_config_kinds: one(SpecialConfigKind::ServerProperties),
        config_surfaces: config_surfaces_for_core(core_key),
    }
}

pub open spec fn forge_like_profile_spec(p: ServerFlavorProfile, core_key: Option<CoreKey>) -> bool {
    profile_is(p, ServerFlavorKind::ForgeLike, ServerEdition::Java, ServerRole::GameServer, "forge_like"@, core_key, Some(StartupMode::Starter), seq![StartupMode::Starter, StartupMode::Jar], true, true, true, seq![ServerExtensionKind::Mod, ServerExtensionKind::Datapack], Some(ServerExtensionKind::Mod), false, ControlChannel::Stdin, seq![SpecialConfigKind::ServerProperties], surfaces_for_core(core_key))
}

fn forge_like_profile(core_key: Option<CoreKey>) -> (p: ServerFlavorProfile)
    ensures
        forge_like_profile_spec(p, core_key),
{
    ServerFlavorProfile {
        flavor_kind: ServerFlavorKind::ForgeLike,
        edition: ServerEdition::Java,
        server_role: ServerRole::GameServer,
        display_key: "forge_like",
        detected_core_key: key_str(core_key),
        default_startup_mode: Some(StartupMode::Starter),
        preferred_candidate_modes: vec![StartupMode::Starter, StartupMode::Jar],
        requires_java: true,
        supports_starter_install: true,
        supports_custom_wrapper: true,
        extension_kinds: vec![ServerExtensionKind::Mod, ServerExtensionKind::Datapack],
        default_extension_kind: Some(ServerExtensionKind::Mod),
        allow_manual_extension_switch: false,
        preferred_control_channel: ControlChannel::Stdin,
        special_config_kinds: one(SpecialConfigKind::ServerProperties),
        config_surfaces: config_surfaces_for_core(core_key),
    }
}

pub open spec fn fabric_like_profile_spec(p: ServerFlavorProfile, core_key: Option<CoreKey>) -> bool {
    profile_is(p, ServerFlavorKind::FabricLike, ServerEdition::Java, ServerRole::GameServer, "fabric_like"@, core_key, Some(StartupMode::Jar), seq![StartupMode::Jar, StartupMode::Sh, StartupMode::Bat], true, false, true, seq![ServerExtensionKind::Mod, ServerExtensionKind::Datapack], Some(ServerExtensionKind::Mod), false, ControlChannel::Stdin, seq![SpecialConfigKind::ServerProperties], surfaces_for_core(core_key))
}

fn fabric_like_profile(core_key: Option<CoreKey>) -> (p: ServerFlavorProfile)
    ensures
        fabric_like_profile_spec(p, core_key),
{
    ServerFlavorProfile {
        flavor_kind: ServerFlavorKind::FabricLike,
        edition: ServerEdition::Java,
        server_role: ServerRole::GameServer,
        display_key: "fabric_like",
        detected_core_key: key_str(core_key),
        default_startup_mode: Some(StartupMode::Jar),
        preferred_candidate_modes: vec![StartupMode::Jar, StartupMode::Sh, StartupMode::Bat],
        requires_java: true,
        supports_starter_install: false,
        supports_custom_wrapper: true,
        extension_kinds: vec![ServerExtensionKind::Mod, ServerExtensionKind::Datapack],
        default_extension_kind: Some(ServerExtensionKind::Mod),
        allow_manual_extension_switch: false,
        preferred_control_channel: ControlChannel::Stdin,
        special_config_kinds: one(SpecialConfigKind::ServerProperties),
        config_surfaces: config_surfaces_for_core(core_key),
    }
}

pub open spec fn embedded_java_profile_spec(p: ServerFlavorProfile, core_key: Option<CoreKey>) -> bool {
    profile_is(p, ServerFlavorKind::EmbeddedJavaLike, ServerEdition::Java, ServerRole::GameServer, "embedded_java_like"@, core_key, Some(StartupMode::Jar), seq![StartupMode::Jar, StartupMode::Sh, StartupMode::Bat], true, false, true, seq![ServerExtensionKind::Plugin, ServerExtensionKind::Datapack], Some(ServerExtensionKind::Plugin), false, ControlChannel::Stdin, seq![SpecialConfigKind::ServerProperties], surfaces_for_core(core_key))
}

fn embedded_java_profile(core_key: Option<CoreKey>) -> (p: ServerFlavorProfile)
    ensures
        embedded_java_profile_spec(p, core_key),
{
    ServerFlavorProfile {
        flavor_kind: ServerFlavorKind::EmbeddedJavaLike,
        edition: ServerEdition::Java,
        server_role: ServerRole::GameServer,
        display_key: "embedded_java_like",
        detected_core_key: key_str(core_key),
        default_startup_mode: Some(StartupMode::Jar),
        preferred_candidate_modes: vec![StartupMode::Jar, StartupMode::Sh, StartupMode::Bat],
        requires_java: true,
        supports_starter_install: false,
        supports_custom_wrapper: true,
        extension_kinds: vec![ServerExtensionKind::Plugin, ServerExtensionKind::Datapack],
        default_extension_kind: Some(ServerExtensionKind::Plugin),
        allow_manual_extension_switch: false,
        preferred_control_channel: ControlChannel::Stdin,
        special_config_kinds: one(SpecialConfigKind::ServerProperties),
        config_surfaces: config_surfaces_for_core(core_key),
    }
}

pub open spec fn proxy_like_profile_spec(p: ServerFlavorProfile, core_key: Option<CoreKey>) -> bool {
    profile_is(p, ServerFlavorKind::ProxyLike, ServerEdition::Java, ServerRole::Proxy, "proxy_like"@, core_key, Some(StartupMode::Jar), seq![StartupMode::Jar], true, false, false, seq![ServerExtensionKind::Plugin], Some(ServerExtensionKind::Plugin), false, ControlChannel::Stdin, seq![], surfaces_for_core(core_key))
}

fn proxy_like_profile(core_key: Option<CoreKey>) -> (p: ServerFlavorProfile)
    ensures
        proxy_like_profile_spec(p, core_key),
{
    ServerFlavorProfile {
        flavor_kind: ServerFlavorKind::ProxyLike,
        edition: ServerEdition::Java,
        server_role: ServerRole::Proxy,
        display_key: "proxy_like",
        detected_core_key: key_str(core_key),
        default_startup_mode: Some(StartupMode::Jar),
        preferred_candidate_modes: one(StartupMode::Jar),
        requires_java: true,
        supports_starter_install: false,
        supports_custom_wrapper: false,
        extension_kinds: one(ServerExtensionKind::Plugin),
        default_extension_kind: Some(ServerExtensionKind::Plugin),
        allow_manual_extension_switch: false,
        preferred_control_channel: ControlChannel::Stdin,
        special_config_kinds: Vec::new(),
        config_surfaces: config_surfaces_for_core(core_key),
    }
}

pub open spec fn bedrock_dedicated_profile_spec(p: ServerFlavorProfile, core_key: Option<CoreKey>) -> bool {
    profile_is(p, ServerFlavorKind::BedrockLike, ServerEdition::Bedrock, ServerRole::GameServer, "bedrock_dedicated"@, core_key, Some(StartupMode::Exe), seq![StartupMode::Exe, StartupMode::Bat, StartupMode::Ps1, StartupMode::Sh], false, false, true, seq![ServerExtensionKind::Addon], Some(ServerExtensionKind::Addon), false, ControlChannel::Stdin, seq![SpecialConfigKind::ServerProperties], surfaces_for_core(core_key))
}

fn bedrock_dedicated_profile(core_key: Option<CoreKey>) -> (p: ServerFlavorProfile)
    ensures
        bedrock_dedicated_profile_spec(p, core_key),
{
    ServerFlavorProfile {
        flavor_kind: ServerFlavorKind::BedrockLike,
        edition: ServerEdition::Bedrock,
        server_role: ServerRole::GameServer,
        display_key: "bedrock_dedicated",
        detected_core_key: key_str(core_key),
        default_startup_mode: Some(StartupMode::Exe),
        preferred_candidate_modes: vec![StartupMode::Exe, StartupMode::Bat, StartupMode::Ps1, StartupMode::Sh],
        requires_java: false,
        supports_starter_install: false,
        supports_custom_wrapper: true,
        extension_kinds: one(ServerExtensionKind::Addon),
        default_extension_kind: Some(ServerExtensionKind::Addon),
        allow_manual_extension_switch: false,
        preferred_control_channel: ControlChannel::Stdin,
        special_config_kinds: one(SpecialConfigKind::ServerProperties),
        config_surfaces: config_surfaces_for_core(core_key),
    }
}

pub open spec fn bedrock_wrapped_profile_spec(p: ServerFlavorProfile, core_key: Option<CoreKey>) -> bool {
    profile_is(p, ServerFlavorKind::BedrockLike, ServerEdition::Bedrock, ServerRole::GameServer, "bedrock_wrapped"@, core_key, Some(StartupMode::Exe), seq![StartupMode::Exe, StartupMode::Bat, StartupMode::Ps1, StartupMode::Sh, StartupMode::Custom], false, false, true, seq![ServerExtensionKind::Plugin, ServerExtensionKind::Addon], Some(ServerExtensionKind::Plugin), true, ControlChannel::Stdin, seq![SpecialConfigKind::ServerProperties], surfaces_for_core(core_key))
}

fn bedrock_wrapped_profile(core_key: Option<CoreKey>) -> (p: ServerFlavorProfile)
    ensures
        bedrock_wrapped_profile_spec(p, core_key),
{
    ServerFlavorProfile {
        flavor_kind: ServerFlavorKind::BedrockLike,
        edition: ServerEdition::Bedrock,
        server_role: ServerRole::GameServer,
        display_key: "bedrock_wrapped",
        detected_core_key: key_str(core_key),
        default_startup_mode: Some(StartupMode::Exe),
        preferred_candidate_modes: vec![StartupMode::Exe, StartupMode::Bat, StartupMode::Ps1, StartupMode::Sh, StartupMode::Custom],
        requires_java: false,
        supports_starter_install: false,
        supports_custom_wrapper: true,
        extension_kinds: vec![ServerExtensionKind::Plugin, ServerExtensionKind::Addon],
        default_extension_kind: Some(ServerExtensionKind::Plugin),
        allow_manual_extension_switch: true,
        preferred_control_channel: ControlChannel::Stdin,
        special_config_kinds: one(SpecialConfigKind::ServerProperties),
        config_surfaces: config_surfaces_for_core(core_key),
    }
}

pub open spec fn bedrock_java_plugin_profile_spec(p: ServerFlavorProfile, core_key: Option<CoreKey>) -> bool {
    profile_is(p, ServerFlavorKind::BedrockLike, ServerEdition::Bedrock, ServerRole::GameServer, "bedrock_plugin_java"@, core_key, Some(StartupMode::Jar), seq![StartupMode::Jar, StartupMode::Sh, StartupMode::Bat], true, false, true, seq![ServerExtensionKind::Plugin], Some(ServerExtensionKind::Plugin), false, ControlChannel::Stdin, seq![], surfaces_for_core(core_key))
}

fn bedrock_java_plugin_profile(core_key: Option<CoreKey>) -> (p: ServerFlavorProfile)
    ensures
        bedrock_java_plugin_profile_spec(p, core_key),
{
    ServerFlavorProfile {
        flavor_kind: ServerFlavorKind::BedrockLike,
        edition: ServerEdition::Bedrock,
        server_role: ServerRole::GameServer,
        display_key: "bedrock_plugin_java",
        detected_core_key: key_str(core_key),
        default_startup_mode: Some(StartupMode::Jar),
        preferred_candidate_modes: vec![StartupMode::Jar, StartupMode::Sh, StartupMode::Bat],
        requires_java: true,
        supports_starter_install: false,
        supports_custom_wrapper: true,
        extension_kinds: one(ServerExtensionKind::Plugin),
        default_extension_kind: Some(ServerExtensionKind::Plugin),
        allow_manual_extension_switch: false,
        preferred_control_channel: ControlChannel::Stdin,
        special_config_kinds: Vec::new(),
        config_surfaces: config_surfaces_for_core(core_key),
    }
}

pub open spec fn bedrock_script_plugin_profile_spec(p: ServerFlavorProfile, core_key: Option<CoreKey>) -> bool {
    profile_is(p, ServerFlavorKind::BedrockLike, ServerEdition::Bedrock, ServerRole::GameServer, "bedrock_plugin_script"@, core_key, Some(StartupMode::Custom), seq![StartupMode::Custom, StartupMode::Bat, StartupMode::Sh], false, false, true, seq![ServerExtensionKind::Plugin], Some(ServerExtensionKind::Plugin), false, ControlChannel::Stdin, seq![], surfaces_for_core(core_key))
}

fn bedrock_script_plugin_profile(core_key: Option<CoreKey>) -> (p: ServerFlavorProfile)
    ensures
        bedrock_script_plugin_profile_spec(p, core_key),
{
    ServerFlavorProfile {
        flavor_kind: ServerFlavorKind::BedrockLike,
        edition: ServerEdition::Bedrock,
        server_role: ServerRole::GameServer,
        display_key: "bedrock_plugin_script",
        detected_core_key: key_str(core_key),
        default_startup_mode: Some(StartupMode::Custom),
        preferred_candidate_modes: vec![StartupMode::Custom, StartupMode::Bat, StartupMode::Sh],
        requires_java: false,
        supports_starter_install: false,
        supports_custom_wrapper: true,
        extension_kinds: one(ServerExtensionKind::Plugin),
        default_extension_kind: Some(ServerExtensionKind::Plugin),
        allow_manual_extension_switch: false,
        preferred_control_channel: ControlChannel::Stdin,
        special_config_kinds: Vec::new(),
        config_surfaces: config_surfaces_for_core(core_key),
    }
}

pub open spec fn bedrock_native_plugin_profile_spec(p: ServerFlavorProfile, core_key: Option<CoreKey>) -> bool {
    profile_is(p, ServerFlavorKind::BedrockLike, ServerEdition::Bedrock, ServerRole::GameServer, "bedrock_plugin_native"@, core_key, Some(StartupMode::Exe), seq![StartupMode::Exe, StartupMode::Bat, StartupMode::Ps1, StartupMode::Sh, StartupMode::Custom], false, false, true, seq![ServerExtensionKind::Plugin], Some(ServerExtensionKind::Plugin), false, ControlChannel::Stdin, seq![], surfaces_for_core(core_key))
}

fn bedrock_native_plugin_profile(core_key: Option<CoreKey>) -> (p: ServerFlavorProfile)
    ensures
        bedrock_native_plugin_profile_spec(p, core_key),
{
    ServerFlavorProfile {
        flavor_kind: ServerFlavorKind::BedrockLike,
        edition: ServerEdition::Bedrock,
        server_role: ServerRole::GameServer,
        display_key: "bedrock_plugin_native",
        detected_core_key: key_str(core_key),
        default_startup_mode: Some(StartupMode::Exe),
        preferred_candidate_modes: vec![StartupMode::Exe, StartupMode::Bat, StartupMode::Ps1, StartupMode::Sh, StartupMode::Custom],
        requires_java: false,
        supports_starter_install: false,
        supports_custom_wrapper: true,
        extension_kinds: one(ServerExtensionKind::Plugin),
        default_extension_kind: Some(ServerExtensionKind::Plugin),
        allow_manual_extension_switch: false,
        preferred_control_channel: ControlChannel::Stdin,
        special_config_kinds: Vec::new(),
        config_surfaces: config_surfaces_for_core(core_key),
    }
}

pub open spec fn mixed_extension_profile_spec(p: ServerFlavorProfile, core_key: Option<CoreKey>) -> bool {
    profile_is(p, ServerFlavorKind::ForgeLike, ServerEdition::Java, ServerRole::GameServer, "mixed_extension_server"@, core_key, Some(StartupMode::Jar), seq![StartupMode::Jar, StartupMode::Starter], true, core_key == Some(CoreKey::ArclightNeoforge), true, seq![ServerExtensionKind::Plugin, ServerExtensionKind::Mod, ServerExtensionKind::Datapack], Some(ServerExtensionKind::Plugin), true, ControlChannel::Stdin, seq![SpecialConfigKind::ServerProperties], surfaces_for_core(core_key))
}

fn mixed_extension_profile(core_key: Option<CoreKey>) -> (p: ServerFlavorProfile)
    ensures
        mixed_extension_profile_spec(p, core_key),
{
    ServerFlavorProfile {
        flavor_kind: ServerFlavorKind::ForgeLike,
        edition: ServerEdition::Java,
        server_role: ServerRole::GameServer,
        display_key: "mixed_extension_server",
        detected_core_key: key_str(core_key),
        default_startup_mode: Some(StartupMode::Jar),
        preferred_candidate_modes: vec![StartupMode::Jar, StartupMode::Starter],
        requires_java: true,
        supports_starter_install: match core_key { Some(CoreKey::ArclightNeoforge) => true, _ => false },
        supports_custom_wrapper: true,
        extension_kinds: vec![ServerExtensionKind::Plugin, ServerExtensionKind::Mod, ServerExtensionKind::Datapack],
        default_extension_kind: Some(ServerExtensionKind::Plugin),
        allow_manual_extension_switch: true,
        preferred_control_channel: ControlChannel::Stdin,
        special_config_kinds: one(SpecialConfigKind::ServerProperties),
        config_surfaces: config_surfaces_for_core(core_key),
    }
}

pub open spec fn native_executable_profile_spec(
    p: ServerFlavorProfile,
    core_key: Option<CoreKey>,
    display: Seq<char>,
) -> bool {
    profile_is(
        p,
        ServerFlavorKind::NativeExecutable,
        ServerEdition::Java,
        ServerRole::GameServer,
        display,
        core_key,
        Some(StartupMode::Custom),
        seq![StartupMode::Custom, StartupMode::Bat],
        false,
        false,
        true,
        seq![ServerExtensionKind::Datapack],
        Some(ServerExtensionKind::Datapack),
        false,
        ControlChannel::Stdin,
        if core_key == Some(CoreKey::Pumpkin) {
            seq![SpecialConfigKind::PumpkinToml]
        } else {
            seq![]
        },
        surfaces_for_core(core_key),
    )
}

fn native_executable_profile(core_key: Option<CoreKey>, display_key: &'static str) -> (p: ServerFlavorProfile)
    ensures
        native_executable_profile_spec(p, core_key, display_key@),
{
    let special_config_kinds = match core_key {
        Some(CoreKey::Pumpkin) => one(SpecialConfigKind::PumpkinToml),
        _ => Vec::new(),
    };
    ServerFlavorProfile {
        flavor_kind: ServerFlavorKind::NativeExecutable,
        edition: ServerEdition::Java,
        server_role: ServerRole::GameServer,
        display_key,
        detected_core_key: key_str(core_key),
        default_startup_mode: Some(StartupMode::Custom),
        preferred_candidate_modes: vec![StartupMode::Custom, StartupMode::Bat],
        requires_java: false,
        supports_starter_install: false,
        supports_custom_wrapper: true,
        extension_kinds: one(ServerExtensionKind::Datapack),
        default_extension_kind: Some(ServerExtensionKind::Datapack),
        allow_manual_extension_switch: false,
        preferred_control_channel: ControlChannel::Stdin,
        special_config_kinds,
        config_surfaces: config_surfaces_for_core(core_key),
    }
}

fn pumpkin_profile() -> (p: ServerFlavorProfile)
    ensures
        native_executable_profile_spec(p, Some(CoreKey::Pumpkin), "pumpkin"@),
{
    native_executable_profile(Some(CoreKey::Pumpkin), "pumpkin")
}

/// The special configuration files that an input implies.
pub open spec fn special_configs_spec(input: FlavorResolutionInput) -> Seq<SpecialConfigKind> {
    let pumpkin = input_core(input) == Some(CoreKey::Pumpkin);
    let first: Seq<SpecialConfigKind> = if input.has_pumpkin_config || pumpkin {
        seq![SpecialConfigKind::PumpkinToml]
    } else {
        seq![]
    };
    if !pumpkin {
        first.push(SpecialConfigKind::ServerProperties)
    } else {
        first
    }
}

fn special_configs(input: &FlavorResolutionInput) -> (r: Vec<SpecialConfigKind>)
    ensures
        r@ == special_configs_spec(*input),
{
    let core = input_core_exec(input);
    let pumpkin = match core {
        Some(CoreKey::Pumpkin) => true,
        _ => false,
    };
    let mut kinds: Vec<SpecialConfigKind> = Vec::new();
    if input.has_pumpkin_config || pumpkin {
        kinds.push(SpecialConfigKind::PumpkinToml);
    }
    if !pumpkin {
        kinds.push(SpecialConfigKind::ServerProperties);
    }
    kinds
}

/// Whether a canonical key belongs to a Bedrock Edition server.
pub open spec fn is_bedrock_key(k: CoreKey) -> bool {
    match k {
        CoreKey::Bds | CoreKey::Liteloaderbds | CoreKey::Levilamina | CoreKey::Bdsx
        | CoreKey::Allay | CoreKey::Nukkit | CoreKey::Powernukkitx | CoreKey::Pocketmine
        | CoreKey::Endstone => true,
        _ => false,
    }
}

pub open spec fn wrapped_profile_spec(
    p: ServerFlavorProfile,
    wrapper_kind: WrapperKind,
    input: FlavorResolutionInput,
) -> bool {
    let core = input_core(input);
    let ext = match wrapper_kind {
        WrapperKind::Mcdr => ServerExtensionKind::McdrPlugin,
        WrapperKind::Generic => ServerExtensionKind::Datapack,
    };
    profile_is(
        p,
        ServerFlavorKind::WrappedServer,
        match core {
            Some(k) => if is_bedrock_key(k) {
                ServerEdition::Bedrock
            } else {
                ServerEdition::Java
            },
            None => ServerEdition::Unknown,
        },
        ServerRole::Wrapper,
        match wrapper_kind {
            WrapperKind::Mcdr => "mcdr_wrapped"@,
            WrapperKind::Generic => "wrapped_server"@,
        },
        core,
        Some(StartupMode::Custom),
        seq![StartupMode::Custom],
        core != Some(CoreKey::Pumpkin),
        false,
        true,
        seq![ext],
        Some(ext),
        false,
        ControlChannel::WrapperConsole,
        special_configs_spec(input),
        surfaces_for_core(core),
    )
}

fn wrapped_profile(wrapper_kind: WrapperKind, input: &FlavorResolutionInput) -> (p: ServerFlavorProfile)
    ensures
        wrapped_profile_spec(p, wrapper_kind, *input),
{
    let (display_key, extension_kind) = match wrapper_kind {
        WrapperKind::Mcdr => ("mcdr_wrapped", ServerExtensionKind::McdrPlugin),
        WrapperKind::Generic => ("wrapped_server", ServerExtensionKind::Datapack),
    };
    let core = input_core_exec(input);
    let edition = match core {
        Some(CoreKey::Bds) | Some(CoreKey::Liteloaderbds) | Some(CoreKey::Levilamina) | Some(
            CoreKey::Bdsx,
        ) | Some(CoreKey::Allay) | Some(CoreKey::Nukkit) | Some(CoreKey::Powernukkitx) | Some(
            CoreKey::Pocketmine,
        ) | Some(CoreKey::Endstone) => ServerEdition::Bedrock,
        Some(_) => ServerEdition::Java,
        None => ServerEdition::Unknown,
    };
    let requires_java = match core {
        Some(CoreKey::Pumpkin) => false,
        _ => true,
    };
    ServerFlavorProfile {
        flavor_kind: ServerFlavorKind::WrappedServer,
        edition,
        server_role: ServerRole::Wrapper,
        display_key,
        detected_core_key: key_str(core),
        default_startup_mode: Some(StartupMode::Custom),
        preferred_candidate_modes: one(StartupMode::Custom),
        requires_java,
        supports_starter_install: false,
        supports_custom_wrapper: true,
        extension_kinds: one(extension_kind),
        default_extension_kind: Some(extension_kind),
        allow_manual_extension_switch: false,
        preferred_control_channel: ControlChannel::WrapperConsole,
        special_config_kinds: special_configs(input),
        config_surfaces: config_surfaces_for_core(core),
    }
}

/// The startup mode that the input names, if any.
pub open spec fn input_startup_mode(input: FlavorResolutionInput) -> Option<StartupMode> {
    match input.startup_mode {
        Some(s) => StartupMode::from_norm(norm(s@)),
        None => None,
    }
}

pub open spec fn fallback_profile_spec(p: ServerFlavorProfile, input: FlavorResolutionInput) -> bool {
    let mode = input_startup_mode(input);
    let custom = mode == Some(StartupMode::Custom);
    let runtime = spec_runtime_family(opt_str_view(input.runtime_kind));
    profile_is(
        p,
        if custom {
            ServerFlavorKind::WrappedServer
        } else {
            ServerFlavorKind::Unknown
        },
        ServerEdition::Unknown,
        if custom {
            ServerRole::Wrapper
        } else {
            ServerRole::Unknown
        },
        if custom {
            "custom_server"@
        } else {
            "unknown_server"@
        },
        input_core(input),
        match mode {
            Some(m) => Some(m),
            None => Some(StartupMode::Jar),
        },
        match mode {
            Some(m) => seq![m],
            None => seq![StartupMode::Jar, StartupMode::Custom],
        },
        !input.has_pumpkin_config,
        false,
        true,
        seq![ServerExtensionKind::Plugin, ServerExtensionKind::Mod, ServerExtensionKind::Datapack],
        None,
        true,
        if runtime == RuntimeFamily::DockerItzg {
            ControlChannel::Rcon
        } else if custom {
            ControlChannel::WrapperConsole
        } else {
            ControlChannel::Stdin
        },
        special_configs_spec(input),
        surfaces_for_core(input_core(input)),
    )
}

fn fallback_profile(input: &FlavorResolutionInput) -> (p: ServerFlavorProfile)
    ensures
        fallback_profile_spec(p, *input),
{
    let startup_mode = match input.startup_mode {
        Some(s) => StartupMode::parse(s),
        None => None,
    };
    let runtime = runtime_family(input.runtime_kind);
    let custom = match startup_mode {
        Some(StartupMode::Custom) => true,
        _ => false,
    };
    let preferred_control_channel = match runtime {
        RuntimeFamily::DockerItzg => ControlChannel::Rcon,
        RuntimeFamily::Local | RuntimeFamily::Other => {
            if custom {
                ControlChannel::WrapperConsole
            } else {
                ControlChannel::Stdin
            }
        },
    };
    let core = input_core_exec(input);
    ServerFlavorProfile {
        flavor_kind: if custom {
            ServerFlavorKind::WrappedServer
        } else {
            ServerFlavorKind::Unknown
        },
        edition: ServerEdition::Unknown,
        server_role: if custom {
            ServerRole::Wrapper
        } else {
            ServerRole::Unknown
        },
        display_key: if custom {
            "custom_server"
        } else {
            "unknown_server"
        },
        detected_core_key: key_str(core),
        default_startup_mode: match startup_mode {
            Some(m) => Some(m),
            None => Some(StartupMode::Jar),
        },
        preferred_candidate_modes: match startup_mode {
            Some(m) => one(m),
            None => vec![StartupMode::Jar, StartupMode::Custom],
        },
        requires_java: !input.has_pumpkin_config,
        supports_starter_install: false,
        supports_custom_wrapper: true,
        extension_kinds: vec![
            ServerExtensionKind::Plugin,
            ServerExtensionKind::Mod,
            ServerExtensionKind::Datapack,
        ],
        default_extension_kind: None,
        allow_manual_extension_switch: true,
        preferred_control_channel,
        special_config_kinds: special_configs(input),
        config_surfaces: config_surfaces_for_core(core),
    }
}

/// The profile that resolution gives for an input.
pub open spec fn resolved_profile(p: ServerFlavorProfile, input: FlavorResolutionInput) -> bool {
    match input.wrapper_kind {
        Some(wk) => wrapped_profile_spec(p, wk, input),
        None => {
            let c = input_core(input);
            match c {
                Some(CoreKey::Vanilla) => vanilla_like_profile_spec(p, c),
                Some(CoreKey::Paper) | Some(CoreKey::Folia) | Some(CoreKey::Spigot) | Some(
                    CoreKey::Purpur,
                ) | Some(CoreKey::Pufferfish) | Some(CoreKey::Leaves) | Some(CoreKey::Tuinity)
                | Some(CoreKey::Airplane) | Some(CoreKey::Glowstone) | Some(CoreKey::Bukkit) =>
                    bukkit_like_profile_spec(p, c),
                Some(CoreKey::Forge) | Some(CoreKey::Neoforge) => forge_like_profile_spec(p, c),
                Some(CoreKey::Fabric) | Some(CoreKey::Quilt) => fabric_like_profile_spec(p, c),
                Some(CoreKey::Sponge) | Some(CoreKey::Minestom) => embedded_java_profile_spec(p, c),
                Some(CoreKey::Velocity) | Some(CoreKey::Bungeecord) | Some(CoreKey::Waterfall)
                | Some(CoreKey::Lightfall) | Some(CoreKey::Travertine) | Some(CoreKey::Flamecord) =>
                    proxy_like_profile_spec(p, c),
                Some(CoreKey::Bds) => bedrock_dedicated_profile_spec(p, c),
                Some(CoreKey::Liteloaderbds) | Some(CoreKey::Levilamina) | Some(CoreKey::Bdsx) =>
                    bedrock_wrapped_profile_spec(p, c),
                Some(CoreKey::Allay) | Some(CoreKey::Nukkit) | Some(CoreKey::Powernukkitx) =>
                    bedrock_java_plugin_profile_spec(p, c),
                Some(CoreKey::Pocketmine) => bedrock_script_plugin_profile_spec(p, c),
                Some(CoreKey::Endstone) => bedrock_native_plugin_profile_spec(p, c),
                Some(CoreKey::Arclight) | Some(CoreKey::ArclightForge) | Some(
                    CoreKey::ArclightNeoforge,
                ) | Some(CoreKey::Mohist) | Some(CoreKey::Catserver) =>
                    mixed_extension_profile_spec(p, c),
                Some(CoreKey::Pumpkin) => native_executable_profile_spec(p, c, "pumpkin"@),
                Some(CoreKey::Cuberite) => native_executable_profile_spec(p, c, "cuberite"@),
                None => fallback_profile_spec(p, input),
            }
        },
    }
}

/// Resolves the flavor profile of a server.
pub fn resolve_server_flavor_profile(input: &FlavorResolutionInput) -> (p: ServerFlavorProfile)
    ensures
        resolved_profile(p, *input),
{
    if let Some(wrapper_kind) = input.wrapper_kind {
        return wrapped_profile(wrapper_kind, input);
    }
    let c = input_core_exec(input);
    match c {
        Some(CoreKey::Vanilla) => vanilla_like_profile(c),
        Some(CoreKey::Paper) | Some(CoreKey::Folia) | Some(CoreKey::Spigot) | Some(CoreKey::Purpur)
        | Some(CoreKey::Pufferfish) | Some(CoreKey::Leaves) | Some(CoreKey::Tuinity) | Some(
            CoreKey::Airplane,
        ) | Some(CoreKey::Glowstone) | Some(CoreKey::Bukkit) => bukkit_like_profile(c),
        Some(CoreKey::Forge) | Some(CoreKey::Neoforge) => forge_like_profile(c),
        Some(CoreKey::Fabric) | Some(CoreKey::Quilt) => fabric_like_profile(c),
        Some(CoreKey::Sponge) | Some(CoreKey::Minestom) => embedded_java_profile(c),
        Some(CoreKey::Velocity) | Some(CoreKey::Bungeecord) | Some(CoreKey::Waterfall) | Some(
            CoreKey::Lightfall,
        ) | Some(CoreKey::Travertine) | Some(CoreKey::Flamecord) => proxy_like_profile(c),
        Some(CoreKey::Bds) => bedrock_dedicated_profile(c),
        Some(CoreKey::Liteloaderbds) | Some(CoreKey::Levilamina) | Some(CoreKey::Bdsx) =>
            bedrock_wrapped_profile(c),
        Some(CoreKey::Allay) | Some(CoreKey::Nukkit) | Some(CoreKey::Powernukkitx) =>
            bedrock_java_plugin_profile(c),
        Some(CoreKey::Pocketmine) => bedrock_script_plugin_profile(c),
        Some(CoreKey::Endstone) => bedrock_native_plugin_profile(c),
        Some(CoreKey::Arclight) | Some(CoreKey::ArclightForge) | Some(CoreKey::ArclightNeoforge)
        | Some(CoreKey::Mohist) | Some(CoreKey::Catserver) => mixed_extension_profile(c),
        Some(CoreKey::Pumpkin) => pumpkin_profile(),
        Some(CoreKey::Cuberite) => native_executable_profile(Some(CoreKey::Cuberite), "cuberite"),
        None => fallback_profile(input),
    }
}

/// Resolves a profile from its separate parts.
pub fn resolve_profile_from_parts(
    core_key: Option<&str>,
    runtime_kind: Option<&str>,
    startup_mode: Option<&str>,
    wrapper_kind: Option<WrapperKind>,
    has_pumpkin_config: bool,
) -> (p: ServerFlavorProfile)
    ensures
        resolved_profile(
            p,
            FlavorResolutionInput {
                core_key,
                runtime_kind,
                startup_mode,
                wrapper_kind,
                has_pumpkin_config,
            },
        ),
{
    resolve_server_flavor_profile(
        &FlavorResolutionInput { core_key, runtime_kind, startup_mode, wrapper_kind, has_pumpkin_config },
    )
}

/// What an unwrapped server of each core family runs as and installs: its flavor, whether it
/// needs Java, the extension kinds it takes in order, and the kind it installs by default.
/// Vanilla takes datapacks; Bukkit's forks and the proxies take plugins; Forge and Fabric
/// take mods; the hybrids take plugins first, then mods; the native cores take datapacks and
/// need no Java; of the Bedrock cores, the dedicated server takes add-ons and the others
/// plugins, and only the Java-based ones need Java.
pub proof fn lemma_unwrapped_profile_by_family(p: ServerFlavorProfile, input: FlavorResolutionInput)
    requires
        input.wrapper_kind is None,
        resolved_profile(p, input),
    ensures
        family_of(input_core(input)) == CoreFamily::VanillaLike ==> {
            &&& p.flavor_kind == ServerFlavorKind::VanillaLike
            &&& p.requires_java
            &&& p.extension_kinds@ == seq![ServerExtensionKind::Datapack]
            &&& p.default_extension_kind == Some(ServerExtensionKind::Datapack)
        },
        family_of(input_core(input)) == CoreFamily::BukkitLike ==> {
            &&& p.flavor_kind == ServerFlavorKind::BukkitLike
            &&& p.requires_java
            &&& p.extension_kinds@ == seq![ServerExtensionKind::Plugin, ServerExtensionKind::Datapack]
            &&& p.default_extension_kind == Some(ServerExtensionKind::Plugin)
        },
        family_of(input_core(input)) == CoreFamily::ForgeLike ==> {
            &&& p.flavor_kind == ServerFlavorKind::ForgeLike
            &&& p.requires_java
            &&& p.extension_kinds@ == seq![ServerExtensionKind::Mod, ServerExtensionKind::Datapack]
            &&& p.default_extension_kind == Some(ServerExtensionKind::Mod)
        },
        family_of(input_core(input)) == CoreFamily::FabricLike ==> {
            &&& p.flavor_kind == ServerFlavorKind::FabricLike
            &&& p.requires_java
            &&& p.extension_kinds@ == seq![ServerExtensionKind::Mod, ServerExtensionKind::Datapack]
            &&& p.default_extension_kind == Some(ServerExtensionKind::Mod)
        },
        family_of(input_core(input)) == CoreFamily::ProxyLike ==> {
            &&& p.flavor_kind == ServerFlavorKind::ProxyLike
            &&& p.requires_java
            &&& p.extension_kinds@ == seq![ServerExtensionKind::Plugin]
            &&& p.default_extension_kind == Some(ServerExtensionKind::Plugin)
        },
        family_of(input_core(input)) == CoreFamily::MixedExtension ==> {
            &&& p.flavor_kind == ServerFlavorKind::ForgeLike
            &&& p.requires_java
            &&& p.extension_kinds@ == seq![ServerExtensionKind::Plugin, ServerExtensionKind::Mod, ServerExtensionKind::Datapack]
            &&& p.default_extension_kind == Some(ServerExtensionKind::Plugin)
        },
        family_of(input_core(input)) == CoreFamily::NativeExecutable ==> {
            &&& p.flavor_kind == ServerFlavorKind::NativeExecutable
            &&& !p.requires_java
            &&& p.extension_kinds@ == seq![ServerExtensionKind::Datapack]
            &&& p.default_extension_kind == Some(ServerExtensionKind::Datapack)
        },
        family_of(input_core(input)) == CoreFamily::BedrockLike ==> {
            &&& p.flavor_kind == ServerFlavorKind::BedrockLike
            &&& p.requires_java == (input_core(input) == Some(CoreKey::Allay) || input_core(input) == Some(
                CoreKey::Nukkit,
            ) || input_core(input) == Some(CoreKey::Powernukkitx))
            &&& p.default_extension_kind == if input_core(input) == Some(CoreKey::Bds) {
                Some(ServerExtensionKind::Addon)
            } else {
                Some(ServerExtensionKind::Plugin)
            }
        },
{
}

/// An unwrapped server of a known core is controlled through its console, reports its own
/// core key, is a Bedrock server exactly when its core is of the Bedrock family and a proxy
/// exactly when its core is a proxy; only proxies take no custom wrapper; Forge-family
/// servers start through the installer's starter, and vanilla, Bukkit-family, Fabric-family
/// and proxy servers start from their jar.
pub proof fn lemma_unwrapped_known_core_profile(p: ServerFlavorProfile, input: FlavorResolutionInput, k: CoreKey)
    requires
        input.wrapper_kind is None,
        input_core(input) == Some(k),
        resolved_profile(p, input),
    ensures
        p.preferred_control_channel == ControlChannel::Stdin,
        opt_str_view(p.detected_core_key) == Some(k.name()),
        (p.edition == ServerEdition::Bedrock) <==> family_of(Some(k)) == CoreFamily::BedrockLike,
        (p.server_role == ServerRole::Proxy) <==> family_of(Some(k)) == CoreFamily::ProxyLike,
        p.supports_custom_wrapper <==> family_of(Some(k)) != CoreFamily::ProxyLike,
        family_of(Some(k)) == CoreFamily::ForgeLike ==> p.default_startup_mode == Some(StartupMode::Starter)
            && p.supports_starter_install,
        (family_of(Some(k)) == CoreFamily::VanillaLike || family_of(Some(k)) == CoreFamily::BukkitLike
            || family_of(Some(k)) == CoreFamily::FabricLike || family_of(Some(k)) == CoreFamily::ProxyLike)
            ==> p.default_startup_mode == Some(StartupMode::Jar),
{
}

/// A wrapper hint always resolves to a wrapped server, controlled through the wrapper's
/// console, whatever the core.
pub proof fn lemma_wrapper_resolves_to_wrapped(p: ServerFlavorProfile, input: FlavorResolutionInput)
    requires
        input.wrapper_kind is Some,
        resolved_profile(p, input),
    ensures
        p.flavor_kind == ServerFlavorKind::WrappedServer,
        p.server_role == ServerRole::Wrapper,
        p.preferred_control_channel == ControlChannel::WrapperConsole,
        p.default_startup_mode == Some(StartupMode::Custom),
{
}

/// Without a wrapper, the flavor of a resolved profile follows the family of its core: each
/// family resolves to its own kind of flavor, mixed plugin-and-mod cores resolving as
/// Forge-like, and Bedrock families to the Bedrock edition.
pub proof fn lemma_family_matches_flavor(p: ServerFlavorProfile, input: FlavorResolutionInput)
    requires
        input.wrapper_kind is None,
        resolved_profile(p, input),
    ensures
        family_of(input_core(input)) == CoreFamily::VanillaLike ==> p.flavor_kind == ServerFlavorKind::VanillaLike,
        family_of(input_core(input)) == CoreFamily::BukkitLike ==> p.flavor_kind == ServerFlavorKind::BukkitLike,
        family_of(input_core(input)) == CoreFamily::ForgeLike ==> p.flavor_kind == ServerFlavorKind::ForgeLike,
        family_of(input_core(input)) == CoreFamily::FabricLike ==> p.flavor_kind == ServerFlavorKind::FabricLike,
        family_of(input_core(input)) == CoreFamily::ProxyLike ==> p.flavor_kind == ServerFlavorKind::ProxyLike
            && p.server_role == ServerRole::Proxy,
        family_of(input_core(input)) == CoreFamily::BedrockLike ==> p.flavor_kind == ServerFlavorKind::BedrockLike
            && p.edition == ServerEdition::Bedrock,
        family_of(input_core(input)) == CoreFamily::NativeExecutable ==> p.flavor_kind
            == ServerFlavorKind::NativeExecutable,
        family_of(input_core(input)) == CoreFamily::MixedExtension ==> p.flavor_kind == ServerFlavorKind::ForgeLike,
{
}

/// Every resolved profile is consistent: it has a default startup mode, which is one of its
/// preferred modes; its default extension kind, when it has one, is one of its extension
/// kinds; it is a wrapper exactly when its flavor is a wrapped server, and a proxy exactly when
/// its flavor is proxy-like; and a wrapper hint gives a wrapped server started by a custom
/// command.
pub proof fn lemma_resolved_profile_consistent(p: ServerFlavorProfile, input: FlavorResolutionInput)
    requires
        resolved_profile(p, input),
    ensures
        p.default_startup_mode matches Some(m) && p.preferred_candidate_modes@.contains(m),
        p.default_extension_kind matches Some(k) ==> p.extension_kinds@.contains(k),
        (p.server_role == ServerRole::Wrapper) == (p.flavor_kind == ServerFlavorKind::WrappedServer),
        (p.server_role == ServerRole::Proxy) == (p.flavor_kind == ServerFlavorKind::ProxyLike),
        input.wrapper_kind is Some ==> p.flavor_kind == ServerFlavorKind::WrappedServer
            && p.default_startup_mode == Some(StartupMode::Custom),
{
    assert(p.preferred_candidate_modes@.len() > 0 && p.default_startup_mode == Some(p.preferred_candidate_modes@[0]));
    assert(p.default_extension_kind matches Some(k) ==> p.extension_kinds@.len() > 0 && k == p.extension_kinds@[0]);
}

} // verus!
