//! Local launch planning: from a startup mode, its resolved launch target and Java hints to the
//! launch spec that starts the server.
use vstd::prelude::*;
use crate::flavor::StartupMode;
use crate::flow::{
    copy_env, copy_strings, push_text, string_views, JavaCommandSpec, JavaEnvSpec, LocalLaunchEntry,
    LocalLaunchSpec, PortProbeKind, PortProbeSpec, ScriptLaunchSpec, StarterInstallSpec,
};
use crate::startup_scan::ResolvedLaunchTarget;
use crate::text::{
    append_str, chars_of, contains, contains_str, lower, lower_of, norm, owned, str_eq, string_from,
    trim, trim_chars,
};

verus! {

/// What a local launch is planned from. Paths are path texts.
#[derive(Debug, Clone, PartialEq, Eq)]
pub struct LocalLaunchPlanInput {
    pub server_id: String,
    pub server_root: String,
    pub startup_mode: String,
    pub configured_startup_path: Option<String>,
    pub custom_command: Option<String>,
    pub java_path: Option<String>,
    pub java_home: Option<String>,
    pub java_bin_dir: Option<String>,
    pub jvm_args: Vec<String>,
    pub add_nogui: bool,
    pub port: Option<u16>,
}

/// A planned launch: the resolved target and the spec that starts it.
#[derive(Debug, PartialEq, Eq)]
pub struct LocalLaunchPlan {
    pub resolution: ResolvedLaunchTarget,
    pub spec: LocalLaunchSpec,
}

pub open spec fn opt_text(s: Option<String>) -> Option<Seq<char>> {
    match s {
        Some(s) => Some(s@),
        None => None,
    }
}

/// The startup mode that a mode text names, or the message that it names none.
pub fn parse_startup_mode(value: &str) -> (r: Result<StartupMode, String>)
    ensures
        match StartupMode::from_norm(norm(value@)) {
            Some(m) => r == Ok::<StartupMode, String>(m),
            None => r matches Err(e) && e@ == "Unsupported startup mode: "@ + value@,
        },
{
    match StartupMode::parse(value) {
        Some(m) => Ok(m),
        None => {
            let mut v = chars_of("Unsupported startup mode: ");
            append_str(&mut v, value);
            Err(string_from(v.as_slice()))
        },
    }
}

/// The Java environment is known when both its home and its binary directory are.
pub open spec fn java_env_is(e: Option<JavaEnvSpec>, java_home: Option<String>, java_bin_dir: Option<String>) -> bool {
    match (java_home, java_bin_dir) {
        (Some(h), Some(b)) => e matches Some(x) && x.java_home@ == h@ && x.java_bin_dir@ == b@,
        _ => e is None,
    }
}

pub fn build_java_env(java_home: Option<String>, java_bin_dir: Option<String>) -> (r: Option<JavaEnvSpec>)
    ensures
        java_env_is(r, java_home, java_bin_dir),
{
    match (java_home, java_bin_dir) {
        (Some(h), Some(b)) => Some(JavaEnvSpec { java_home: h, java_bin_dir: b }),
        _ => None,
    }
}

/// A Java command is known when the Java path is.
pub fn build_java_command_spec(
    java_path: Option<String>,
    java_env: Option<JavaEnvSpec>,
    jvm_args: Vec<String>,
    add_nogui: bool,
) -> (r: Option<JavaCommandSpec>)
    ensures
        match java_path {
            Some(p) => r matches Some(j) && j.java_path@ == p@ && j.java_env == java_env && j.jvm_args
                == jvm_args && j.add_nogui == add_nogui,
            None => r is None,
        },
{
    match java_path {
        Some(java_path) => Some(JavaCommandSpec { java_path, java_env, jvm_args, add_nogui }),
        None => None,
    }
}

/// The core that a starter jar path hints at, by the words it holds in any ASCII case.
pub open spec fn starter_path_core(path: Seq<char>) -> Seq<char> {
    let l = lower(path);
    if contains(l, "arclight"@) && contains(l, "neoforge"@) {
        "arclight-neoforge"@
    } else if contains(l, "arclight"@) && contains(l, "forge"@) {
        "arclight-forge"@
    } else if contains(l, "neoforge"@) {
        "neoforge"@
    } else if contains(l, "catserver"@) {
        "catserver"@
    } else if contains(l, "mohist"@) {
        "mohist"@
    } else if contains(l, "forge"@) {
        "forge"@
    } else {
        "unknown"@
    }
}

pub fn detect_core_key_from_path(path: &str) -> (r: String)
    ensures
        r@ == starter_path_core(path@),
{
    let l = lower_of(path);
    let s = l.as_slice();
    if contains_str(s, "arclight") && contains_str(s, "neoforge") {
        owned("arclight-neoforge")
    } else if contains_str(s, "arclight") && contains_str(s, "forge") {
        owned("arclight-forge")
    } else if contains_str(s, "neoforge") {
        owned("neoforge")
    } else if contains_str(s, "catserver") {
        owned("catserver")
    } else if contains_str(s, "mohist") {
        owned("mohist")
    } else if contains_str(s, "forge") {
        owned("forge")
    } else {
        owned("unknown")
    }
}

/// The core of a starter install: that of the preferred jar, else of the configured path,
/// unless the path hints at none.
pub open spec fn starter_core(preferred: Option<Seq<char>>, configured: Option<Seq<char>>) -> Option<Seq<char>> {
    let path = match preferred {
        Some(p) => Some(p),
        None => configured,
    };
    match path {
        Some(p) => if starter_path_core(p) == "unknown"@ {
            None
        } else {
            Some(starter_path_core(p))
        },
        None => None,
    }
}

pub open spec fn opt_str(s: Option<&str>) -> Option<Seq<char>> {
    match s {
        Some(s) => Some(s@),
        None => None,
    }
}

pub fn infer_starter_core_key(resolution: &ResolvedLaunchTarget, configured_startup_path: Option<&str>) -> (r: Option<
    String,
>)
    ensures
        opt_text(r) == starter_core(opt_text(resolution.preferred_jar_path), opt_str(configured_startup_path)),
{
    let key = match &resolution.preferred_jar_path {
        Some(p) => detect_core_key_from_path(p.as_str()),
        None => match configured_startup_path {
            Some(c) => detect_core_key_from_path(c),
            None => return None,
        },
    };
    if str_eq(key.as_str(), "unknown") {
        None
    } else {
        Some(key)
    }
}

/// The arguments that install a server with its starter jar: NeoForge-like cores ask for the
/// server starter too, Forge-like cores spell the flag `--installServer`.
pub open spec fn install_args(core_key: Option<Seq<char>>) -> Seq<Seq<char>> {
    match core_key {
        Some(k) => if k == "neoforge"@ || k == "arclight-neoforge"@ {
            seq!["--install-server"@, "."@, "--server-starter"@]
        } else if k == "forge"@ || k == "arclight-forge"@ || k == "catserver"@ || k == "mohist"@ {
            seq!["--installServer"@, "."@]
        } else {
            seq!["--install-server"@, "."@]
        },
        None => seq!["--install-server"@, "."@],
    }
}

pub fn starter_install_args(core_key: Option<&str>) -> (r: Vec<String>)
    ensures
        string_views(r@) == install_args(opt_str(core_key)),
{
    let mut v: Vec<String> = Vec::new();
    let (neo, forge) = match core_key {
        Some(k) => (str_eq(k, "neoforge") || str_eq(k, "arclight-neoforge"), str_eq(k, "forge") || str_eq(
            k,
            "arclight-forge",
        ) || str_eq(k, "catserver") || str_eq(k, "mohist")),
        None => (false, false),
    };
    if neo {
        push_text(&mut v, "--install-server");
        push_text(&mut v, ".");
        push_text(&mut v, "--server-starter");
        assert(string_views(v@) =~= seq!["--install-server"@, "."@, "--server-starter"@]);
    } else if forge {
        push_text(&mut v, "--installServer");
        push_text(&mut v, ".");
        assert(string_views(v@) =~= seq!["--installServer"@, "."@]);
    } else {
        push_text(&mut v, "--install-server");
        push_text(&mut v, ".");
        assert(string_views(v@) =~= seq!["--install-server"@, "."@]);
    }
    v
}

/// The jar that a jar or starter launch starts: the preferred jar, else the configured path.
pub open spec fn launch_jar(input: LocalLaunchPlanInput, resolution: ResolvedLaunchTarget) -> Option<Seq<char>> {
    match opt_text(resolution.preferred_jar_path) {
        Some(p) => Some(p),
        None => opt_text(input.configured_startup_path),
    }
}

/// The Java command of a plan uses the input's Java path, environment, arguments and `nogui`.
pub open spec fn java_is(j: JavaCommandSpec, input: LocalLaunchPlanInput) -> bool {
    &&& opt_text(input.java_path) == Some(j.java_path@)
    &&& java_env_is(j.java_env, input.java_home, input.java_bin_dir)
    &&& string_views(j.jvm_args@) == string_views(input.jvm_args@)
    &&& j.add_nogui == input.add_nogui
}

/// `nogui` as a trailing argument when asked for.
pub open spec fn nogui_args(add_nogui: bool) -> Seq<Seq<char>> {
    if add_nogui {
        seq!["nogui"@]
    } else {
        seq![]
    }
}

/// The launch entry that a mode calls for, or the message of what is missing.
pub open spec fn entry_plan_is(
    r: Result<LocalLaunchEntry, String>,
    mode: StartupMode,
    input: LocalLaunchPlanInput,
    resolution: ResolvedLaunchTarget,
) -> bool {
    match mode {
        StartupMode::Jar => match launch_jar(input, resolution) {
            None => r matches Err(e) && e@ == "Missing jar path for jar startup mode"@,
            Some(p) => if input.java_path is None {
                r matches Err(e) && e@ == "Java path is required for jar startup mode"@
            } else {
                r matches Ok(LocalLaunchEntry::DirectJar { jar_path, java }) && jar_path@ == p && java_is(
                    java,
                    input,
                )
            },
        },
        StartupMode::Starter => match launch_jar(input, resolution) {
            None => r matches Err(e) && e@ == "Missing installer jar path for starter startup mode"@,
            Some(p) => if input.java_path is None {
                r matches Err(e) && e@ == "Java path is required for starter startup mode"@
            } else {
                r matches Ok(LocalLaunchEntry::StarterInstall(st)) && st.installer_jar@ == p && java_is(
                    st.java,
                    input,
                ) && string_views(st.install_args@) == install_args(
                    starter_core(opt_text(resolution.preferred_jar_path), opt_text(input.configured_startup_path)),
                ) && (*st.followup matches LocalLaunchEntry::DirectJar { jar_path, java } && jar_path@ == p
                    && java_is(java, input))
            },
        },
        StartupMode::Bat | StartupMode::Sh | StartupMode::Ps1 => match opt_text(input.configured_startup_path) {
            None => r matches Err(e) && e@ == "Missing script path for script startup mode"@,
            Some(p) => r matches Ok(LocalLaunchEntry::Script(sc)) && sc.startup_mode == mode
                && sc.script_path@ == p && java_env_is(sc.java_env, input.java_home, input.java_bin_dir)
                && sc.windows_codepage is None && sc.args_file is None && string_views(sc.trailing_args@)
                == nogui_args(input.add_nogui),
        },
        StartupMode::Custom => match opt_text(input.custom_command) {
            Some(c) => if trim(c).len() > 0 {
                r matches Ok(LocalLaunchEntry::CustomCommand { command, startup_mode, java_env }) && command@
                    == c && startup_mode == mode && java_env_is(java_env, input.java_home, input.java_bin_dir)
            } else {
                r matches Err(e) && e@ == "Missing custom command for custom startup mode"@
            },
            None => r matches Err(e) && e@ == "Missing custom command for custom startup mode"@,
        },
        StartupMode::Exe => match opt_text(input.configured_startup_path) {
            None => r matches Err(e) && e@ == "Missing executable path for exe startup mode"@,
            Some(p) => r matches Ok(LocalLaunchEntry::Executable { executable_path, args })
                && executable_path@ == p && string_views(args@) == nogui_args(input.add_nogui),
        },
    }
}

fn copy_java(j: &JavaCommandSpec) -> (r: JavaCommandSpec)
    ensures
        r.java_path == j.java_path,
        r.java_env == j.java_env,
        string_views(r.jvm_args@) == string_views(j.jvm_args@),
        r.add_nogui == j.add_nogui,
{
    JavaCommandSpec {
        java_path: j.java_path.clone(),
        java_env: copy_env(&j.java_env),
        jvm_args: copy_strings(&j.jvm_args),
        add_nogui: j.add_nogui,
    }
}

fn nogui_vec(add_nogui: bool) -> (r: Vec<String>)
    ensures
        string_views(r@) == nogui_args(add_nogui),
{
    let mut v: Vec<String> = Vec::new();
    if add_nogui {
        push_text(&mut v, "nogui");
        assert(string_views(v@) =~= seq!["nogui"@]);
    } else {
        assert(string_views(v@) =~= Seq::<Seq<char>>::empty());
    }
    v
}

fn copy_opt(s: &Option<String>) -> (r: Option<String>)
    ensures
        r == *s,
{
    match s {
        Some(s) => Some(s.clone()),
        None => None,
    }
}

/// The launch entry of a mode.
pub fn plan_launch_entry(mode: StartupMode, input: &LocalLaunchPlanInput, resolution: &ResolvedLaunchTarget) -> (r:
    Result<LocalLaunchEntry, String>)
    ensures
        entry_plan_is(r, mode, *input, *resolution),
{
    let java_env = build_java_env(copy_opt(&input.java_home), copy_opt(&input.java_bin_dir));
    let java_spec = build_java_command_spec(
        copy_opt(&input.java_path),
        copy_env(&java_env),
        copy_strings(&input.jvm_args),
        input.add_nogui,
    );
    let jar = match &resolution.preferred_jar_path {
        Some(p) => Some(p.clone()),
        None => copy_opt(&input.configured_startup_path),
    };
    match mode {
        StartupMode::Jar => {
            let jar_path = match jar {
                Some(p) => p,
                None => return Err(owned("Missing jar path for jar startup mode")),
            };
            let java = match java_spec {
                Some(j) => j,
                None => return Err(owned("Java path is required for jar startup mode")),
            };
            Ok(LocalLaunchEntry::DirectJar { jar_path, java })
        },
        StartupMode::Starter => {
            let installer_jar = match jar {
                Some(p) => p,
                None => return Err(owned("Missing installer jar path for starter startup mode")),
            };
            let java = match java_spec {
                Some(j) => j,
                None => return Err(owned("Java path is required for starter startup mode")),
            };
            let core = match &input.configured_startup_path {
                Some(c) => infer_starter_core_key(resolution, Some(c.as_str())),
                None => infer_starter_core_key(resolution, None),
            };
            let install_args = match &core {
                Some(k) => starter_install_args(Some(k.as_str())),
                None => starter_install_args(None),
            };
            let followup = LocalLaunchEntry::DirectJar { jar_path: installer_jar.clone(), java: copy_java(&java) };
            Ok(
                LocalLaunchEntry::StarterInstall(
                    StarterInstallSpec { installer_jar, java, install_args, followup: Box::new(followup) },
                ),
            )
        },
        StartupMode::Bat | StartupMode::Sh | StartupMode::Ps1 => {
            let script_path = match copy_opt(&input.configured_startup_path) {
                Some(p) => p,
                None => return Err(owned("Missing script path for script startup mode")),
            };
            Ok(
                LocalLaunchEntry::Script(
                    ScriptLaunchSpec {
                        startup_mode: mode,
                        script_path,
                        java_env,
                        windows_codepage: None,
                        args_file: None,
                        trailing_args: nogui_vec(input.add_nogui),
                    },
                ),
            )
        },
        StartupMode::Custom => {
            let command = match copy_opt(&input.custom_command) {
                Some(c) => {
                    let t = trim_chars(chars_of(c.as_str()).as_slice());
                    if t.len() == 0 {
                        return Err(owned("Missing custom command for custom startup mode"));
                    }
                    c
                },
                None => return Err(owned("Missing custom command for custom startup mode")),
            };
            Ok(LocalLaunchEntry::CustomCommand { command, startup_mode: mode, java_env })
        },
        StartupMode::Exe => {
            let executable_path = match copy_opt(&input.configured_startup_path) {
                Some(p) => p,
                None => return Err(owned("Missing executable path for exe startup mode")),
            };
            Ok(LocalLaunchEntry::Executable { executable_path, args: nogui_vec(input.add_nogui) })
        },
    }
}

/// The launch plan once the launch target is resolved: the mode that the resolution names, the
/// entry it calls for, and a TCP readiness probe when a port is given.
pub fn plan_launch_from_resolution(input: LocalLaunchPlanInput, resolution: ResolvedLaunchTarget) -> (r: Result<
    LocalLaunchPlan,
    String,
>)
    ensures
        match StartupMode::from_norm(norm(resolution.startup_mode@)) {
            None => r matches Err(e) && e@ == "Unsupported startup mode: "@ + resolution.startup_mode@,
            Some(mode) => {
                &&& r is Ok <==> exists|e: LocalLaunchEntry| entry_plan_is(Ok(e), mode, input, resolution)
                &&& r matches Ok(plan) ==> {
                    &&& entry_plan_is(Ok(plan.spec.entry), mode, input, resolution)
                    &&& plan.resolution == resolution
                    &&& plan.spec.server_id@ == input.server_id@
                    &&& plan.spec.working_dir@ == input.server_root@
                    &&& plan.spec.port_probe == match input.port {
                        Some(p) => Some(PortProbeSpec { port: p, kind: PortProbeKind::TcpListening }),
                        None => None,
                    }
                }
                &&& r matches Err(m) ==> entry_plan_is(Err(m), mode, input, resolution)
            },
        },
{
    let mode = match parse_startup_mode(resolution.startup_mode.as_str()) {
        Ok(m) => m,
        Err(e) => return Err(e),
    };
    let entry = match plan_launch_entry(mode, &input, &resolution) {
        Ok(e) => e,
        Err(m) => {
            proof {
                assert(forall|e: LocalLaunchEntry| !entry_plan_is(Ok(e), mode, input, resolution));
            }
            return Err(m);
        },
    };
    let spec = LocalLaunchSpec::new(input.server_id.as_str(), input.server_root.as_str(), entry);
    let spec = match input.port {
        Some(port) => spec.with_port_probe(PortProbeSpec { port, kind: PortProbeKind::TcpListening }),
        None => spec,
    };
    Ok(LocalLaunchPlan { resolution, spec })
}

/// A planned launch starts in the mode that was asked for: the entry's startup mode is the
/// mode that the resolution names.
pub proof fn lemma_planned_entry_has_mode(
    e: LocalLaunchEntry,
    mode: StartupMode,
    input: LocalLaunchPlanInput,
    resolution: ResolvedLaunchTarget,
)
    requires
        entry_plan_is(Ok(e), mode, input, resolution),
    ensures
        crate::flow::entry_mode(e) == mode,
{
}

/// Jar and starter launches always carry a Java command, and starter installs follow up with a
/// direct launch of the installer jar itself.
pub proof fn lemma_java_modes_need_java(
    r: Result<LocalLaunchEntry, String>,
    mode: StartupMode,
    input: LocalLaunchPlanInput,
    resolution: ResolvedLaunchTarget,
)
    requires
        entry_plan_is(r, mode, input, resolution),
        mode == StartupMode::Jar || mode == StartupMode::Starter,
        r is Ok,
    ensures
        input.java_path is Some,
        launch_jar(input, resolution) is Some,
{
}

} // verus!
