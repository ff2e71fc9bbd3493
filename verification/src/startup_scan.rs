//! Startup candidate scanning: the decisions over file names, scripts and manifests.
use vstd::prelude::*;
use crate::paths::{
    extension, extension_exec, file_name, file_name_exec, file_name_of, join, join_components,
    join_components_exec, join_exec, parent_is, parent_is_exec, slashes, slashes_exec, strip_prefix,
    strip_prefix_exec,
};
use crate::taxonomy::{core_key_of, spec_core_key, CoreKey};
use crate::text::{
    append_chars, append_str, chars_of, contains, contains_str, ends_with, ends_with_str, eq_str,
    eq_ignore_case, lower, lower_chars, lower_of, norm, norm_chars, owned, starts_with,
    starts_with_str, str_eq, string_from, sub_vec, trim, trim_chars, trim_end, trim_start, views,
    seq_lt, seq_lt_exec, lemma_literal_norm, lines, lines_of, trimmed_chars, find_char, find_char_exec, trim_start_chars, lemma_seq_lt_irrefl, lemma_seq_lt_trans, lemma_seq_lt_total, lemma_seq_lt_asym,
};

verus! {

#[derive(Debug, Clone, Copy, PartialEq, Eq, Structural)]
pub enum StartupSourceKind {
    Folder,
    Archive,
}

#[derive(Debug, Clone, Copy, PartialEq, Eq, PartialOrd, Ord, Structural)]
pub enum StartupScanConfidence {
    Explicit,
    Likely,
    Heuristic,
    Unknown,
}

#[derive(Debug, Clone, Copy, PartialEq, Eq, Structural)]
pub enum StartupCandidateKind {
    Jar,
    Starter,
    Script,
    NativeExecutable,
}

/// What a scan learned about the server core.
#[derive(Debug, Clone, PartialEq, Eq)]
pub struct ParsedStartupCoreInfo {
    pub detected_core_key: Option<String>,
    pub display_hint: String,
    pub main_class: Option<String>,
    pub startup_path: Option<String>,
    pub confidence: StartupScanConfidence,
}

/// One way to start the server that a scan found.
#[derive(Debug, Clone, PartialEq, Eq)]
pub struct StartupCandidateItem {
    pub id: String,
    pub mode: String,
    pub label: String,
    pub detail: String,
    pub path: String,
    pub resolved_target_path: Option<String>,
    pub recommended_rank: u8,
    pub kind: StartupCandidateKind,
}

#[derive(Debug, Clone, PartialEq, Eq)]
pub struct StartupScanResult {
    pub parsed_core: ParsedStartupCoreInfo,
    pub candidates: Vec<StartupCandidateItem>,
    pub core_key_options: Vec<String>,
    pub mc_version_options: Vec<String>,
    pub detected_mc_version: Option<String>,
    pub mc_version_detection_failed: bool,
}

#[derive(Debug, Clone, PartialEq, Eq)]
pub struct ResolvedLaunchTarget {
    pub startup_mode: String,
    pub launch_target: String,
    pub preferred_jar_path: Option<String>,
    pub startup_filename: String,
}

/// The canonical core keys that a scan offers to choose from.
pub const STARTUP_SCAN_CORE_KEY_OPTIONS: [&'static str; 38] = [
    "pumpkin",
    "paper",
    "purpur",
    "spigot",
    "bukkit",
    "folia",
    "leaves",
    "pufferfish",
    "sponge",
    "arclight_forge",
    "arclight_neoforge",
    "mohist",
    "catserver",
    "neoforge",
    "forge",
    "fabric",
    "quilt",
    "vanilla",
    "velocity",
    "bungeecord",
    "waterfall",
    "lightfall",
    "travertine",
    "flamecord",
    "tuinity",
    "airplane",
    "glowstone",
    "cuberite",
    "minestom",
    "bds",
    "liteloaderbds",
    "levilamina",
    "bdsx",
    "allay",
    "nukkit",
    "powernukkitx",
    "pocketmine",
    "endstone",
];

/// View of an optional string.
pub open spec fn opt_view(s: Option<String>) -> Option<Seq<char>> {
    match s {
        Some(s) => Some(s@),
        None => None,
    }
}

/// View of an optional string slice.
pub open spec fn opt_str(s: Option<&str>) -> Option<Seq<char>> {
    match s {
        Some(s) => Some(s@),
        None => None,
    }
}

/// The contents of an optional text, or the empty text.
pub open spec fn or_empty(s: Option<Seq<char>>) -> Seq<char> {
    match s {
        Some(s) => s,
        None => seq![],
    }
}

/// The startup mode name that a normalized mode text stands for (`jar` for unknown ones).
pub open spec fn mode_name(n: Seq<char>) -> Seq<char> {
    if n == "starter"@ {
        "starter"@
    } else if n == "custom"@ {
        "custom"@
    } else if n == "bat"@ || n == "cmd"@ {
        "bat"@
    } else if n == "sh"@ {
        "sh"@
    } else if n == "ps1"@ {
        "ps1"@
    } else {
        "jar"@
    }
}

/// The normalized startup mode of a mode text.
pub open spec fn spec_startup_mode(s: Seq<char>) -> Seq<char> {
    mode_name(norm(s))
}

fn mode_name_exec(n: &[char]) -> (r: &'static str)
    ensures
        r@ == mode_name(n@),
{
    if eq_str(n, "starter") {
        "starter"
    } else if eq_str(n, "custom") {
        "custom"
    } else if eq_str(n, "bat") || eq_str(n, "cmd") {
        "bat"
    } else if eq_str(n, "sh") {
        "sh"
    } else if eq_str(n, "ps1") {
        "ps1"
    } else {
        "jar"
    }
}

fn startup_mode_str(startup_mode: &str) -> (r: &'static str)
    ensures
        r@ == spec_startup_mode(startup_mode@),
{
    let n = norm_chars(startup_mode);
    mode_name_exec(n.as_slice())
}

/// Normalizes a startup mode text to one of `jar`, `starter`, `custom`, `bat`, `sh`, `ps1`.
pub fn normalize_startup_mode(startup_mode: &str) -> (r: String)
    ensures
        r@ == spec_startup_mode(startup_mode@),
{
    owned(startup_mode_str(startup_mode))
}

/// Whether a startup mode launches a jar directly.
pub open spec fn prefers_direct_jar(startup_mode: Seq<char>) -> bool {
    spec_startup_mode(startup_mode) == "jar"@ || spec_startup_mode(startup_mode) == "starter"@
}

pub fn startup_mode_prefers_direct_jar(startup_mode: &str) -> (r: bool)
    ensures
        r == prefers_direct_jar(startup_mode@),
{
    let m = startup_mode_str(startup_mode);
    str_eq(m, "jar") || str_eq(m, "starter")
}

pub open spec fn spec_launch_target(
    startup_mode: Seq<char>,
    preferred_jar_path: Option<Seq<char>>,
    configured_startup_path: Option<Seq<char>>,
    custom_command: Option<Seq<char>>,
    startup_filename: Seq<char>,
) -> Seq<char> {
    match preferred_jar_path {
        Some(p) => p,
        None => {
            let m = spec_startup_mode(startup_mode);
            if m == "jar"@ || m == "starter"@ {
                or_empty(configured_startup_path)
            } else if m == "custom"@ {
                or_empty(custom_command)
            } else {
                startup_filename
            }
        },
    }
}

fn owned_or_empty(s: Option<&str>) -> (r: String)
    ensures
        r@ == or_empty(opt_str(s)),
{
    match s {
        Some(s) => owned(s),
        None => String::new(),
    }
}

/// What a launch starts: the preferred jar, else the configured path, command or file name
/// that the mode calls for.
pub fn resolve_launch_target(
    startup_mode: &str,
    preferred_jar_path: Option<&str>,
    configured_startup_path: Option<&str>,
    custom_command: Option<&str>,
    startup_filename: &str,
) -> (r: String)
    ensures
        r@ == spec_launch_target(
            startup_mode@,
            opt_str(preferred_jar_path),
            opt_str(configured_startup_path),
            opt_str(custom_command),
            startup_filename@,
        ),
{
    if let Some(p) = preferred_jar_path {
        return owned(p);
    }
    let m = startup_mode_str(startup_mode);
    if str_eq(m, "jar") || str_eq(m, "starter") {
        owned_or_empty(configured_startup_path)
    } else if str_eq(m, "custom") {
        owned_or_empty(custom_command)
    } else {
        owned(startup_filename)
    }
}

pub open spec fn spec_direct_jar_launch_target(server_root: Seq<char>, jar_path: Seq<char>) -> Seq<char> {
    if parent_is(jar_path, server_root) {
        match file_name(jar_path) {
            Some(n) => n,
            None => jar_path,
        }
    } else {
        jar_path
    }
}

/// The jar path relative to the server root when the jar lies directly in it.
pub fn resolve_direct_jar_launch_target(server_root: &str, jar_path: &str) -> (r: String)
    ensures
        r@ == spec_direct_jar_launch_target(server_root@, jar_path@),
{
    let root = chars_of(server_root);
    let jar = chars_of(jar_path);
    if parent_is_exec(jar.as_slice(), root.as_slice()) {
        match file_name_exec(jar.as_slice()) {
            Some(n) => string_from(n.as_slice()),
            None => owned(jar_path),
        }
    } else {
        owned(jar_path)
    }
}

/// How a launch finds its jar.
#[derive(Debug, Clone, PartialEq, Eq)]
pub enum JarPathPreference {
    /// The mode does not launch a jar directly, or nothing is configured.
    NoPreference,
    /// The configured path names a jar.
    Configured(String),
    /// The configured path is no jar: the server root is searched for one.
    SearchServerRoot,
}

/// Whether a path names a jar (its extension is `jar` in any ASCII case).
pub open spec fn names_jar(p: Seq<char>) -> bool {
    match extension(p) {
        Some(e) => lower(e) == "jar"@,
        None => false,
    }
}

/// The preference that a mode and a configured path call for.
pub open spec fn preference_matches(
    r: JarPathPreference,
    startup_mode: Seq<char>,
    configured_startup_path: Option<Seq<char>>,
) -> bool {
    if !prefers_direct_jar(startup_mode) {
        r == JarPathPreference::NoPreference
    } else {
        match configured_startup_path {
            None => r == JarPathPreference::NoPreference,
            Some(c) => {
                let t = trim(c);
                if t.len() == 0 {
                    r == JarPathPreference::NoPreference
                } else if names_jar(t) {
                    r matches JarPathPreference::Configured(p) && p@ == t
                } else {
                    r == JarPathPreference::SearchServerRoot
                }
            },
        }
    }
}

fn names_jar_exec(p: &[char]) -> (r: bool)
    ensures
        r == names_jar(p@),
{
    match extension_exec(p) {
        Some(e) => {
            let l = lower_chars(e.as_slice());
            eq_str(l.as_slice(), "jar")
        },
        None => false,
    }
}

/// How the preferred jar path of a launch is found from its mode and configured path.
pub fn jar_path_preference(startup_mode: &str, configured_startup_path: Option<&str>) -> (r: JarPathPreference)
    ensures
        preference_matches(r, startup_mode@, opt_str(configured_startup_path)),
{
    if !startup_mode_prefers_direct_jar(startup_mode) {
        return JarPathPreference::NoPreference;
    }
    match configured_startup_path {
        None => JarPathPreference::NoPreference,
        Some(c) => {
            let v = chars_of(c);
            let t = trim_chars(v.as_slice());
            if t.len() == 0 {
                JarPathPreference::NoPreference
            } else if names_jar_exec(t.as_slice()) {
                JarPathPreference::Configured(string_from(t.as_slice()))
            } else {
                JarPathPreference::SearchServerRoot
            }
        },
    }
}

/// The file name of an optional path, or the empty text.
pub open spec fn startup_filename_of(configured_startup_path: Option<Seq<char>>) -> Seq<char> {
    match configured_startup_path {
        Some(p) => match file_name(p) {
            Some(n) => n,
            None => seq![],
        },
        None => seq![],
    }
}

/// The launch target of a mode once its preferred jar path is known.
pub fn resolve_launch_target_with_jar(
    startup_mode: &str,
    configured_startup_path: Option<&str>,
    custom_command: Option<&str>,
    preferred_jar_path: Option<String>,
) -> (r: ResolvedLaunchTarget)
    ensures
        r.startup_mode@ == spec_startup_mode(startup_mode@),
        r.startup_filename@ == startup_filename_of(opt_str(configured_startup_path)),
        opt_view(r.preferred_jar_path) == opt_view(preferred_jar_path),
        r.launch_target@ == spec_launch_target(
            spec_startup_mode(startup_mode@),
            opt_view(preferred_jar_path),
            opt_str(configured_startup_path),
            opt_str(custom_command),
            startup_filename_of(opt_str(configured_startup_path)),
        ),
{
    let normalized_mode = normalize_startup_mode(startup_mode);
    let startup_filename = match configured_startup_path {
        Some(p) => {
            let v = chars_of(p);
            match file_name_exec(v.as_slice()) {
                Some(n) => string_from(n.as_slice()),
                None => String::new(),
            }
        },
        None => String::new(),
    };
    let launch_target = match &preferred_jar_path {
        Some(p) => resolve_launch_target(
            normalized_mode.as_str(),
            Some(p.as_str()),
            configured_startup_path,
            custom_command,
            startup_filename.as_str(),
        ),
        None => resolve_launch_target(
            normalized_mode.as_str(),
            None,
            configured_startup_path,
            custom_command,
            startup_filename.as_str(),
        ),
    };
    proof {
        lemma_startup_mode_idempotent(startup_mode@);
    }
    ResolvedLaunchTarget {
        startup_mode: normalized_mode,
        launch_target,
        preferred_jar_path,
        startup_filename,
    }
}

/// State of the script-line tokenizer: finished tokens, the current token, the open quote.
pub type TokState = (Seq<Seq<char>>, Seq<char>, Option<char>);

pub open spec fn tok_step(st: TokState, ch: char) -> TokState {
    match st.2 {
        Some(q) => if ch == q {
            (st.0, st.1, None)
        } else {
            (st.0, st.1.push(ch), Some(q))
        },
        None => if ch == '"' || ch == '\'' {
            (st.0, st.1, Some(ch))
        } else if ch == ' ' || ch == '\t' {
            if st.1.len() > 0 {
                (st.0.push(st.1), seq![], None)
            } else {
                st
            }
        } else {
            (st.0, st.1.push(ch), None)
        },
    }
}

pub open spec fn tok_state(s: Seq<char>) -> TokState
    decreases s.len(),
{
    if s.len() == 0 {
        (seq![], seq![], None)
    } else {
        tok_step(tok_state(s.drop_last()), s.last())
    }
}

/// Tokens of a script line: split at blanks and tabs outside quotes, quotes removed.
pub open spec fn tokenize(s: Seq<char>) -> Seq<Seq<char>> {
    let st = tok_state(s);
    if st.1.len() > 0 {
        st.0.push(st.1)
    } else {
        st.0
    }
}

pub fn tokenize_script_line(line: &[char]) -> (r: Vec<Vec<char>>)
    ensures
        views(r@) == tokenize(line@),
{
    let mut tokens: Vec<Vec<char>> = Vec::new();
    let mut current: Vec<char> = Vec::new();
    let mut quote: Option<char> = None;
    let mut i: usize = 0;
    while i < line.len()
        invariant
            i <= line@.len(),
            tok_state(line@.subrange(0, i as int)) == (views(tokens@), current@, quote),
        decreases line@.len() - i,
    {
        let ch = line[i];
        let ghost prefix = line@.subrange(0, i + 1);
        assert(prefix.drop_last() == line@.subrange(0, i as int));
        assert(prefix.last() == ch);
        match quote {
            Some(q) => {
                if ch == q {
                    quote = None;
                } else {
                    current.push(ch);
                }
            },
            None => {
                if ch == '"' || ch == '\'' {
                    quote = Some(ch);
                } else if ch == ' ' || ch == '\t' {
                    if current.len() > 0 {
                        let ghost old_t = tokens@;
                        let done = current;
                        tokens.push(done);
                        current = Vec::new();
                        assert(views(tokens@) =~= views(old_t).push(done@));
                    }
                } else {
                    current.push(ch);
                }
            },
        }
        i = i + 1;
    }
    assert(line@.subrange(0, line@.len() as int) == line@);
    if current.len() > 0 {
        let ghost old_t = tokens@;
        let done = current;
        tokens.push(done);
        assert(views(tokens@) =~= views(old_t).push(done@));
    }
    tokens
}

/// The sequence with every leading `c` removed.
pub open spec fn strip_start(s: Seq<char>, c: char) -> Seq<char>
    decreases s.len(),
{
    if s.len() > 0 && s[0] == c {
        strip_start(s.drop_first(), c)
    } else {
        s
    }
}

/// The sequence with every trailing `c` removed.
pub open spec fn strip_end(s: Seq<char>, c: char) -> Seq<char>
    decreases s.len(),
{
    if s.len() > 0 && s.last() == c {
        strip_end(s.drop_last(), c)
    } else {
        s
    }
}

/// `str::trim_matches` with one character.
pub open spec fn strip_both(s: Seq<char>, c: char) -> Seq<char> {
    strip_end(strip_start(s, c), c)
}

/// A script token cleaned of blanks, quotes and trailing `,` and `;`.
pub open spec fn clean_token(s: Seq<char>) -> Seq<char> {
    strip_end(strip_end(strip_both(strip_both(trim(s), '"'), '\''), ','), ';')
}

pub fn strip_start_exec(s: &[char], c: char) -> (r: Vec<char>)
    ensures
        r@ == strip_start(s@, c),
{
    let n = s.len();
    let mut a: usize = 0;
    assert(s@.subrange(0, n as int) == s@);
    while a < n && s[a] == c
        invariant
            a <= n,
            n == s@.len(),
            strip_start(s@, c) == strip_start(s@.subrange(a as int, n as int), c),
        decreases n - a,
    {
        assert(s@.subrange(a as int, n as int).drop_first() == s@.subrange(a + 1, n as int));
        a = a + 1;
    }
    sub_vec(s, a, n)
}

pub fn strip_end_exec(s: &[char], c: char) -> (r: Vec<char>)
    ensures
        r@ == strip_end(s@, c),
{
    let n = s.len();
    let mut b: usize = n;
    assert(s@.subrange(0, n as int) == s@);
    while b > 0 && s[b - 1] == c
        invariant
            b <= n,
            n == s@.len(),
            strip_end(s@, c) == strip_end(s@.subrange(0, b as int), c),
        decreases b,
    {
        assert(s@.subrange(0, b as int).drop_last() == s@.subrange(0, b - 1));
        b = b - 1;
    }
    sub_vec(s, 0, b)
}

pub fn strip_both_exec(s: &[char], c: char) -> (r: Vec<char>)
    ensures
        r@ == strip_both(s@, c),
{
    let a = strip_start_exec(s, c);
    strip_end_exec(a.as_slice(), c)
}

pub fn clean_script_token(token: &[char]) -> (r: Vec<char>)
    ensures
        r@ == clean_token(token@),
{
    let t = trim_chars(token);
    let a = strip_both_exec(t.as_slice(), '"');
    let b = strip_both_exec(a.as_slice(), '\'');
    let c = strip_end_exec(b.as_slice(), ',');
    strip_end_exec(c.as_slice(), ';')
}

/// Whether a path ends with a script or executable extension, in any ASCII case.
pub open spec fn startup_like_extension(p: Seq<char>) -> bool {
    let l = lower(p);
    ends_with(l, ".bat"@) || ends_with(l, ".cmd"@) || ends_with(l, ".sh"@) || ends_with(l, ".ps1"@)
        || ends_with(l, ".exe"@)
}

pub fn has_startup_like_extension(path: &[char]) -> (r: bool)
    ensures
        r == startup_like_extension(path@),
{
    let l = lower_chars(path);
    let s = l.as_slice();
    ends_with_str(s, ".bat") || ends_with_str(s, ".cmd") || ends_with_str(s, ".sh")
        || ends_with_str(s, ".ps1") || ends_with_str(s, ".exe")
}

/// The jar that a `-jar` flag names in a token list.
pub open spec fn jar_target(tokens: Seq<Seq<char>>) -> Option<Seq<char>>
    decreases tokens.len(),
{
    if tokens.len() < 2 {
        None
    } else if lower(tokens[0]) == "-jar"@ {
        Some(clean_token(tokens[1]))
    } else {
        jar_target(tokens.drop_first())
    }
}

pub open spec fn spec_java_jar_target(line: Seq<char>) -> Option<Seq<char>> {
    jar_target(tokenize(line))
}

pub fn extract_java_jar_target(line: &[char]) -> (r: Option<Vec<char>>)
    ensures
        r matches Some(v) ==> spec_java_jar_target(line@) == Some(v@),
        r is None ==> spec_java_jar_target(line@) is None,
{
    let tokens = tokenize_script_line(line);
    let n = tokens.len();
    let mut i: usize = 0;
    assert(views(tokens@).subrange(0, n as int) == views(tokens@));
    while n >= 2 && i < n - 1
        invariant
            i <= n,
            n == tokens@.len(),
            views(tokens@) == tokenize(line@),
            jar_target(views(tokens@)) == jar_target(views(tokens@).subrange(i as int, n as int)),
        decreases n - i,
    {
        let ghost rest = views(tokens@).subrange(i as int, n as int);
        assert(rest[0] == tokens@[i as int]@);
        assert(rest[1] == tokens@[i + 1]@);
        if eq_ignore_case(tokens[i].as_slice(), "-jar") {
            proof {
                reveal_strlit("-jar");
                assert(lower("-jar"@) =~= "-jar"@);
                assert(lower(rest[0]) == "-jar"@);
                assert(rest.len() >= 2);
                assert(jar_target(rest) == Some(clean_token(rest[1])));
            }
            let tk = &tokens[i + 1];
            assert(tk@ == rest[1]);
            let c = clean_script_token(tk.as_slice());
            return Some(c);
        }
        proof {
            reveal_strlit("-jar");
            assert(lower("-jar"@) =~= "-jar"@);
        }
        assert(rest.drop_first() == views(tokens@).subrange(i + 1, n as int));
        i = i + 1;
    }
    None
}

/// Whether a first token launches another script or program.
pub open spec fn is_launcher_token(l: Seq<char>) -> bool {
    l == "&"@ || l == "call"@ || l == "start"@ || l == "./start.sh"@ || l == "./run.sh"@ || l == "sh"@
        || l == "bash"@ || l == "powershell"@
}

pub open spec fn spec_called_script_target(line: Seq<char>) -> Option<Seq<char>> {
    let tokens = tokenize(line);
    if tokens.len() == 0 {
        None
    } else if is_launcher_token(lower(tokens[0])) {
        if tokens.len() < 2 {
            None
        } else {
            Some(clean_token(tokens[1]))
        }
    } else {
        let cleaned = clean_token(tokens[0]);
        if startup_like_extension(cleaned) || ends_with(cleaned, ".jar"@) || contains(
            cleaned,
            "pumpkin"@,
        ) {
            Some(cleaned)
        } else {
            None
        }
    }
}

pub fn extract_called_script_target(line: &[char]) -> (r: Option<Vec<char>>)
    ensures
        r matches Some(v) ==> spec_called_script_target(line@) == Some(v@),
        r is None ==> spec_called_script_target(line@) is None,
{
    let tokens = tokenize_script_line(line);
    if tokens.len() == 0 {
        return None;
    }
    assert(views(tokens@)[0] == tokens@[0]@);
    let first = &tokens[0];
    let fl = lower_chars(first.as_slice());
    let f = fl.as_slice();
    if eq_str(f, "&") || eq_str(f, "call") || eq_str(f, "start") || eq_str(f, "./start.sh") || eq_str(
        f,
        "./run.sh",
    ) || eq_str(f, "sh") || eq_str(f, "bash") || eq_str(f, "powershell") {
        if tokens.len() < 2 {
            return None;
        }
        assert(views(tokens@)[1] == tokens@[1]@);
        return Some(clean_script_token(tokens[1].as_slice()));
    }
    let cleaned = clean_script_token(first.as_slice());
    if has_startup_like_extension(cleaned.as_slice()) || ends_with_str(cleaned.as_slice(), ".jar")
        || contains_str(cleaned.as_slice(), "pumpkin") {
        Some(cleaned)
    } else {
        None
    }
}

pub open spec fn spec_script_line_target(line: Seq<char>) -> Option<Seq<char>> {
    let t = trim(line);
    let l = lower(t);
    if t.len() == 0 {
        None
    } else if starts_with(l, "#"@) || starts_with(l, "rem "@) || starts_with(l, "::"@) {
        None
    } else {
        match spec_java_jar_target(t) {
            Some(j) => Some(j),
            None => spec_called_script_target(t),
        }
    }
}

/// The start target that one script line names, if any.
pub fn extract_target_from_script_line(line: &[char]) -> (r: Option<Vec<char>>)
    ensures
        r matches Some(v) ==> spec_script_line_target(line@) == Some(v@),
        r is None ==> spec_script_line_target(line@) is None,
{
    let t = trim_chars(line);
    if t.len() == 0 {
        return None;
    }
    let l = lower_chars(t.as_slice());
    if starts_with_str(l.as_slice(), "#") || starts_with_str(l.as_slice(), "rem ") || starts_with_str(
        l.as_slice(),
        "::",
    ) {
        return None;
    }
    match extract_java_jar_target(t.as_slice()) {
        Some(j) => Some(j),
        None => extract_called_script_target(t.as_slice()),
    }
}

pub open spec fn spec_script_detail(target: Option<Seq<char>>) -> Seq<char> {
    match target {
        Some(t) => "Script -> "@ + t,
        None => "Script"@,
    }
}

pub fn script_detail(target: Option<&str>) -> (r: String)
    ensures
        r@ == spec_script_detail(opt_str(target)),
{
    match target {
        Some(t) => {
            let mut v = chars_of("Script -> ");
            append_str(&mut v, t);
            string_from(v.as_slice())
        },
        None => owned("Script"),
    }
}

/// Normalizing a normalized startup mode changes nothing.
pub proof fn lemma_startup_mode_idempotent(s: Seq<char>)
    ensures
        spec_startup_mode(spec_startup_mode(s)) == spec_startup_mode(s),
{
    reveal_strlit("jar");
    reveal_strlit("starter");
    reveal_strlit("custom");
    reveal_strlit("bat");
    reveal_strlit("cmd");
    reveal_strlit("sh");
    reveal_strlit("ps1");
    let m = spec_startup_mode(s);
    lemma_literal_norm(m);
}

/// The display label of a core key (`allay` is shown as `AllayMC`); other keys are kept.
pub open spec fn core_label(k: Seq<char>) -> Seq<char> {
    if k == "allay"@ {
        "AllayMC"@
    } else if k == "airplane"@ {
        "Airplane"@
    } else if k == "arclight_forge"@ {
        "Arclight-Forge"@
    } else if k == "arclight_neoforge"@ {
        "Arclight-NeoForge"@
    } else if k == "bds"@ {
        "BDS"@
    } else if k == "bdsx"@ {
        "BDSX"@
    } else if k == "bungeecord"@ {
        "BungeeCord"@
    } else if k == "cuberite"@ {
        "Cuberite"@
    } else if k == "endstone"@ {
        "Endstone"@
    } else if k == "flamecord"@ {
        "FlameCord"@
    } else if k == "levilamina"@ {
        "LeviLamina"@
    } else if k == "liteloaderbds"@ {
        "LiteLoaderBDS"@
    } else if k == "minestom"@ {
        "Minestom"@
    } else if k == "neoforge"@ {
        "NeoForge"@
    } else if k == "pocketmine"@ {
        "PocketMine-MP"@
    } else if k == "powernukkitx"@ {
        "PowerNukkitX"@
    } else if k == "pumpkin"@ {
        "Pumpkin"@
    } else {
        k
    }
}

fn core_label_str(k: &str) -> (r: Option<&'static str>)
    ensures
        match r {
            Some(l) => core_label(k@) == l@,
            None => core_label(k@) == k@,
        },
{
    if str_eq(k, "allay") {
        Some("AllayMC")
    } else if str_eq(k, "airplane") {
        Some("Airplane")
    } else if str_eq(k, "arclight_forge") {
        Some("Arclight-Forge")
    } else if str_eq(k, "arclight_neoforge") {
        Some("Arclight-NeoForge")
    } else if str_eq(k, "bds") {
        Some("BDS")
    } else if str_eq(k, "bdsx") {
        Some("BDSX")
    } else if str_eq(k, "bungeecord") {
        Some("BungeeCord")
    } else if str_eq(k, "cuberite") {
        Some("Cuberite")
    } else if str_eq(k, "endstone") {
        Some("Endstone")
    } else if str_eq(k, "flamecord") {
        Some("FlameCord")
    } else if str_eq(k, "levilamina") {
        Some("LeviLamina")
    } else if str_eq(k, "liteloaderbds") {
        Some("LiteLoaderBDS")
    } else if str_eq(k, "minestom") {
        Some("Minestom")
    } else if str_eq(k, "neoforge") {
        Some("NeoForge")
    } else if str_eq(k, "pocketmine") {
        Some("PocketMine-MP")
    } else if str_eq(k, "powernukkitx") {
        Some("PowerNukkitX")
    } else if str_eq(k, "pumpkin") {
        Some("Pumpkin")
    } else {
        None
    }
}

/// The label under which a core key is shown.
pub fn format_core_label(core_key: &str) -> (r: String)
    ensures
        r@ == core_label(core_key@),
{
    match core_label_str(core_key) {
        Some(l) => owned(l),
        None => owned(core_key),
    }
}

/// The core that a lowercased file name hints at, by the words it contains (`unknown` if none).
pub open spec fn raw_hint(l: Seq<char>) -> Seq<char> {
    if contains(l, "arclight"@) && contains(l, "neoforge"@) {
        "arclight_neoforge"@
    } else if contains(l, "arclight"@) && contains(l, "forge"@) {
        "arclight_forge"@
    } else if contains(l, "neoforge"@) {
        "neoforge"@
    } else if contains(l, "forge"@) {
        "forge"@
    } else if contains(l, "paper"@) {
        "paper"@
    } else if contains(l, "folia"@) {
        "folia"@
    } else if contains(l, "purpur"@) {
        "purpur"@
    } else if contains(l, "pufferfish"@) {
        "pufferfish"@
    } else if contains(l, "leaves"@) || contains(l, "leaf"@) {
        "leaves"@
    } else if contains(l, "spigot"@) {
        "spigot"@
    } else if contains(l, "bukkit"@) || contains(l, "craftbukkit"@) {
        "bukkit"@
    } else if contains(l, "velocity"@) {
        "velocity"@
    } else if contains(l, "waterfall"@) {
        "waterfall"@
    } else if contains(l, "bungeecord"@) || contains(l, "bungee"@) {
        "bungeecord"@
    } else if contains(l, "fabric"@) {
        "fabric"@
    } else if contains(l, "quilt"@) {
        "quilt"@
    } else if contains(l, "mohist"@) {
        "mohist"@
    } else if contains(l, "catserver"@) {
        "catserver"@
    } else if contains(l, "vanilla"@) || contains(l, "minecraft_server"@) {
        "vanilla"@
    } else if contains(l, "allay"@) {
        "allay"@
    } else if contains(l, "powernukkitx"@) || contains(l, "powernukkit"@) {
        "powernukkitx"@
    } else if contains(l, "nukkit"@) {
        "nukkit"@
    } else if contains(l, "liteloader"@) && contains(l, "bds"@) {
        "liteloaderbds"@
    } else if contains(l, "levilamina"@) {
        "levilamina"@
    } else if contains(l, "bdsx"@) {
        "bdsx"@
    } else if contains(l, "bedrock"@) {
        "bds"@
    } else if contains(l, "pocketmine"@) {
        "pocketmine"@
    } else if contains(l, "endstone"@) {
        "endstone"@
    } else if contains(l, "cuberite"@) {
        "cuberite"@
    } else if contains(l, "minestom"@) {
        "minestom"@
    } else if contains(l, "sponge"@) {
        "sponge"@
    } else {
        "unknown"@
    }
}

#[verifier::rlimit(40)]
fn raw_hint_exec(l: &[char]) -> (r: &'static str)
    ensures
        r@ == raw_hint(l@),
{
    if contains_str(l, "arclight") && contains_str(l, "neoforge") {
        "arclight_neoforge"
    } else if contains_str(l, "arclight") && contains_str(l, "forge") {
        "arclight_forge"
    } else if contains_str(l, "neoforge") {
        "neoforge"
    } else if contains_str(l, "forge") {
        "forge"
    } else if contains_str(l, "paper") {
        "paper"
    } else if contains_str(l, "folia") {
        "folia"
    } else if contains_str(l, "purpur") {
        "purpur"
    } else if contains_str(l, "pufferfish") {
        "pufferfish"
    } else if contains_str(l, "leaves") || contains_str(l, "leaf") {
        "leaves"
    } else if contains_str(l, "spigot") {
        "spigot"
    } else if contains_str(l, "bukkit") || contains_str(l, "craftbukkit") {
        "bukkit"
    } else if contains_str(l, "velocity") {
        "velocity"
    } else if contains_str(l, "waterfall") {
        "waterfall"
    } else if contains_str(l, "bungeecord") || contains_str(l, "bungee") {
        "bungeecord"
    } else if contains_str(l, "fabric") {
        "fabric"
    } else if contains_str(l, "quilt") {
        "quilt"
    } else if contains_str(l, "mohist") {
        "mohist"
    } else if contains_str(l, "catserver") {
        "catserver"
    } else if contains_str(l, "vanilla") || contains_str(l, "minecraft_server") {
        "vanilla"
    } else if contains_str(l, "allay") {
        "allay"
    } else if contains_str(l, "powernukkitx") || contains_str(l, "powernukkit") {
        "powernukkitx"
    } else if contains_str(l, "nukkit") {
        "nukkit"
    } else if contains_str(l, "liteloader") && contains_str(l, "bds") {
        "liteloaderbds"
    } else if contains_str(l, "levilamina") {
        "levilamina"
    } else if contains_str(l, "bdsx") {
        "bdsx"
    } else if contains_str(l, "bedrock") {
        "bds"
    } else if contains_str(l, "pocketmine") {
        "pocketmine"
    } else if contains_str(l, "endstone") {
        "endstone"
    } else if contains_str(l, "cuberite") {
        "cuberite"
    } else if contains_str(l, "minestom") {
        "minestom"
    } else if contains_str(l, "sponge") {
        "sponge"
    } else {
        "unknown"
    }
}

/// The file name of a path, or the whole text when it has none.
pub open spec fn name_or_whole(p: Seq<char>) -> Seq<char> {
    match file_name(p) {
        Some(n) => n,
        None => p,
    }
}

/// The display hint of a file name: the canonical key of its raw hint, else the raw hint.
pub open spec fn display_hint(input: Seq<char>) -> Seq<char> {
    let raw = raw_hint(lower(name_or_whole(input)));
    match spec_core_key(raw) {
        Some(k) => k.name(),
        None => raw,
    }
}

/// The core that a file name hints at, as shown to the user.
pub fn detect_core_display_hint_from_filename(input: &str) -> (r: String)
    ensures
        r@ == display_hint(input@),
{
    let v = chars_of(input);
    let name = match file_name_exec(v.as_slice()) {
        Some(n) => n,
        None => v,
    };
    let l = lower_chars(name.as_slice());
    let raw = raw_hint_exec(l.as_slice());
    match core_key_of(raw) {
        Some(k) => owned(k.as_str()),
        None => owned(raw),
    }
}

/// The manifest main class prefix of the NeoForge server starter.
pub const STARTER_MAIN_CLASS_PREFIX: &'static str = "net.neoforged.serverstarterjar";

/// The manifest main class of the legacy Forge installer.
pub const FORGE_SIMPLE_INSTALLER_MAIN_CLASS: &'static str = "net.minecraftforge.installer.SimpleInstaller";

/// The core that a manifest main class names.
pub open spec fn main_class_core(m: Seq<char>) -> Option<Seq<char>> {
    if starts_with(m, STARTER_MAIN_CLASS_PREFIX@) {
        Some("neoforge"@)
    } else if m == "net.minecraft.server.MinecraftServer"@ || m == "net.minecraft.bundler.Main"@ {
        Some("vanilla"@)
    } else if m == "net.minecraft.client.Main"@ {
        None
    } else if m == "net.minecraftforge.installer.SimpleInstaller"@ {
        Some("forge"@)
    } else if m == "net.fabricmc.installer.Main"@ || m == "net.fabricmc.installer.ServerLauncher"@ {
        Some("fabric"@)
    } else if m == "io.izzel.arclight.server.Launcher"@ {
        Some("arclight_forge"@)
    } else if m == "catserver.server.CatServerLaunch"@ || m == "foxlaunch.FoxServerLauncher"@ {
        Some("catserver"@)
    } else if m == "org.bukkit.craftbukkit.Main"@ || m == "org.bukkit.craftbukkit.bootstrap.Main"@ {
        Some("bukkit"@)
    } else if m == "io.papermc.paperclip.Main"@ || m == "com.destroystokyo.paperclip.Paperclip"@ {
        Some("paper"@)
    } else if m == "org.leavesmc.leavesclip.Main"@ {
        Some("leaves"@)
    } else if m == "net.md_5.bungee.Bootstrap"@ {
        Some("lightfall"@)
    } else if m == "com.mohistmc.MohistMCStart"@ || m == "com.mohistmc.MohistMC"@ {
        Some("mohist"@)
    } else if m == "com.velocitypowered.proxy.Velocity"@ {
        Some("velocity"@)
    } else {
        None
    }
}

/// The core key that a manifest main class names.
#[verifier::rlimit(40)]
pub fn core_key_from_main_class(main_class: &str) -> (r: Option<&'static str>)
    ensures
        opt_str(r) == main_class_core(main_class@),
{
    let v = chars_of(main_class);
    if starts_with_str(v.as_slice(), STARTER_MAIN_CLASS_PREFIX) {
        Some("neoforge")
    } else if str_eq(main_class, "net.minecraft.server.MinecraftServer") || str_eq(main_class, "net.minecraft.bundler.Main") {
        Some("vanilla")
    } else if str_eq(main_class, "net.minecraft.client.Main") {
        None
    } else if str_eq(main_class, "net.minecraftforge.installer.SimpleInstaller") {
        Some("forge")
    } else if str_eq(main_class, "net.fabricmc.installer.Main") || str_eq(main_class, "net.fabricmc.installer.ServerLauncher") {
        Some("fabric")
    } else if str_eq(main_class, "io.izzel.arclight.server.Launcher") {
        Some("arclight_forge")
    } else if str_eq(main_class, "catserver.server.CatServerLaunch") || str_eq(main_class, "foxlaunch.FoxServerLauncher") {
        Some("catserver")
    } else if str_eq(main_class, "org.bukkit.craftbukkit.Main") || str_eq(main_class, "org.bukkit.craftbukkit.bootstrap.Main") {
        Some("bukkit")
    } else if str_eq(main_class, "io.papermc.paperclip.Main") || str_eq(main_class, "com.destroystokyo.paperclip.Paperclip") {
        Some("paper")
    } else if str_eq(main_class, "org.leavesmc.leavesclip.Main") {
        Some("leaves")
    } else if str_eq(main_class, "net.md_5.bungee.Bootstrap") {
        Some("lightfall")
    } else if str_eq(main_class, "com.mohistmc.MohistMCStart") || str_eq(main_class, "com.mohistmc.MohistMC") {
        Some("mohist")
    } else if str_eq(main_class, "com.velocitypowered.proxy.Velocity") {
        Some("velocity")
    } else {
        None
    }
}

/// The core key of a jar, from its file name and manifest main class. A main class wins,
/// except that a NeoForge file name keeps its key against a Forge main class.
pub open spec fn detect_core_key(jar_path: Seq<char>, main_class: Option<Seq<char>>) -> Option<Seq<char>> {
    let f = display_hint(jar_path);
    let m = match main_class {
        Some(c) => main_class_core(c),
        None => None,
    };
    match m {
        Some(k) => if (f == "neoforge"@ || f == "arclight_neoforge"@) && k == "forge"@ {
            Some(f)
        } else {
            Some(k)
        },
        None => if f != "unknown"@ {
            Some(f)
        } else {
            None
        },
    }
}

/// The core key of a jar, from its file name and manifest main class.
pub fn detect_core_key_from_filename_and_main_class(jar_path: &str, main_class: Option<&str>) -> (r: Option<String>)
    ensures
        opt_view(r) == detect_core_key(jar_path@, opt_str(main_class)),
{
    let f = detect_core_display_hint_from_filename(jar_path);
    let m = match main_class {
        Some(c) => core_key_from_main_class(c),
        None => None,
    };
    match m {
        Some(k) => {
            if (str_eq(f.as_str(), "neoforge") || str_eq(f.as_str(), "arclight_neoforge")) && str_eq(k, "forge") {
                Some(f)
            } else {
                Some(owned(k))
            }
        },
        None => {
            if str_eq(f.as_str(), "unknown") {
                None
            } else {
                Some(f)
            }
        },
    }
}

/// The abstract content of a [`ParsedStartupCoreInfo`].
pub struct CoreInfoView {
    pub key: Option<Seq<char>>,
    pub hint: Seq<char>,
    pub main_class: Option<Seq<char>>,
    pub startup_path: Option<Seq<char>>,
    pub confidence: StartupScanConfidence,
}

impl View for ParsedStartupCoreInfo {
    type V = CoreInfoView;

    open spec fn view(&self) -> CoreInfoView {
        CoreInfoView {
            key: opt_view(self.detected_core_key),
            hint: self.display_hint@,
            main_class: opt_view(self.main_class),
            startup_path: opt_view(self.startup_path),
            confidence: self.confidence,
        }
    }
}

/// What a scan reports when it learned nothing about the core.
pub open spec fn unknown_info() -> CoreInfoView {
    CoreInfoView {
        key: None,
        hint: "unknown"@,
        main_class: None,
        startup_path: None,
        confidence: StartupScanConfidence::Unknown,
    }
}

pub fn unknown_parsed_core_info() -> (r: ParsedStartupCoreInfo)
    ensures
        r@ == unknown_info(),
{
    ParsedStartupCoreInfo {
        detected_core_key: None,
        display_hint: owned("unknown"),
        main_class: None,
        startup_path: None,
        confidence: StartupScanConfidence::Unknown,
    }
}

/// What a jar tells of its core, given the main class of its manifest.
pub open spec fn jar_core_info(jar_path: Seq<char>, main_class: Option<Seq<char>>) -> CoreInfoView {
    let key = detect_core_key(jar_path, main_class);
    CoreInfoView {
        key,
        hint: display_hint(jar_path),
        main_class,
        startup_path: Some(jar_path),
        confidence: if key is Some && main_class is Some {
            StartupScanConfidence::Explicit
        } else if key is Some {
            StartupScanConfidence::Likely
        } else {
            StartupScanConfidence::Unknown
        },
    }
}

/// What a jar tells of its core, given the main class that its manifest names.
pub fn parse_startup_core_from_jar(jar_path: &str, main_class: Option<String>) -> (r: ParsedStartupCoreInfo)
    ensures
        r@ == jar_core_info(jar_path@, opt_view(main_class)),
{
    let display_hint = detect_core_display_hint_from_filename(jar_path);
    let detected_core_key = match &main_class {
        Some(m) => detect_core_key_from_filename_and_main_class(jar_path, Some(m.as_str())),
        None => detect_core_key_from_filename_and_main_class(jar_path, None),
    };
    let confidence = if detected_core_key.is_some() && main_class.is_some() {
        StartupScanConfidence::Explicit
    } else if detected_core_key.is_some() {
        StartupScanConfidence::Likely
    } else {
        StartupScanConfidence::Unknown
    };
    ParsedStartupCoreInfo {
        detected_core_key,
        display_hint,
        main_class,
        startup_path: Some(owned(jar_path)),
        confidence,
    }
}

/// The main class is that of the NeoForge server starter.
pub open spec fn starter_main_class(p: CoreInfoView) -> bool {
    match p.main_class {
        Some(m) => starts_with(m, STARTER_MAIN_CLASS_PREFIX@),
        None => false,
    }
}

/// The main class is that of the legacy Forge installer.
pub open spec fn installer_main_class(p: CoreInfoView) -> bool {
    p.main_class == Some(FORGE_SIMPLE_INSTALLER_MAIN_CLASS@)
}

pub fn is_starter_main_class(parsed: &ParsedStartupCoreInfo) -> (r: bool)
    ensures
        r == starter_main_class(parsed@),
{
    match &parsed.main_class {
        Some(m) => {
            let v = chars_of(m.as_str());
            starts_with_str(v.as_slice(), STARTER_MAIN_CLASS_PREFIX)
        },
        None => false,
    }
}

pub fn is_forge_like_installer_main_class(parsed: &ParsedStartupCoreInfo) -> (r: bool)
    ensures
        r == installer_main_class(parsed@),
{
    match &parsed.main_class {
        Some(m) => str_eq(m.as_str(), FORGE_SIMPLE_INSTALLER_MAIN_CLASS),
        None => false,
    }
}

/// A jar is started through a starter or installer rather than directly.
pub open spec fn starter_candidate(p: CoreInfoView) -> bool {
    starter_main_class(p) || installer_main_class(p)
}

pub fn is_starter_candidate(parsed: &ParsedStartupCoreInfo) -> (r: bool)
    ensures
        r == starter_candidate(parsed@),
{
    is_starter_main_class(parsed) || is_forge_like_installer_main_class(parsed)
}

/// The detail line of a candidate: the core label, then the main class if known.
pub open spec fn detail_of(p: CoreInfoView) -> Seq<char> {
    let label = core_label(
        match p.key {
            Some(k) => k,
            None => p.hint,
        },
    );
    match p.main_class {
        Some(m) => label + " \u{b7} "@ + m,
        None => label,
    }
}

pub fn startup_detail(parsed: &ParsedStartupCoreInfo) -> (r: String)
    ensures
        r@ == detail_of(parsed@),
{
    let label = match &parsed.detected_core_key {
        Some(k) => format_core_label(k.as_str()),
        None => format_core_label(parsed.display_hint.as_str()),
    };
    match &parsed.main_class {
        Some(m) => {
            let mut v = chars_of(label.as_str());
            append_str(&mut v, " \u{b7} ");
            append_str(&mut v, m.as_str());
            string_from(v.as_slice())
        },
        None => label,
    }
}

/// A lowercased jar file name holds a word that marks a server jar.
pub open spec fn indicative_jar_name(l: Seq<char>) -> bool {
    contains(l, "server"@)
        || contains(l, "forge"@)
        || contains(l, "fabric"@)
        || contains(l, "neoforge"@)
        || contains(l, "mohist"@)
        || contains(l, "paper"@)
        || contains(l, "spigot"@)
        || contains(l, "purpur"@)
        || contains(l, "bukkit"@)
        || contains(l, "catserver"@)
        || contains(l, "arclight"@)
        || contains(l, "velocity"@)
        || contains(l, "waterfall"@)
        || contains(l, "bungee"@)
        || contains(l, "folia"@)
        || contains(l, "pufferfish"@)
        || contains(l, "leaves"@)
        || contains(l, "quilt"@)
}

/// Rank of a jar file name in the search for the server jar: 0 for telling names, else 1.
pub open spec fn jar_rank(l: Seq<char>) -> u8 {
    if indicative_jar_name(l) {
        0
    } else {
        1
    }
}

#[verifier::rlimit(40)]
pub fn server_jar_candidate_rank(l: &[char]) -> (r: u8)
    ensures
        r == jar_rank(l@),
{
    if contains_str(l, "server")
        || contains_str(l, "forge")
        || contains_str(l, "fabric")
        || contains_str(l, "neoforge")
        || contains_str(l, "mohist")
        || contains_str(l, "paper")
        || contains_str(l, "spigot")
        || contains_str(l, "purpur")
        || contains_str(l, "bukkit")
        || contains_str(l, "catserver")
        || contains_str(l, "arclight")
        || contains_str(l, "velocity")
        || contains_str(l, "waterfall")
        || contains_str(l, "bungee")
        || contains_str(l, "folia")
        || contains_str(l, "pufferfish")
        || contains_str(l, "leaves")
        || contains_str(l, "quilt") {
        0
    } else {
        1
    }
}

/// The lowercased file name of a jar path (empty when it has none).
pub open spec fn jar_name(p: Seq<char>) -> Seq<char> {
    lower(
        match file_name(p) {
            Some(n) => n,
            None => seq![],
        },
    )
}

/// Jar `a` is preferred to jar `b`: lower rank, then lower file name.
pub open spec fn jar_before(a: Seq<char>, b: Seq<char>) -> bool {
    let (na, nb) = (jar_name(a), jar_name(b));
    jar_rank(na) < jar_rank(nb) || (jar_rank(na) == jar_rank(nb) && seq_lt(na, nb))
}

/// `i` is the jar that a stable sort by preference puts first.
pub open spec fn best_jar(s: Seq<Seq<char>>, i: int) -> bool {
    &&& 0 <= i < s.len()
    &&& forall|j: int| 0 <= j < s.len() ==> !jar_before(#[trigger] s[j], s[i])
    &&& forall|j: int| 0 <= j < i ==> jar_before(s[i], #[trigger] s[j])
}

pub open spec fn string_views(v: Seq<String>) -> Seq<Seq<char>> {
    v.map_values(|x: String| x@)
}

proof fn lemma_jar_before_trans(a: Seq<char>, b: Seq<char>, c: Seq<char>)
    requires
        jar_before(a, b),
        jar_before(b, c),
    ensures
        jar_before(a, c),
{
    if jar_rank(jar_name(a)) == jar_rank(jar_name(b)) && jar_rank(jar_name(b)) == jar_rank(jar_name(c)) {
        lemma_seq_lt_trans(jar_name(a), jar_name(b), jar_name(c));
    }
}

proof fn lemma_jar_before_irrefl(a: Seq<char>)
    ensures
        !jar_before(a, a),
{
    lemma_seq_lt_irrefl(jar_name(a));
}

proof fn lemma_jar_before_total(a: Seq<char>, b: Seq<char>)
    ensures
        jar_before(a, b) || jar_before(b, a) || (jar_name(a) == jar_name(b)),
{
    lemma_seq_lt_total(jar_name(a), jar_name(b));
}

fn jar_before_exec(a: &str, b: &str) -> (r: bool)
    ensures
        r == jar_before(a@, b@),
{
    let na = match file_name_of(a) {
        Some(n) => lower_chars(n.as_slice()),
        None => Vec::new(),
    };
    let nb = match file_name_of(b) {
        Some(n) => lower_chars(n.as_slice()),
        None => Vec::new(),
    };
    proof {
        assert(lower(seq![]) =~= seq![]);
    }
    let ra = server_jar_candidate_rank(na.as_slice());
    let rb = server_jar_candidate_rank(nb.as_slice());
    ra < rb || (ra == rb && seq_lt_exec(na.as_slice(), nb.as_slice()))
}

fn best_jar_index(files: &Vec<String>) -> (i: usize)
    requires
        files@.len() > 0,
    ensures
        best_jar(string_views(files@), i as int),
{
    let ghost s = string_views(files@);
    let mut b: usize = 0;
    let mut k: usize = 1;
    proof {
        lemma_jar_before_irrefl(s[0]);
    }
    while k < files.len()
        invariant
            s == string_views(files@),
            1 <= k <= files@.len(),
            b < k,
            forall|j: int| 0 <= j < k ==> !jar_before(#[trigger] s[j], s[b as int]),
            forall|j: int| 0 <= j < b ==> jar_before(s[b as int], #[trigger] s[j]),
        decreases files@.len() - k,
    {
        if jar_before_exec(files[k].as_str(), files[b].as_str()) {
            proof {
                assert forall|j: int| 0 <= j < k + 1 implies !jar_before(#[trigger] s[j], s[k as int]) by {
                    if j < k {
                        if jar_before(s[j], s[k as int]) {
                            lemma_jar_before_trans(s[j], s[k as int], s[b as int]);
                        }
                    } else {
                        lemma_jar_before_irrefl(s[k as int]);
                    }
                }
                assert forall|j: int| 0 <= j < k implies jar_before(s[k as int], #[trigger] s[j]) by {
                    if j < b {
                        lemma_jar_before_trans(s[k as int], s[b as int], s[j]);
                    } else if j == b {
                    } else {
                        lemma_jar_before_total(s[b as int], s[j]);
                        if jar_before(s[b as int], s[j]) {
                            lemma_jar_before_trans(s[k as int], s[b as int], s[j]);
                        }
                    }
                }
            }
            b = k;
        } else {
            proof {
                assert(!jar_before(s[k as int], s[b as int]));
            }
        }
        k = k + 1;
    }
    b
}

/// The jar that a stable sort by preference puts first, if any.
pub fn select_best_server_jar_path(jar_files: Vec<String>) -> (r: Option<String>)
    ensures
        r is None <==> jar_files@.len() == 0,
        r matches Some(p) ==> exists|i: int| best_jar(string_views(jar_files@), i) && p@ == jar_files@[i]@,
{
    if jar_files.len() == 0 {
        return None;
    }
    let i = best_jar_index(&jar_files);
    let mut files = jar_files;
    let p = files.remove(i);
    assert(string_views(jar_files@)[i as int] == p@);
    Some(p)
}

/// The trimmed value of a manifest entry when its key is `Main-Class` (in any ASCII case) and
/// the value is not blank.
pub open spec fn main_class_entry(key: Seq<char>, value: Seq<char>) -> Option<Seq<char>> {
    if lower(key) == lower("Main-Class"@) && trim(value).len() > 0 {
        Some(trim(value))
    } else {
        None
    }
}

/// Reads manifest lines with the entry being gathered (`key`, `value`): a blank line or a new
/// entry ends it, a line that starts with a blank continues its value.
pub open spec fn manifest_scan(ls: Seq<Seq<char>>, key: Seq<char>, value: Seq<char>) -> Option<Seq<char>>
    decreases ls.len(),
{
    if ls.len() == 0 {
        main_class_entry(key, value)
    } else {
        let line = ls[0];
        let rest = ls.drop_first();
        if line.len() == 0 {
            match main_class_entry(key, value) {
                Some(m) => Some(m),
                None => manifest_scan(rest, seq![], seq![]),
            }
        } else if line[0] == ' ' {
            manifest_scan(rest, key, value + trim_start(line))
        } else {
            match main_class_entry(key, value) {
                Some(m) => Some(m),
                None => match find_char(line, ':') {
                    Some(i) => manifest_scan(
                        rest,
                        trim(line.subrange(0, i)),
                        trim(line.subrange(i + 1, line.len() as int)),
                    ),
                    None => manifest_scan(rest, seq![], seq![]),
                },
            }
        }
    }
}

/// The main class that a jar manifest names: the first `Main-Class` entry with a value.
pub open spec fn manifest_main_class(content: Seq<char>) -> Option<Seq<char>> {
    manifest_scan(lines(content), seq![], seq![])
}

fn main_class_entry_exec(key: &[char], value: &[char]) -> (r: Option<Vec<char>>)
    ensures
        opt_chars(r) == main_class_entry(key@, value@),
{
    if eq_ignore_case(key, "Main-Class") {
        let t = trim_chars(value);
        if t.len() > 0 {
            return Some(t);
        }
    }
    None
}

/// View of an optional character vector.
pub open spec fn opt_chars(v: Option<Vec<char>>) -> Option<Seq<char>> {
    match v {
        Some(v) => Some(v@),
        None => None,
    }
}

/// The main class that a jar manifest names.
pub fn find_manifest_main_class(manifest_content: &str) -> (r: Option<String>)
    ensures
        opt_view(r) == manifest_main_class(manifest_content@),
{
    let content = chars_of(manifest_content);
    let ls = lines_of(content.as_slice());
    let n = ls.len();
    let mut key: Vec<char> = Vec::new();
    let mut value: Vec<char> = Vec::new();
    let mut i: usize = 0;
    assert(views(ls@).subrange(0, n as int) == views(ls@));
    while i < n
        invariant
            n == ls@.len(),
            i <= n,
            views(ls@) == lines(manifest_content@),
            manifest_main_class(manifest_content@) == manifest_scan(
                views(ls@).subrange(i as int, n as int),
                key@,
                value@,
            ),
        decreases n - i,
    {
        let ghost rest = views(ls@).subrange(i as int, n as int);
        assert(rest[0] == ls@[i as int]@);
        assert(rest.drop_first() == views(ls@).subrange(i + 1, n as int));
        let line = &ls[i];
        if line.len() == 0 {
            if let Some(m) = main_class_entry_exec(key.as_slice(), value.as_slice()) {
                return Some(string_from(m.as_slice()));
            }
            key = Vec::new();
            value = Vec::new();
        } else if line[0] == ' ' {
            let t = trim_start_chars(line.as_slice());
            append_chars(&mut value, t.as_slice());
        } else {
            if let Some(m) = main_class_entry_exec(key.as_slice(), value.as_slice()) {
                return Some(string_from(m.as_slice()));
            }
            match find_char_exec(line.as_slice(), ':') {
                Some(c) => {
                    let k = sub_vec(line.as_slice(), 0, c);
                    let v = sub_vec(line.as_slice(), c + 1, line.len());
                    key = trim_chars(k.as_slice());
                    value = trim_chars(v.as_slice());
                },
                None => {
                    key = Vec::new();
                    value = Vec::new();
                },
            }
        }
        i = i + 1;
    }
    match main_class_entry_exec(key.as_slice(), value.as_slice()) {
        Some(m) => Some(string_from(m.as_slice())),
        None => None,
    }
}

/// The lowercased extension of a path, empty when it has none.
pub open spec fn lower_ext(p: Seq<char>) -> Seq<char> {
    lower(or_empty(extension(p)))
}

/// The file name of a path, empty when it has none.
pub open spec fn name_of(p: Seq<char>) -> Seq<char> {
    or_empty(file_name(p))
}

fn lower_ext_exec(p: &[char]) -> (r: Vec<char>)
    ensures
        r@ == lower_ext(p@),
{
    match extension_exec(p) {
        Some(e) => lower_chars(e.as_slice()),
        None => {
            assert(lower(seq![]) =~= seq![]);
            Vec::new()
        },
    }
}

fn name_of_exec(p: &[char]) -> (r: Vec<char>)
    ensures
        r@ == name_of(p@),
{
    match file_name_exec(p) {
        Some(n) => n,
        None => Vec::new(),
    }
}

/// A path names a Pumpkin executable: its file name holds `pumpkin` and its extension is `exe`
/// or missing.
pub open spec fn pumpkin_executable(p: Seq<char>) -> bool {
    let ext = lower_ext(p);
    contains(lower(name_of(p)), "pumpkin"@) && (ext == "exe"@ || ext.len() == 0)
}

pub fn is_pumpkin_executable(path: &str) -> (r: bool)
    ensures
        r == pumpkin_executable(path@),
{
    let v = chars_of(path);
    let n = name_of_exec(v.as_slice());
    let l = lower_chars(n.as_slice());
    let e = lower_ext_exec(v.as_slice());
    contains_str(l.as_slice(), "pumpkin") && (eq_str(e.as_slice(), "exe") || e.len() == 0)
}

/// The path's extension is `jar` in any ASCII case.
pub open spec fn jar_file(p: Seq<char>) -> bool {
    lower_ext(p) == "jar"@
}

pub fn is_jar_path(path: &str) -> (r: bool)
    ensures
        r == jar_file(path@),
{
    let v = chars_of(path);
    let e = lower_ext_exec(v.as_slice());
    eq_str(e.as_slice(), "jar")
}

/// Where a script's start target lies: the trimmed target, joined to the server root unless
/// it is absolute.
pub open spec fn script_target_location(server_root: Seq<char>, target: Seq<char>) -> Seq<char> {
    join(server_root, trim(target))
}

pub fn resolve_script_target_path(server_root: &str, target: &str) -> (r: String)
    ensures
        r@ == script_target_location(server_root@, target@),
{
    let t = trimmed_chars(target);
    join_exec(server_root, t.as_slice())
}

/// What the core of a Pumpkin executable is known as.
pub open spec fn pumpkin_info(path: Seq<char>, confidence: StartupScanConfidence) -> CoreInfoView {
    CoreInfoView {
        key: Some("pumpkin"@),
        hint: "pumpkin"@,
        main_class: None,
        startup_path: Some(path),
        confidence,
    }
}

fn pumpkin_parsed_core(path: String, confidence: StartupScanConfidence) -> (r: ParsedStartupCoreInfo)
    ensures
        r@ == pumpkin_info(path@, confidence),
{
    ParsedStartupCoreInfo {
        detected_core_key: Some(owned("pumpkin")),
        display_hint: owned("pumpkin"),
        main_class: None,
        startup_path: Some(path),
        confidence,
    }
}

/// What a script's start target tells of the core. `main_class` is the main class of the
/// target's manifest, read when the target is a jar.
pub open spec fn script_target_info(
    server_root: Seq<char>,
    target: Seq<char>,
    main_class: Option<Seq<char>>,
) -> CoreInfoView {
    let t = trim(target);
    let tp = join(server_root, t);
    if t.len() == 0 {
        unknown_info()
    } else if jar_file(tp) {
        jar_core_info(tp, main_class)
    } else if pumpkin_executable(tp) {
        pumpkin_info(tp, StartupScanConfidence::Likely)
    } else {
        let h = display_hint(t);
        CoreInfoView {
            key: if h == "unknown"@ {
                None
            } else {
                Some(h)
            },
            hint: h,
            main_class: None,
            startup_path: Some(tp),
            confidence: StartupScanConfidence::Heuristic,
        }
    }
}

/// What a script's start target tells of the core, given the main class of the target's
/// manifest when the target is a jar.
pub fn build_parsed_core_from_script_target(
    server_root: &str,
    target: &str,
    main_class: Option<String>,
) -> (r: ParsedStartupCoreInfo)
    ensures
        r@ == script_target_info(server_root@, target@, opt_view(main_class)),
{
    let t = trimmed_chars(target);
    if t.len() == 0 {
        return unknown_parsed_core_info();
    }
    let tp = join_exec(server_root, t.as_slice());
    if is_jar_path(tp.as_str()) {
        return parse_startup_core_from_jar(tp.as_str(), main_class);
    }
    if is_pumpkin_executable(tp.as_str()) {
        return pumpkin_parsed_core(tp, StartupScanConfidence::Likely);
    }
    let ts = string_from(t.as_slice());
    let h = detect_core_display_hint_from_filename(ts.as_str());
    let key = if str_eq(h.as_str(), "unknown") {
        None
    } else {
        Some(h.clone())
    };
    ParsedStartupCoreInfo {
        detected_core_key: key,
        display_hint: h,
        main_class: None,
        startup_path: Some(tp),
        confidence: StartupScanConfidence::Heuristic,
    }
}

/// The first start target that the lines of a script name.
pub open spec fn first_script_target(ls: Seq<Seq<char>>) -> Option<Seq<char>>
    decreases ls.len(),
{
    if ls.len() == 0 {
        None
    } else {
        match spec_script_line_target(ls[0]) {
            Some(t) => Some(t),
            None => first_script_target(ls.drop_first()),
        }
    }
}

/// The start target that a script names: that of its first line that names one.
pub fn parse_script_startup_target(content: &str) -> (r: Option<String>)
    ensures
        opt_view(r) == first_script_target(lines(content@)),
{
    let c = chars_of(content);
    let ls = lines_of(c.as_slice());
    let n = ls.len();
    let mut i: usize = 0;
    assert(views(ls@).subrange(0, n as int) == views(ls@));
    while i < n
        invariant
            n == ls@.len(),
            i <= n,
            views(ls@) == lines(content@),
            first_script_target(lines(content@)) == first_script_target(
                views(ls@).subrange(i as int, n as int),
            ),
        decreases n - i,
    {
        let ghost rest = views(ls@).subrange(i as int, n as int);
        assert(rest[0] == ls@[i as int]@);
        assert(rest.drop_first() == views(ls@).subrange(i + 1, n as int));
        if let Some(t) = extract_target_from_script_line(ls[i].as_slice()) {
            return Some(string_from(t.as_slice()));
        }
        i = i + 1;
    }
    None
}

/// The abstract content of a [`StartupCandidateItem`].
pub struct CandidateView {
    pub id: Seq<char>,
    pub mode: Seq<char>,
    pub label: Seq<char>,
    pub detail: Seq<char>,
    pub path: Seq<char>,
    pub target: Option<Seq<char>>,
    pub rank: u8,
    pub kind: StartupCandidateKind,
}

impl View for StartupCandidateItem {
    type V = CandidateView;

    open spec fn view(&self) -> CandidateView {
        CandidateView {
            id: self.id@,
            mode: self.mode@,
            label: self.label@,
            detail: self.detail@,
            path: self.path@,
            target: opt_view(self.resolved_target_path),
            rank: self.recommended_rank,
            kind: self.kind,
        }
    }
}

pub open spec fn cand_views(v: Seq<StartupCandidateItem>) -> Seq<CandidateView> {
    v.map_values(|c: StartupCandidateItem| c@)
}

/// The candidate of a Pumpkin executable found in a folder.
pub open spec fn pumpkin_candidate(path: Seq<char>) -> CandidateView {
    CandidateView {
        id: "custom-"@ + name_of(path),
        mode: "custom"@,
        label: "Pumpkin"@,
        detail: "Pumpkin executable"@,
        path,
        target: None,
        rank: 1,
        kind: StartupCandidateKind::NativeExecutable,
    }
}

/// The file name is `server.jar` in any ASCII case.
pub open spec fn server_jar_name(name: Seq<char>) -> bool {
    lower(name) == lower("server.jar"@)
}

/// Rank of a jar found in a folder: starters first, then `server.jar`, then other jars.
pub open spec fn folder_jar_rank(path: Seq<char>, info: CoreInfoView) -> u8 {
    if starter_candidate(info) {
        1
    } else if server_jar_name(name_of(path)) {
        3
    } else {
        4
    }
}

/// Label of a jar found in a folder.
pub open spec fn folder_jar_label(path: Seq<char>, info: CoreInfoView) -> Seq<char> {
    if installer_main_class(info) {
        "Installer"@
    } else if starter_candidate(info) {
        "Starter"@
    } else if server_jar_name(name_of(path)) {
        "server.jar"@
    } else {
        name_of(path)
    }
}

/// The candidate of a jar found in a folder.
pub open spec fn jar_candidate(path: Seq<char>, info: CoreInfoView) -> CandidateView {
    let st = starter_candidate(info);
    CandidateView {
        id: "jar-"@ + name_of(path),
        mode: if st {
            "starter"@
        } else {
            "jar"@
        },
        label: folder_jar_label(path, info),
        detail: detail_of(info),
        path,
        target: None,
        rank: folder_jar_rank(path, info),
        kind: if st {
            StartupCandidateKind::Starter
        } else {
            StartupCandidateKind::Jar
        },
    }
}

/// The candidate of a script found in a folder (`.cmd` scripts run in `bat` mode).
pub open spec fn script_candidate(path: Seq<char>, target: Option<Seq<char>>) -> CandidateView {
    let ext = lower_ext(path);
    CandidateView {
        id: ext + "-"@ + name_of(path),
        mode: if ext == "cmd"@ {
            "bat"@
        } else {
            ext
        },
        label: name_of(path),
        detail: spec_script_detail(target),
        path,
        target,
        rank: 2,
        kind: StartupCandidateKind::Script,
    }
}

/// The best core information found so far, with the key it was chosen by.
pub struct DetectedCore {
    pub rank: u8,
    pub unknown: bool,
    pub label: Vec<char>,
    pub info: ParsedStartupCoreInfo,
}

pub struct DetectedView {
    pub rank: u8,
    pub unknown: bool,
    pub label: Seq<char>,
    pub info: CoreInfoView,
}

impl View for DetectedCore {
    type V = DetectedView;

    open spec fn view(&self) -> DetectedView {
        DetectedView { rank: self.rank, unknown: self.unknown, label: self.label@, info: self.info@ }
    }
}

pub open spec fn opt_detected(d: Option<DetectedCore>) -> Option<DetectedView> {
    match d {
        Some(d) => Some(d@),
        None => None,
    }
}

/// Order of core evidence: lower rank, then a known core, then the lower label.
pub open spec fn evidence_before(a: DetectedView, b: DetectedView) -> bool {
    a.rank < b.rank || (a.rank == b.rank && ((!a.unknown && b.unknown) || (a.unknown == b.unknown
        && seq_lt(a.label, b.label))))
}

/// The best evidence after new evidence of `rank` with `label` for `info` is weighed.
pub open spec fn detected_after(
    d: Option<DetectedView>,
    rank: u8,
    label: Seq<char>,
    info: CoreInfoView,
) -> Option<DetectedView> {
    let c = DetectedView { rank, unknown: info.key is None, label: lower(label), info };
    match d {
        None => Some(c),
        Some(b) => if evidence_before(c, b) {
            Some(c)
        } else {
            d
        },
    }
}

/// The entries of a server folder, as far as a startup scan reads them.
#[derive(Debug, Clone, Copy, PartialEq, Eq, Structural)]
pub enum FolderEntryKind {
    PumpkinExecutable,
    Jar,
    Script,
    Other,
}

pub open spec fn folder_entry_kind(path: Seq<char>) -> FolderEntryKind {
    let ext = lower_ext(path);
    if pumpkin_executable(path) {
        FolderEntryKind::PumpkinExecutable
    } else if ext == "jar"@ {
        FolderEntryKind::Jar
    } else if ext == "bat"@ || ext == "cmd"@ || ext == "sh"@ || ext == "ps1"@ {
        FolderEntryKind::Script
    } else {
        FolderEntryKind::Other
    }
}

/// What a startup scan does with a file of a server folder.
pub fn classify_folder_entry(path: &str) -> (r: FolderEntryKind)
    ensures
        r == folder_entry_kind(path@),
{
    let v = chars_of(path);
    let e = lower_ext_exec(v.as_slice());
    let es = e.as_slice();
    if is_pumpkin_executable(path) {
        FolderEntryKind::PumpkinExecutable
    } else if eq_str(es, "jar") {
        FolderEntryKind::Jar
    } else if eq_str(es, "bat") || eq_str(es, "cmd") || eq_str(es, "sh") || eq_str(es, "ps1") {
        FolderEntryKind::Script
    } else {
        FolderEntryKind::Other
    }
}

/// The scan of a server folder, fed one file at a time.
pub struct StartupFolderScan {
    pub candidates: Vec<StartupCandidateItem>,
    pub detected: Option<DetectedCore>,
}

fn evidence_before_exec(rank: u8, unknown: bool, label: &[char], b: &DetectedCore) -> (r: bool)
    ensures
        r == evidence_before(DetectedView { rank, unknown, label: label@, info: b.info@ }, b@),
{
    rank < b.rank || (rank == b.rank && ((!unknown && b.unknown) || (unknown == b.unknown
        && seq_lt_exec(label, b.label.as_slice()))))
}

impl StartupFolderScan {
    pub fn new() -> (r: Self)
        ensures
            r.candidates@.len() == 0,
            r.detected is None,
    {
        StartupFolderScan { candidates: Vec::new(), detected: None }
    }

    /// Weighs new core evidence against the best so far.
    pub fn update_detected_core(&mut self, rank: u8, label: &[char], parsed: ParsedStartupCoreInfo)
        ensures
            final(self).candidates == old(self).candidates,
            opt_detected(final(self).detected) == detected_after(
                opt_detected(old(self).detected),
                rank,
                label@,
                parsed@,
            ),
    {
        let unknown = parsed.detected_core_key.is_none();
        let l = lower_chars(label);
        let replace = match &self.detected {
            None => true,
            Some(b) => evidence_before_exec(rank, unknown, l.as_slice(), b),
        };
        if replace {
            self.detected = Some(DetectedCore { rank, unknown, label: l, info: parsed });
        }
    }

    /// Adds a Pumpkin executable found in the folder.
    pub fn add_pumpkin(&mut self, path: &str)
        ensures
            cand_views(final(self).candidates@) == cand_views(old(self).candidates@).push(
                pumpkin_candidate(path@),
            ),
            opt_detected(final(self).detected) == detected_after(
                opt_detected(old(self).detected),
                1,
                name_of(path@),
                pumpkin_info(path@, StartupScanConfidence::Explicit),
            ),
    {
        let v = chars_of(path);
        let filename = name_of_exec(v.as_slice());
        let parsed = pumpkin_parsed_core(owned(path), StartupScanConfidence::Explicit);
        self.update_detected_core(1, filename.as_slice(), parsed);
        let mut id = chars_of("custom-");
        append_chars(&mut id, filename.as_slice());
        let item = StartupCandidateItem {
            id: string_from(id.as_slice()),
            mode: owned("custom"),
            label: owned("Pumpkin"),
            detail: owned("Pumpkin executable"),
            path: owned(path),
            resolved_target_path: None,
            recommended_rank: 1,
            kind: StartupCandidateKind::NativeExecutable,
        };
        let ghost old_c = self.candidates@;
        self.candidates.push(item);
        assert(cand_views(self.candidates@) =~= cand_views(old_c).push(pumpkin_candidate(path@)));
    }

    /// Adds a jar found in the folder, with the main class that its manifest names.
    pub fn add_jar(&mut self, path: &str, main_class: Option<String>)
        ensures
            cand_views(final(self).candidates@) == cand_views(old(self).candidates@).push(
                jar_candidate(path@, jar_core_info(path@, opt_view(main_class))),
            ),
            opt_detected(final(self).detected) == detected_after(
                opt_detected(old(self).detected),
                folder_jar_rank(path@, jar_core_info(path@, opt_view(main_class))),
                folder_jar_label(path@, jar_core_info(path@, opt_view(main_class))),
                jar_core_info(path@, opt_view(main_class)),
            ),
    {
        let ghost info = jar_core_info(path@, opt_view(main_class));
        let v = chars_of(path);
        let filename = name_of_exec(v.as_slice());
        let parsed = parse_startup_core_from_jar(path, main_class);
        let is_starter = is_starter_candidate(&parsed);
        let is_server_jar = eq_ignore_case(filename.as_slice(), "server.jar");
        let rank: u8 = if is_starter {
            1
        } else if is_server_jar {
            3
        } else {
            4
        };
        let label = if is_forge_like_installer_main_class(&parsed) {
            owned("Installer")
        } else if is_starter {
            owned("Starter")
        } else if is_server_jar {
            owned("server.jar")
        } else {
            string_from(filename.as_slice())
        };
        let detail = startup_detail(&parsed);
        let lv = chars_of(label.as_str());
        self.update_detected_core(rank, lv.as_slice(), parsed);
        let mut id = chars_of("jar-");
        append_chars(&mut id, filename.as_slice());
        let item = StartupCandidateItem {
            id: string_from(id.as_slice()),
            mode: if is_starter {
                owned("starter")
            } else {
                owned("jar")
            },
            label,
            detail,
            path: owned(path),
            resolved_target_path: None,
            recommended_rank: rank,
            kind: if is_starter {
                StartupCandidateKind::Starter
            } else {
                StartupCandidateKind::Jar
            },
        };
        let ghost old_c = self.candidates@;
        self.candidates.push(item);
        assert(cand_views(self.candidates@) =~= cand_views(old_c).push(jar_candidate(path@, info)));
    }

    /// Adds a script found in the folder, with the start target that it names and what that
    /// target tells of the core, when it tells anything.
    pub fn add_script(&mut self, path: &str, target: Option<String>, target_core: Option<ParsedStartupCoreInfo>)
        ensures
            cand_views(final(self).candidates@) == cand_views(old(self).candidates@).push(
                script_candidate(path@, opt_view(target)),
            ),
            opt_detected(final(self).detected) == match target_core {
                Some(c) => detected_after(opt_detected(old(self).detected), 2, name_of(path@), c@),
                None => opt_detected(old(self).detected),
            },
    {
        let v = chars_of(path);
        let filename = name_of_exec(v.as_slice());
        let ext = lower_ext_exec(v.as_slice());
        if let Some(c) = target_core {
            self.update_detected_core(2, filename.as_slice(), c);
        }
        let mut id = sub_vec(ext.as_slice(), 0, ext.len());
        append_str(&mut id, "-");
        append_chars(&mut id, filename.as_slice());
        let mode = if eq_str(ext.as_slice(), "cmd") {
            owned("bat")
        } else {
            string_from(ext.as_slice())
        };
        let detail = match &target {
            Some(t) => script_detail(Some(t.as_str())),
            None => script_detail(None),
        };
        let item = StartupCandidateItem {
            id: string_from(id.as_slice()),
            mode,
            label: string_from(filename.as_slice()),
            detail,
            path: owned(path),
            resolved_target_path: target,
            recommended_rank: 2,
            kind: StartupCandidateKind::Script,
        };
        assert(item@.id == script_candidate(path@, opt_view(target)).id);
        assert(item@.mode == script_candidate(path@, opt_view(target)).mode);
        assert(item@.label == script_candidate(path@, opt_view(target)).label);
        assert(item@.detail == script_candidate(path@, opt_view(target)).detail);
        assert(item@.target == script_candidate(path@, opt_view(target)).target);
        let ghost old_c = self.candidates@;
        self.candidates.push(item);
        assert(cand_views(self.candidates@) =~= cand_views(old_c).push(
            script_candidate(path@, opt_view(target)),
        ));
    }
}

/// Candidate `a` is listed before `b`: lower rank, then lower label.
pub open spec fn cand_before(a: CandidateView, b: CandidateView) -> bool {
    a.rank < b.rank || (a.rank == b.rank && seq_lt(a.label, b.label))
}

/// `x` inserted into `t` after every candidate that does not come after it.
pub open spec fn insert_by_rank(t: Seq<CandidateView>, x: CandidateView) -> Seq<CandidateView>
    decreases t.len(),
{
    if t.len() == 0 {
        seq![x]
    } else if cand_before(x, t.last()) {
        insert_by_rank(t.drop_last(), x).push(t.last())
    } else {
        t.push(x)
    }
}

/// The candidates in a stable order by rank, then label.
pub open spec fn sort_by_rank(s: Seq<CandidateView>) -> Seq<CandidateView>
    decreases s.len(),
{
    if s.len() == 0 {
        seq![]
    } else {
        insert_by_rank(sort_by_rank(s.drop_last()), s.last())
    }
}

proof fn lemma_insert_at(t: Seq<CandidateView>, x: CandidateView, j: int)
    requires
        0 <= j <= t.len(),
        forall|k: int| j <= k < t.len() ==> cand_before(x, #[trigger] t[k]),
        j == 0 || !cand_before(x, t[j - 1]),
    ensures
        insert_by_rank(t, x) == t.insert(j, x),
    decreases t.len(),
{
    if t.len() == 0 {
        assert(t.insert(j, x) =~= seq![x]);
    } else if j == t.len() {
        assert(t.insert(j, x) =~= t.push(x));
    } else {
        assert(cand_before(x, t[t.len() - 1]));
        lemma_insert_at(t.drop_last(), x, j);
        assert(t.insert(j, x) =~= t.drop_last().insert(j, x).push(t.last()));
    }
}

fn cand_before_exec(a: &StartupCandidateItem, b: &StartupCandidateItem) -> (r: bool)
    ensures
        r == cand_before(a@, b@),
{
    if a.recommended_rank != b.recommended_rank {
        return a.recommended_rank < b.recommended_rank;
    }
    let la = chars_of(a.label.as_str());
    let lb = chars_of(b.label.as_str());
    seq_lt_exec(la.as_slice(), lb.as_slice())
}

/// Candidates in a stable order by rank, then label.
pub fn sort_candidates(items: Vec<StartupCandidateItem>) -> (r: Vec<StartupCandidateItem>)
    ensures
        cand_views(r@) == sort_by_rank(cand_views(items@)),
{
    let ghost orig = cand_views(items@);
    let n = items.len();
    let mut input = items;
    let mut out: Vec<StartupCandidateItem> = Vec::new();
    let mut k: usize = 0;
    assert(orig.subrange(0, 0) =~= Seq::<CandidateView>::empty());
    assert(orig.subrange(0, n as int) =~= orig);
    while input.len() > 0
        invariant
            k <= n,
            n == orig.len(),
            cand_views(input@) == orig.subrange(k as int, n as int),
            cand_views(out@) == sort_by_rank(orig.subrange(0, k as int)),
        decreases input@.len(),
    {
        let ghost before = input@;
        assert(cand_views(before).len() == before.len());
        assert(k < n);
        let x = input.remove(0);
        assert(cand_views(before)[0] == x@);
        assert(orig.subrange(k as int, n as int)[0] == orig[k as int]);
        assert(cand_views(input@) =~= orig.subrange(k + 1, n as int)) by {
            assert forall|m: int| 0 <= m < input@.len() implies cand_views(input@)[m] == orig[k + 1 + m] by {
                assert(input@[m] == before[m + 1]);
                assert(cand_views(before)[m + 1] == orig.subrange(k as int, n as int)[m + 1]);
            }
        }
        let mut j = out.len();
        while j > 0 && cand_before_exec(&x, &out[j - 1])
            invariant
                j <= out@.len(),
                forall|m: int| j <= m < out@.len() ==> cand_before(x@, #[trigger] cand_views(out@)[m]),
            decreases j,
        {
            j = j - 1;
        }
        proof {
            let t = cand_views(out@);
            if j > 0 {
                assert(t[j - 1] == out@[j - 1]@);
            }
            lemma_insert_at(t, x@, j as int);
            assert(orig.subrange(0, k + 1).drop_last() =~= orig.subrange(0, k as int));
            assert(orig.subrange(0, k + 1).last() == orig[k as int]);
        }
        let ghost old_out = out@;
        out.insert(j, x);
        assert(cand_views(out@) =~= cand_views(old_out).insert(j as int, x@));
        k = k + 1;
    }
    assert(k == n);
    out
}

/// The canonical core keys that a scan offers, as texts.
pub open spec fn core_key_option_texts() -> Seq<Seq<char>> {
    STARTUP_SCAN_CORE_KEY_OPTIONS@.map_values(|s: &str| s@)
}

pub open spec fn str_views(v: Seq<&str>) -> Seq<Seq<char>> {
    v.map_values(|s: &str| s@)
}

fn owned_all(v: &[&str]) -> (r: Vec<String>)
    ensures
        string_views(r@) == str_views(v@),
{
    let mut r: Vec<String> = Vec::new();
    let mut i: usize = 0;
    while i < v.len()
        invariant
            i <= v@.len(),
            string_views(r@) == str_views(v@).subrange(0, i as int),
        decreases v@.len() - i,
    {
        let ghost old_r = r@;
        r.push(owned(v[i]));
        assert(string_views(r@) =~= string_views(old_r).push(v@[i as int]@));
        i = i + 1;
    }
    assert(str_views(v@).subrange(0, v@.len() as int) =~= str_views(v@));
    r
}

/// A scan result: the core and candidates found, with the options a user can pick from.
pub fn build_result(
    parsed_core: ParsedStartupCoreInfo,
    candidates: Vec<StartupCandidateItem>,
    detected_mc_version: Option<String>,
    mc_version_detection_failed: bool,
    mc_version_options: &[&str],
) -> (r: StartupScanResult)
    ensures
        r.parsed_core@ == parsed_core@,
        cand_views(r.candidates@) == cand_views(candidates@),
        string_views(r.core_key_options@) == core_key_option_texts(),
        string_views(r.mc_version_options@) == str_views(mc_version_options@),
        opt_view(r.detected_mc_version) == opt_view(detected_mc_version),
        r.mc_version_detection_failed == mc_version_detection_failed,
{
    let options: &[&str] = &STARTUP_SCAN_CORE_KEY_OPTIONS;
    let core_key_options = owned_all(options);
    StartupScanResult {
        parsed_core,
        candidates,
        core_key_options,
        mc_version_options: owned_all(mc_version_options),
        detected_mc_version,
        mc_version_detection_failed,
    }
}

impl StartupFolderScan {
    /// The result of the scan: candidates by rank, then label, and the best core evidence.
    pub fn finish(self, mc_version_options: &[&str]) -> (r: StartupScanResult)
        ensures
            cand_views(r.candidates@) == sort_by_rank(cand_views(self.candidates@)),
            r.parsed_core@ == match self.detected {
                Some(d) => d.info@,
                None => unknown_info(),
            },
            string_views(r.core_key_options@) == core_key_option_texts(),
            string_views(r.mc_version_options@) == str_views(mc_version_options@),
            r.detected_mc_version is None,
            !r.mc_version_detection_failed,
    {
        let candidates = sort_candidates(self.candidates);
        let parsed = match self.detected {
            Some(d) => d.info,
            None => unknown_parsed_core_info(),
        };
        build_result(parsed, candidates, None, false, mc_version_options)
    }
}

/// The candidate of a jar that an archive scan found at `path`.
pub open spec fn archive_candidate(path: Seq<char>, info: CoreInfoView) -> CandidateView {
    let st = starter_candidate(info);
    CandidateView {
        id: if st {
            "archive-starter"@
        } else {
            "archive-jar"@
        },
        mode: if st {
            "starter"@
        } else {
            "jar"@
        },
        label: if installer_main_class(info) {
            "Installer"@
        } else if st {
            "Starter"@
        } else {
            "server.jar"@
        },
        detail: detail_of(info),
        path,
        target: None,
        rank: if st {
            1
        } else {
            3
        },
        kind: if st {
            StartupCandidateKind::Starter
        } else {
            StartupCandidateKind::Jar
        },
    }
}

fn archive_candidate_item(path: String, parsed: &ParsedStartupCoreInfo) -> (r: StartupCandidateItem)
    ensures
        r@ == archive_candidate(path@, parsed@),
{
    let st = is_starter_candidate(parsed);
    StartupCandidateItem {
        id: if st {
            owned("archive-starter")
        } else {
            owned("archive-jar")
        },
        mode: if st {
            owned("starter")
        } else {
            owned("jar")
        },
        label: if is_forge_like_installer_main_class(parsed) {
            owned("Installer")
        } else if st {
            owned("Starter")
        } else {
            owned("server.jar")
        },
        detail: startup_detail(parsed),
        path,
        resolved_target_path: None,
        recommended_rank: if st {
            1
        } else {
            3
        },
        kind: if st {
            StartupCandidateKind::Starter
        } else {
            StartupCandidateKind::Jar
        },
    }
}

/// The scan of an archive source that is itself a jar, given the main class of its manifest.
pub fn archive_jar_result(source_path: &str, main_class: Option<String>, mc_version_options: &[&str]) -> (r:
    StartupScanResult)
    ensures
        r.parsed_core@ == jar_core_info(source_path@, opt_view(main_class)),
        cand_views(r.candidates@) == seq![
            archive_candidate(source_path@, jar_core_info(source_path@, opt_view(main_class))),
        ],
        string_views(r.core_key_options@) == core_key_option_texts(),
        string_views(r.mc_version_options@) == str_views(mc_version_options@),
        r.detected_mc_version is None,
        !r.mc_version_detection_failed,
{
    let parsed = parse_startup_core_from_jar(source_path, main_class);
    let item = archive_candidate_item(owned(source_path), &parsed);
    let mut candidates: Vec<StartupCandidateItem> = Vec::new();
    candidates.push(item);
    assert(cand_views(candidates@) =~= seq![item@]);
    build_result(parsed, candidates, None, false, mc_version_options)
}

/// The candidate of a Pumpkin executable given as an archive source.
pub open spec fn archive_pumpkin_candidate(path: Seq<char>) -> CandidateView {
    CandidateView {
        id: "archive-custom-pumpkin"@,
        mode: "custom"@,
        label: "Pumpkin"@,
        detail: "Pumpkin executable"@,
        path,
        target: None,
        rank: 1,
        kind: StartupCandidateKind::NativeExecutable,
    }
}

/// The scan of an archive source that is a Pumpkin executable.
pub fn archive_pumpkin_result(source_path: &str, mc_version_options: &[&str]) -> (r: StartupScanResult)
    ensures
        r.parsed_core@ == pumpkin_info(source_path@, StartupScanConfidence::Explicit),
        cand_views(r.candidates@) == seq![archive_pumpkin_candidate(source_path@)],
        string_views(r.core_key_options@) == core_key_option_texts(),
        string_views(r.mc_version_options@) == str_views(mc_version_options@),
        r.detected_mc_version is None,
        !r.mc_version_detection_failed,
{
    let parsed = pumpkin_parsed_core(owned(source_path), StartupScanConfidence::Explicit);
    let item = StartupCandidateItem {
        id: owned("archive-custom-pumpkin"),
        mode: owned("custom"),
        label: owned("Pumpkin"),
        detail: owned("Pumpkin executable"),
        path: owned(source_path),
        resolved_target_path: None,
        recommended_rank: 1,
        kind: StartupCandidateKind::NativeExecutable,
    };
    let mut candidates: Vec<StartupCandidateItem> = Vec::new();
    candidates.push(item);
    assert(cand_views(candidates@) =~= seq![item@]);
    build_result(parsed, candidates, None, false, mc_version_options)
}

/// The scan of an archive unpacked into a directory, once the core found there is known (its
/// startup path relative to the archive).
pub fn archive_directory_result(parsed: ParsedStartupCoreInfo, mc_version_options: &[&str]) -> (r:
    StartupScanResult)
    ensures
        r.parsed_core@ == parsed@,
        cand_views(r.candidates@) == match parsed@.startup_path {
            Some(p) => seq![archive_candidate(p, parsed@)],
            None => seq![],
        },
        string_views(r.core_key_options@) == core_key_option_texts(),
        string_views(r.mc_version_options@) == str_views(mc_version_options@),
        r.detected_mc_version is None,
        !r.mc_version_detection_failed,
{
    let mut candidates: Vec<StartupCandidateItem> = Vec::new();
    match &parsed.startup_path {
        Some(p) => {
            let item = archive_candidate_item(p.clone(), &parsed);
            candidates.push(item);
            assert(cand_views(candidates@) =~= seq![item@]);
        },
        None => {
            assert(cand_views(candidates@) =~= seq![]);
        },
    }
    build_result(parsed, candidates, None, false, mc_version_options)
}

/// The jar names looked for first, in this order, in a server root.
pub const PREFERRED_SERVER_JAR_PATTERNS: [&'static str; 7] = [
    "server.jar",
    "forge.jar",
    "fabric-server.jar",
    "minecraft_server.jar",
    "paper.jar",
    "spigot.jar",
    "purpur.jar",
];

/// The message of a server root that holds no jar.
pub open spec fn no_jar_message() -> Seq<char> {
    "No JAR file found in server root"@
}

/// The jar a server root starts from, among the jar files found there (none of the preferred
/// names was present); directories named like jars only matter when no jar file is found.
pub open spec fn server_jar_choice_spec(jar_files: Seq<Seq<char>>, invalid_jar_dirs: Seq<Seq<char>>) -> Result<
    Seq<char>,
    Seq<char>,
> {
    if jar_files.len() > 0 {
        Ok(jar_files[choose|i: int| best_jar(jar_files, i)])
    } else if invalid_jar_dirs.len() > 0 {
        Err("Detected a directory masquerading as a JAR file: "@ + invalid_jar_dirs[0])
    } else {
        Err(no_jar_message())
    }
}

proof fn lemma_best_jar_unique(s: Seq<Seq<char>>, i: int, j: int)
    requires
        best_jar(s, i),
        best_jar(s, j),
    ensures
        i == j,
{
    if i < j {
        assert(jar_before(s[j], s[i]));
        assert(!jar_before(s[j], s[i]));
    } else if j < i {
        assert(jar_before(s[i], s[j]));
        assert(!jar_before(s[i], s[j]));
    }
}

/// The jar a server root starts from, among the jar files found there.
pub fn choose_server_jar(jar_files: Vec<String>, invalid_jar_dirs: Vec<String>) -> (r: Result<String, String>)
    ensures
        match (r, server_jar_choice_spec(string_views(jar_files@), string_views(invalid_jar_dirs@))) {
            (Ok(a), Ok(b)) => a@ == b,
            (Err(a), Err(b)) => a@ == b,
            _ => false,
        },
{
    let ghost files = string_views(jar_files@);
    if jar_files.len() > 0 {
        let i = best_jar_index(&jar_files);
        proof {
            let c = choose|k: int| best_jar(files, k);
            lemma_best_jar_unique(files, i as int, c);
        }
        let mut v = jar_files;
        let p = v.remove(i);
        assert(files[i as int] == p@);
        return Ok(p);
    }
    if invalid_jar_dirs.len() > 0 {
        let mut m = chars_of("Detected a directory masquerading as a JAR file: ");
        append_str(&mut m, invalid_jar_dirs[0].as_str());
        assert(string_views(invalid_jar_dirs@)[0] == invalid_jar_dirs@[0]@);
        return Err(string_from(m.as_slice()));
    }
    Err(owned("No JAR file found in server root"))
}

/// The directory of an unpacked archive to inspect: its only entry when that is a directory.
pub open spec fn extracted_root(extract_dir: Seq<char>, directories: Seq<Seq<char>>, file_count: nat) -> Seq<char> {
    if file_count == 0 && directories.len() == 1 {
        directories[0]
    } else {
        extract_dir
    }
}

/// The directory of an unpacked archive to inspect, from the directories and the number of
/// other entries at its top.
pub fn resolve_extracted_root(extract_dir: &str, directories: Vec<String>, file_count: usize) -> (r: String)
    ensures
        r@ == extracted_root(extract_dir@, string_views(directories@), file_count as nat),
{
    if file_count == 0 && directories.len() == 1 {
        let mut d = directories;
        let p = d.remove(0);
        assert(string_views(directories@)[0] == p@);
        p
    } else {
        owned(extract_dir)
    }
}

/// The archive formats that a scan unpacks.
#[derive(Debug, Clone, Copy, PartialEq, Eq, Structural)]
pub enum ArchiveFormat {
    Zip,
    TarGz,
    Tar,
}

pub open spec fn unsupported_archive_message() -> Seq<char> {
    "Unsupported archive format; only .zip, .tar, .tar.gz, and .tgz are supported"@
}

/// The format of an archive, by the lowercased ending of its file name.
pub open spec fn archive_format(path: Seq<char>) -> Result<ArchiveFormat, Seq<char>> {
    let l = lower(name_of(path));
    if ends_with(l, ".zip"@) {
        Ok(ArchiveFormat::Zip)
    } else if ends_with(l, ".tar.gz"@) || ends_with(l, ".tgz"@) {
        Ok(ArchiveFormat::TarGz)
    } else if ends_with(l, ".tar"@) {
        Ok(ArchiveFormat::Tar)
    } else {
        Err(unsupported_archive_message())
    }
}

/// The format of an archive, by the ending of its file name.
pub fn archive_format_of(archive_path: &str) -> (r: Result<ArchiveFormat, String>)
    ensures
        match (r, archive_format(archive_path@)) {
            (Ok(a), Ok(b)) => a == b,
            (Err(a), Err(b)) => a@ == b,
            _ => false,
        },
{
    let v = chars_of(archive_path);
    let n = name_of_exec(v.as_slice());
    let l = lower_chars(n.as_slice());
    let ls = l.as_slice();
    if ends_with_str(ls, ".zip") {
        Ok(ArchiveFormat::Zip)
    } else if ends_with_str(ls, ".tar.gz") || ends_with_str(ls, ".tgz") {
        Ok(ArchiveFormat::TarGz)
    } else if ends_with_str(ls, ".tar") {
        Ok(ArchiveFormat::Tar)
    } else {
        Err(owned("Unsupported archive format; only .zip, .tar, .tar.gz, and .tgz are supported"))
    }
}

/// The path of a file found in an unpacked archive, relative to the unpacking directory,
/// rebuilt from its components with `/` between them.
pub open spec fn relative_archive_path(base_dir: Seq<char>, absolute_path: Seq<char>) -> Result<Seq<char>, Seq<char>> {
    match strip_prefix(absolute_path, base_dir) {
        None => Err("Detected startup file is outside the temp extract dir: "@ + absolute_path),
        Some(cs) => if cs.len() == 0 {
            Err("Detected startup file path is empty"@)
        } else {
            Ok(slashes(join_components(cs)))
        },
    }
}

/// The path of a file found in an unpacked archive, relative to the unpacking directory.
pub fn to_relative_archive_path(base_dir: &str, absolute_path: &str) -> (r: Result<String, String>)
    ensures
        match (r, relative_archive_path(base_dir@, absolute_path@)) {
            (Ok(a), Ok(b)) => a@ == b,
            (Err(a), Err(b)) => a@ == b,
            _ => false,
        },
{
    let p = chars_of(absolute_path);
    let b = chars_of(base_dir);
    match strip_prefix_exec(p.as_slice(), b.as_slice()) {
        None => {
            let mut m = chars_of("Detected startup file is outside the temp extract dir: ");
            append_str(&mut m, absolute_path);
            Err(string_from(m.as_slice()))
        },
        Some(cs) => {
            if cs.len() == 0 {
                Err(owned("Detected startup file path is empty"))
            } else {
                let j = join_components_exec(&cs);
                let t = slashes_exec(j.as_slice());
                Ok(string_from(t.as_slice()))
            }
        },
    }
}

/// No candidate is listed after one that it comes before.
pub open spec fn ranked(s: Seq<CandidateView>) -> bool {
    forall|i: int, j: int| 0 <= i < j < s.len() ==> !cand_before(#[trigger] s[j], #[trigger] s[i])
}

proof fn lemma_cand_le_trans(a: CandidateView, b: CandidateView, c: CandidateView)
    requires
        !cand_before(b, a),
        !cand_before(c, b),
    ensures
        !cand_before(c, a),
{
    lemma_seq_lt_total(a.label, b.label);
    lemma_seq_lt_total(b.label, c.label);
    if cand_before(c, a) {
        if c.rank == a.rank && a.rank == b.rank && b.rank == c.rank {
            if seq_lt(a.label, b.label) {
                lemma_seq_lt_trans(c.label, a.label, b.label);
            }
        }
    }
}

proof fn lemma_cand_asym(a: CandidateView, b: CandidateView)
    requires
        cand_before(a, b),
    ensures
        !cand_before(b, a),
{
    if a.rank == b.rank {
        lemma_seq_lt_asym(a.label, b.label);
    }
}

/// Where [`insert_by_rank`] puts its candidate.
pub open spec fn rank_insert_pos(t: Seq<CandidateView>, x: CandidateView) -> int
    decreases t.len(),
{
    if t.len() == 0 {
        0
    } else if cand_before(x, t.last()) {
        rank_insert_pos(t.drop_last(), x)
    } else {
        t.len() as int
    }
}

proof fn lemma_rank_insert_pos(t: Seq<CandidateView>, x: CandidateView)
    ensures
        0 <= rank_insert_pos(t, x) <= t.len(),
        insert_by_rank(t, x) == t.insert(rank_insert_pos(t, x), x),
        forall|k: int| rank_insert_pos(t, x) <= k < t.len() ==> cand_before(x, #[trigger] t[k]),
        rank_insert_pos(t, x) > 0 ==> !cand_before(x, t[rank_insert_pos(t, x) - 1]),
    decreases t.len(),
{
    if t.len() == 0 {
        assert(t.insert(0, x) =~= seq![x]);
    } else if cand_before(x, t.last()) {
        lemma_rank_insert_pos(t.drop_last(), x);
        let p = rank_insert_pos(t, x);
        assert(t.insert(p, x) =~= t.drop_last().insert(p, x).push(t.last()));
        assert forall|k: int| p <= k < t.len() implies cand_before(x, #[trigger] t[k]) by {
            if k < t.len() - 1 {
                assert(t[k] == t.drop_last()[k]);
            }
        }
        if p > 0 {
            assert(t[p - 1] == t.drop_last()[p - 1]);
        }
    } else {
        assert(t.insert(t.len() as int, x) =~= t.push(x));
    }
}

proof fn lemma_insert_ranked(t: Seq<CandidateView>, x: CandidateView)
    requires
        ranked(t),
    ensures
        ranked(insert_by_rank(t, x)),
        insert_by_rank(t, x).to_multiset() == t.to_multiset().insert(x),
{
    lemma_rank_insert_pos(t, x);
    let p = rank_insert_pos(t, x);
    let r = t.insert(p, x);
    vstd::seq_lib::to_multiset_insert(t, p, x);
    assert forall|i: int, j: int| 0 <= i < j < r.len() implies !cand_before(#[trigger] r[j], #[trigger] r[i]) by {
        if j < p {
            assert(r[i] == t[i] && r[j] == t[j]);
        } else if j == p {
            assert(r[i] == t[i]);
            assert(!cand_before(x, t[p - 1]));
            if i < p - 1 {
                assert(!cand_before(t[p - 1], t[i]));
                lemma_cand_le_trans(t[i], t[p - 1], x);
            }
        } else if i == p {
            assert(r[j] == t[j - 1]);
            assert(cand_before(x, t[j - 1]));
            lemma_cand_asym(x, t[j - 1]);
        } else if i < p {
            assert(r[i] == t[i] && r[j] == t[j - 1]);
        } else {
            assert(r[i] == t[i - 1] && r[j] == t[j - 1]);
        }
    }
}

/// Candidates come out of the sort ordered by rank, then label, and none is lost or added.
pub proof fn lemma_sort_by_rank(s: Seq<CandidateView>)
    ensures
        ranked(sort_by_rank(s)),
        sort_by_rank(s).to_multiset() == s.to_multiset(),
    decreases s.len(),
{
    if s.len() == 0 {
        assert(sort_by_rank(s) =~= s);
    } else {
        lemma_sort_by_rank(s.drop_last());
        lemma_insert_ranked(sort_by_rank(s.drop_last()), s.last());
        vstd::seq_lib::to_multiset_build(s.drop_last(), s.last());
        assert(s.drop_last().push(s.last()) == s);
    }
}

/// The best evidence is kept: after new evidence, the best is the new evidence when it comes
/// before the old best, and the old best otherwise.
pub proof fn lemma_detected_keeps_best(d: Option<DetectedView>, rank: u8, label: Seq<char>, info: CoreInfoView)
    ensures
        detected_after(d, rank, label, info) is Some,
        match (d, detected_after(d, rank, label, info)) {
            (Some(b), Some(n)) => n == b || evidence_before(n, b),
            _ => true,
        },
{
}


/// A main class that differs from the NeoForge starter prefix in one of its first characters,
/// or is shorter than it, does not start with it.
proof fn lemma_not_starter(m: Seq<char>)
    requires
        m.len() < STARTER_MAIN_CLASS_PREFIX@.len() || m[0] != 'n' || m[4] != 'n',
    ensures
        !starts_with(m, STARTER_MAIN_CLASS_PREFIX@),
{
    reveal_strlit("net.neoforged.serverstarterjar");
    if starts_with(m, STARTER_MAIN_CLASS_PREFIX@) {
        assert(m.subrange(0, 30)[0] == m[0]);
        assert(m.subrange(0, 30)[4] == m[4]);
    }
}

/// Each known server main class names a fixed core, as the launchers of those cores are
/// built: the vanilla server and its bundler are vanilla, Paperclip is Paper, and so on; the
/// vanilla client names none.
pub proof fn lemma_known_main_classes()
    ensures
        main_class_core("net.minecraft.server.MinecraftServer"@) == Some("vanilla"@),
        main_class_core("net.minecraft.bundler.Main"@) == Some("vanilla"@),
        main_class_core("net.minecraftforge.installer.SimpleInstaller"@) == Some("forge"@),
        main_class_core("net.fabricmc.installer.Main"@) == Some("fabric"@),
        main_class_core("net.fabricmc.installer.ServerLauncher"@) == Some("fabric"@),
        main_class_core("io.izzel.arclight.server.Launcher"@) == Some("arclight_forge"@),
        main_class_core("catserver.server.CatServerLaunch"@) == Some("catserver"@),
        main_class_core("foxlaunch.FoxServerLauncher"@) == Some("catserver"@),
        main_class_core("org.bukkit.craftbukkit.Main"@) == Some("bukkit"@),
        main_class_core("org.bukkit.craftbukkit.bootstrap.Main"@) == Some("bukkit"@),
        main_class_core("io.papermc.paperclip.Main"@) == Some("paper"@),
        main_class_core("com.destroystokyo.paperclip.Paperclip"@) == Some("paper"@),
        main_class_core("org.leavesmc.leavesclip.Main"@) == Some("leaves"@),
        main_class_core("net.md_5.bungee.Bootstrap"@) == Some("lightfall"@),
        main_class_core("com.mohistmc.MohistMCStart"@) == Some("mohist"@),
        main_class_core("com.mohistmc.MohistMC"@) == Some("mohist"@),
        main_class_core("com.velocitypowered.proxy.Velocity"@) == Some("velocity"@),
        main_class_core("net.minecraft.client.Main"@) is None,
{
    assert(main_class_core("net.minecraft.server.MinecraftServer"@) == Some("vanilla"@)) by {
        reveal_strlit("catserver.server.CatServerLaunch");
        reveal_strlit("com.destroystokyo.paperclip.Paperclip");
        reveal_strlit("com.mohistmc.MohistMC");
        reveal_strlit("com.mohistmc.MohistMCStart");
        reveal_strlit("com.velocitypowered.proxy.Velocity");
        reveal_strlit("foxlaunch.FoxServerLauncher");
        reveal_strlit("io.izzel.arclight.server.Launcher");
        reveal_strlit("io.papermc.paperclip.Main");
        reveal_strlit("net.fabricmc.installer.Main");
        reveal_strlit("net.fabricmc.installer.ServerLauncher");
        reveal_strlit("net.md_5.bungee.Bootstrap");
        reveal_strlit("net.minecraft.bundler.Main");
        reveal_strlit("net.minecraft.client.Main");
        reveal_strlit("net.minecraft.server.MinecraftServer");
        reveal_strlit("net.minecraftforge.installer.SimpleInstaller");
        reveal_strlit("org.bukkit.craftbukkit.Main");
        reveal_strlit("org.bukkit.craftbukkit.bootstrap.Main");
        reveal_strlit("org.leavesmc.leavesclip.Main");
        reveal_strlit("vanilla");
        reveal_strlit("net.neoforged.serverstarterjar");
        lemma_not_starter("net.minecraft.server.MinecraftServer"@);
    }
    assert(main_class_core("net.minecraft.bundler.Main"@) == Some("vanilla"@)) by {
        reveal_strlit("catserver.server.CatServerLaunch");
        reveal_strlit("com.destroystokyo.paperclip.Paperclip");
        reveal_strlit("com.mohistmc.MohistMC");
        reveal_strlit("com.mohistmc.MohistMCStart");
        reveal_strlit("com.velocitypowered.proxy.Velocity");
        reveal_strlit("foxlaunch.FoxServerLauncher");
        reveal_strlit("io.izzel.arclight.server.Launcher");
        reveal_strlit("io.papermc.paperclip.Main");
        reveal_strlit("net.fabricmc.installer.Main");
        reveal_strlit("net.fabricmc.installer.ServerLauncher");
        reveal_strlit("net.md_5.bungee.Bootstrap");
        reveal_strlit("net.minecraft.bundler.Main");
        reveal_strlit("net.minecraft.client.Main");
        reveal_strlit("net.minecraft.server.MinecraftServer");
        reveal_strlit("net.minecraftforge.installer.SimpleInstaller");
        reveal_strlit("org.bukkit.craftbukkit.Main");
        reveal_strlit("org.bukkit.craftbukkit.bootstrap.Main");
        reveal_strlit("org.leavesmc.leavesclip.Main");
        reveal_strlit("vanilla");
        reveal_strlit("net.neoforged.serverstarterjar");
        lemma_not_starter("net.minecraft.bundler.Main"@);
    }
    assert(main_class_core("net.minecraftforge.installer.SimpleInstaller"@) == Some("forge"@)) by {
        reveal_strlit("catserver.server.CatServerLaunch");
        reveal_strlit("com.destroystokyo.paperclip.Paperclip");
        reveal_strlit("com.mohistmc.MohistMC");
        reveal_strlit("com.mohistmc.MohistMCStart");
        reveal_strlit("com.velocitypowered.proxy.Velocity");
        reveal_strlit("forge");
        reveal_strlit("foxlaunch.FoxServerLauncher");
        reveal_strlit("io.izzel.arclight.server.Launcher");
        reveal_strlit("io.papermc.paperclip.Main");
        reveal_strlit("net.fabricmc.installer.Main");
        reveal_strlit("net.fabricmc.installer.ServerLauncher");
        reveal_strlit("net.md_5.bungee.Bootstrap");
        reveal_strlit("net.minecraft.bundler.Main");
        reveal_strlit("net.minecraft.client.Main");
        reveal_strlit("net.minecraft.server.MinecraftServer");
        reveal_strlit("net.minecraftforge.installer.SimpleInstaller");
        reveal_strlit("org.bukkit.craftbukkit.Main");
        reveal_strlit("org.bukkit.craftbukkit.bootstrap.Main");
        reveal_strlit("org.leavesmc.leavesclip.Main");
        reveal_strlit("net.neoforged.serverstarterjar");
        lemma_not_starter("net.minecraftforge.installer.SimpleInstaller"@);
    }
    assert(main_class_core("net.fabricmc.installer.Main"@) == Some("fabric"@)) by {
        reveal_strlit("catserver.server.CatServerLaunch");
        reveal_strlit("com.destroystokyo.paperclip.Paperclip");
        reveal_strlit("com.mohistmc.MohistMC");
        reveal_strlit("com.mohistmc.MohistMCStart");
        reveal_strlit("com.velocitypowered.proxy.Velocity");
        reveal_strlit("fabric");
        reveal_strlit("foxlaunch.FoxServerLauncher");
        reveal_strlit("io.izzel.arclight.server.Launcher");
        reveal_strlit("io.papermc.paperclip.Main");
        reveal_strlit("net.fabricmc.installer.Main");
        reveal_strlit("net.fabricmc.installer.ServerLauncher");
        reveal_strlit("net.md_5.bungee.Bootstrap");
        reveal_strlit("net.minecraft.bundler.Main");
        reveal_strlit("net.minecraft.client.Main");
        reveal_strlit("net.minecraft.server.MinecraftServer");
        reveal_strlit("net.minecraftforge.installer.SimpleInstaller");
        reveal_strlit("org.bukkit.craftbukkit.Main");
        reveal_strlit("org.bukkit.craftbukkit.bootstrap.Main");
        reveal_strlit("org.leavesmc.leavesclip.Main");
        reveal_strlit("net.neoforged.serverstarterjar");
        lemma_not_starter("net.fabricmc.installer.Main"@);
    }
    assert(main_class_core("net.fabricmc.installer.ServerLauncher"@) == Some("fabric"@)) by {
        reveal_strlit("catserver.server.CatServerLaunch");
        reveal_strlit("com.destroystokyo.paperclip.Paperclip");
        reveal_strlit("com.mohistmc.MohistMC");
        reveal_strlit("com.mohistmc.MohistMCStart");
        reveal_strlit("com.velocitypowered.proxy.Velocity");
        reveal_strlit("fabric");
        reveal_strlit("foxlaunch.FoxServerLauncher");
        reveal_strlit("io.izzel.arclight.server.Launcher");
        reveal_strlit("io.papermc.paperclip.Main");
        reveal_strlit("net.fabricmc.installer.Main");
        reveal_strlit("net.fabricmc.installer.ServerLauncher");
        reveal_strlit("net.md_5.bungee.Bootstrap");
        reveal_strlit("net.minecraft.bundler.Main");
        reveal_strlit("net.minecraft.client.Main");
        reveal_strlit("net.minecraft.server.MinecraftServer");
        reveal_strlit("net.minecraftforge.installer.SimpleInstaller");
        reveal_strlit("org.bukkit.craftbukkit.Main");
        reveal_strlit("org.bukkit.craftbukkit.bootstrap.Main");
        reveal_strlit("org.leavesmc.leavesclip.Main");
        reveal_strlit("net.neoforged.serverstarterjar");
        lemma_not_starter("net.fabricmc.installer.ServerLauncher"@);
    }
    assert(main_class_core("io.izzel.arclight.server.Launcher"@) == Some("arclight_forge"@)) by {
        reveal_strlit("arclight_forge");
        reveal_strlit("catserver.server.CatServerLaunch");
        reveal_strlit("com.destroystokyo.paperclip.Paperclip");
        reveal_strlit("com.mohistmc.MohistMC");
        reveal_strlit("com.mohistmc.MohistMCStart");
        reveal_strlit("com.velocitypowered.proxy.Velocity");
        reveal_strlit("foxlaunch.FoxServerLauncher");
        reveal_strlit("io.izzel.arclight.server.Launcher");
        reveal_strlit("io.papermc.paperclip.Main");
        reveal_strlit("net.fabricmc.installer.Main");
        reveal_strlit("net.fabricmc.installer.ServerLauncher");
        reveal_strlit("net.md_5.bungee.Bootstrap");
        reveal_strlit("net.minecraft.bundler.Main");
        reveal_strlit("net.minecraft.client.Main");
        reveal_strlit("net.minecraft.server.MinecraftServer");
        reveal_strlit("net.minecraftforge.installer.SimpleInstaller");
        reveal_strlit("org.bukkit.craftbukkit.Main");
        reveal_strlit("org.bukkit.craftbukkit.bootstrap.Main");
        reveal_strlit("org.leavesmc.leavesclip.Main");
        reveal_strlit("net.neoforged.serverstarterjar");
        lemma_not_starter("io.izzel.arclight.server.Launcher"@);
    }
    assert(main_class_core("catserver.server.CatServerLaunch"@) == Some("catserver"@)) by {
        reveal_strlit("catserver");
        reveal_strlit("catserver.server.CatServerLaunch");
        reveal_strlit("com.destroystokyo.paperclip.Paperclip");
        reveal_strlit("com.mohistmc.MohistMC");
        reveal_strlit("com.mohistmc.MohistMCStart");
        reveal_strlit("com.velocitypowered.proxy.Velocity");
        reveal_strlit("foxlaunch.FoxServerLauncher");
        reveal_strlit("io.izzel.arclight.server.Launcher");
        reveal_strlit("io.papermc.paperclip.Main");
        reveal_strlit("net.fabricmc.installer.Main");
        reveal_strlit("net.fabricmc.installer.ServerLauncher");
        reveal_strlit("net.md_5.bungee.Bootstrap");
        reveal_strlit("net.minecraft.bundler.Main");
        reveal_strlit("net.minecraft.client.Main");
        reveal_strlit("net.minecraft.server.MinecraftServer");
        reveal_strlit("net.minecraftforge.installer.SimpleInstaller");
        reveal_strlit("org.bukkit.craftbukkit.Main");
        reveal_strlit("org.bukkit.craftbukkit.bootstrap.Main");
        reveal_strlit("org.leavesmc.leavesclip.Main");
        reveal_strlit("net.neoforged.serverstarterjar");
        lemma_not_starter("catserver.server.CatServerLaunch"@);
    }
    assert(main_class_core("foxlaunch.FoxServerLauncher"@) == Some("catserver"@)) by {
        reveal_strlit("catserver");
        reveal_strlit("catserver.server.CatServerLaunch");
        reveal_strlit("com.destroystokyo.paperclip.Paperclip");
        reveal_strlit("com.mohistmc.MohistMC");
        reveal_strlit("com.mohistmc.MohistMCStart");
        reveal_strlit("com.velocitypowered.proxy.Velocity");
        reveal_strlit("foxlaunch.FoxServerLauncher");
        reveal_strlit("io.izzel.arclight.server.Launcher");
        reveal_strlit("io.papermc.paperclip.Main");
        reveal_strlit("net.fabricmc.installer.Main");
        reveal_strlit("net.fabricmc.installer.ServerLauncher");
        reveal_strlit("net.md_5.bungee.Bootstrap");
        reveal_strlit("net.minecraft.bundler.Main");
        reveal_strlit("net.minecraft.client.Main");
        reveal_strlit("net.minecraft.server.MinecraftServer");
        reveal_strlit("net.minecraftforge.installer.SimpleInstaller");
        reveal_strlit("org.bukkit.craftbukkit.Main");
        reveal_strlit("org.bukkit.craftbukkit.bootstrap.Main");
        reveal_strlit("org.leavesmc.leavesclip.Main");
        reveal_strlit("net.neoforged.serverstarterjar");
        lemma_not_starter("foxlaunch.FoxServerLauncher"@);
        assert("foxlaunch.FoxServerLauncher"@[0] != "net.fabricmc.installer.Main"@[0]);
    }
    assert(main_class_core("org.bukkit.craftbukkit.Main"@) == Some("bukkit"@)) by {
        reveal_strlit("bukkit");
        reveal_strlit("catserver.server.CatServerLaunch");
        reveal_strlit("com.destroystokyo.paperclip.Paperclip");
        reveal_strlit("com.mohistmc.MohistMC");
        reveal_strlit("com.mohistmc.MohistMCStart");
        reveal_strlit("com.velocitypowered.proxy.Velocity");
        reveal_strlit("foxlaunch.FoxServerLauncher");
        reveal_strlit("io.izzel.arclight.server.Launcher");
        reveal_strlit("io.papermc.paperclip.Main");
        reveal_strlit("net.fabricmc.installer.Main");
        reveal_strlit("net.fabricmc.installer.ServerLauncher");
        reveal_strlit("net.md_5.bungee.Bootstrap");
        reveal_strlit("net.minecraft.bundler.Main");
        reveal_strlit("net.minecraft.client.Main");
        reveal_strlit("net.minecraft.server.MinecraftServer");
        reveal_strlit("net.minecraftforge.installer.SimpleInstaller");
        reveal_strlit("org.bukkit.craftbukkit.Main");
        reveal_strlit("org.bukkit.craftbukkit.bootstrap.Main");
        reveal_strlit("org.leavesmc.leavesclip.Main");
        reveal_strlit("net.neoforged.serverstarterjar");
        lemma_not_starter("org.bukkit.craftbukkit.Main"@);
        assert("org.bukkit.craftbukkit.Main"@[0] != "net.fabricmc.installer.Main"@[0]);
        assert("org.bukkit.craftbukkit.Main"@[0] != "foxlaunch.FoxServerLauncher"@[0]);
    }
    assert(main_class_core("org.bukkit.craftbukkit.bootstrap.Main"@) == Some("bukkit"@)) by {
        reveal_strlit("bukkit");
        reveal_strlit("catserver.server.CatServerLaunch");
        reveal_strlit("com.destroystokyo.paperclip.Paperclip");
        reveal_strlit("com.mohistmc.MohistMC");
        reveal_strlit("com.mohistmc.MohistMCStart");
        reveal_strlit("com.velocitypowered.proxy.Velocity");
        reveal_strlit("foxlaunch.FoxServerLauncher");
        reveal_strlit("io.izzel.arclight.server.Launcher");
        reveal_strlit("io.papermc.paperclip.Main");
        reveal_strlit("net.fabricmc.installer.Main");
        reveal_strlit("net.fabricmc.installer.ServerLauncher");
        reveal_strlit("net.md_5.bungee.Bootstrap");
        reveal_strlit("net.minecraft.bundler.Main");
        reveal_strlit("net.minecraft.client.Main");
        reveal_strlit("net.minecraft.server.MinecraftServer");
        reveal_strlit("net.minecraftforge.installer.SimpleInstaller");
        reveal_strlit("org.bukkit.craftbukkit.Main");
        reveal_strlit("org.bukkit.craftbukkit.bootstrap.Main");
        reveal_strlit("org.leavesmc.leavesclip.Main");
        reveal_strlit("net.neoforged.serverstarterjar");
        lemma_not_starter("org.bukkit.craftbukkit.bootstrap.Main"@);
        assert("org.bukkit.craftbukkit.bootstrap.Main"@[0] != "net.fabricmc.installer.ServerLauncher"@[0]);
    }
    assert(main_class_core("io.papermc.paperclip.Main"@) == Some("paper"@)) by {
        reveal_strlit("catserver.server.CatServerLaunch");
        reveal_strlit("com.destroystokyo.paperclip.Paperclip");
        reveal_strlit("com.mohistmc.MohistMC");
        reveal_strlit("com.mohistmc.MohistMCStart");
        reveal_strlit("com.velocitypowered.proxy.Velocity");
        reveal_strlit("foxlaunch.FoxServerLauncher");
        reveal_strlit("io.izzel.arclight.server.Launcher");
        reveal_strlit("io.papermc.paperclip.Main");
        reveal_strlit("net.fabricmc.installer.Main");
        reveal_strlit("net.fabricmc.installer.ServerLauncher");
        reveal_strlit("net.md_5.bungee.Bootstrap");
        reveal_strlit("net.minecraft.bundler.Main");
        reveal_strlit("net.minecraft.client.Main");
        reveal_strlit("net.minecraft.server.MinecraftServer");
        reveal_strlit("net.minecraftforge.installer.SimpleInstaller");
        reveal_strlit("org.bukkit.craftbukkit.Main");
        reveal_strlit("org.bukkit.craftbukkit.bootstrap.Main");
        reveal_strlit("org.leavesmc.leavesclip.Main");
        reveal_strlit("paper");
        reveal_strlit("net.neoforged.serverstarterjar");
        lemma_not_starter("io.papermc.paperclip.Main"@);
        assert("io.papermc.paperclip.Main"@[0] != "net.minecraft.client.Main"@[0]);
    }
    assert(main_class_core("com.destroystokyo.paperclip.Paperclip"@) == Some("paper"@)) by {
        reveal_strlit("catserver.server.CatServerLaunch");
        reveal_strlit("com.destroystokyo.paperclip.Paperclip");
        reveal_strlit("com.mohistmc.MohistMC");
        reveal_strlit("com.mohistmc.MohistMCStart");
        reveal_strlit("com.velocitypowered.proxy.Velocity");
        reveal_strlit("foxlaunch.FoxServerLauncher");
        reveal_strlit("io.izzel.arclight.server.Launcher");
        reveal_strlit("io.papermc.paperclip.Main");
        reveal_strlit("net.fabricmc.installer.Main");
        reveal_strlit("net.fabricmc.installer.ServerLauncher");
        reveal_strlit("net.md_5.bungee.Bootstrap");
        reveal_strlit("net.minecraft.bundler.Main");
        reveal_strlit("net.minecraft.client.Main");
        reveal_strlit("net.minecraft.server.MinecraftServer");
        reveal_strlit("net.minecraftforge.installer.SimpleInstaller");
        reveal_strlit("org.bukkit.craftbukkit.Main");
        reveal_strlit("org.bukkit.craftbukkit.bootstrap.Main");
        reveal_strlit("org.leavesmc.leavesclip.Main");
        reveal_strlit("paper");
        reveal_strlit("net.neoforged.serverstarterjar");
        lemma_not_starter("com.destroystokyo.paperclip.Paperclip"@);
        assert("com.destroystokyo.paperclip.Paperclip"@[0] != "net.fabricmc.installer.ServerLauncher"@[0]);
        assert("com.destroystokyo.paperclip.Paperclip"@[0] != "org.bukkit.craftbukkit.bootstrap.Main"@[0]);
    }
    assert(main_class_core("org.leavesmc.leavesclip.Main"@) == Some("leaves"@)) by {
        reveal_strlit("catserver.server.CatServerLaunch");
        reveal_strlit("com.destroystokyo.paperclip.Paperclip");
        reveal_strlit("com.mohistmc.MohistMC");
        reveal_strlit("com.mohistmc.MohistMCStart");
        reveal_strlit("com.velocitypowered.proxy.Velocity");
        reveal_strlit("foxlaunch.FoxServerLauncher");
        reveal_strlit("io.izzel.arclight.server.Launcher");
        reveal_strlit("io.papermc.paperclip.Main");
        reveal_strlit("leaves");
        reveal_strlit("net.fabricmc.installer.Main");
        reveal_strlit("net.fabricmc.installer.ServerLauncher");
        reveal_strlit("net.md_5.bungee.Bootstrap");
        reveal_strlit("net.minecraft.bundler.Main");
        reveal_strlit("net.minecraft.client.Main");
        reveal_strlit("net.minecraft.server.MinecraftServer");
        reveal_strlit("net.minecraftforge.installer.SimpleInstaller");
        reveal_strlit("org.bukkit.craftbukkit.Main");
        reveal_strlit("org.bukkit.craftbukkit.bootstrap.Main");
        reveal_strlit("org.leavesmc.leavesclip.Main");
        reveal_strlit("net.neoforged.serverstarterjar");
        lemma_not_starter("org.leavesmc.leavesclip.Main"@);
    }
    assert(main_class_core("net.md_5.bungee.Bootstrap"@) == Some("lightfall"@)) by {
        reveal_strlit("catserver.server.CatServerLaunch");
        reveal_strlit("com.destroystokyo.paperclip.Paperclip");
        reveal_strlit("com.mohistmc.MohistMC");
        reveal_strlit("com.mohistmc.MohistMCStart");
        reveal_strlit("com.velocitypowered.proxy.Velocity");
        reveal_strlit("foxlaunch.FoxServerLauncher");
        reveal_strlit("io.izzel.arclight.server.Launcher");
        reveal_strlit("io.papermc.paperclip.Main");
        reveal_strlit("lightfall");
        reveal_strlit("net.fabricmc.installer.Main");
        reveal_strlit("net.fabricmc.installer.ServerLauncher");
        reveal_strlit("net.md_5.bungee.Bootstrap");
        reveal_strlit("net.minecraft.bundler.Main");
        reveal_strlit("net.minecraft.client.Main");
        reveal_strlit("net.minecraft.server.MinecraftServer");
        reveal_strlit("net.minecraftforge.installer.SimpleInstaller");
        reveal_strlit("org.bukkit.craftbukkit.Main");
        reveal_strlit("org.bukkit.craftbukkit.bootstrap.Main");
        reveal_strlit("org.leavesmc.leavesclip.Main");
        reveal_strlit("net.neoforged.serverstarterjar");
        lemma_not_starter("net.md_5.bungee.Bootstrap"@);
        assert("net.md_5.bungee.Bootstrap"@[5] != "net.minecraft.client.Main"@[5]);
        assert("net.md_5.bungee.Bootstrap"@[0] != "io.papermc.paperclip.Main"@[0]);
    }
    assert(main_class_core("com.mohistmc.MohistMCStart"@) == Some("mohist"@)) by {
        reveal_strlit("catserver.server.CatServerLaunch");
        reveal_strlit("com.destroystokyo.paperclip.Paperclip");
        reveal_strlit("com.mohistmc.MohistMC");
        reveal_strlit("com.mohistmc.MohistMCStart");
        reveal_strlit("com.velocitypowered.proxy.Velocity");
        reveal_strlit("foxlaunch.FoxServerLauncher");
        reveal_strlit("io.izzel.arclight.server.Launcher");
        reveal_strlit("io.papermc.paperclip.Main");
        reveal_strlit("mohist");
        reveal_strlit("net.fabricmc.installer.Main");
        reveal_strlit("net.fabricmc.installer.ServerLauncher");
        reveal_strlit("net.md_5.bungee.Bootstrap");
        reveal_strlit("net.minecraft.bundler.Main");
        reveal_strlit("net.minecraft.client.Main");
        reveal_strlit("net.minecraft.server.MinecraftServer");
        reveal_strlit("net.minecraftforge.installer.SimpleInstaller");
        reveal_strlit("org.bukkit.craftbukkit.Main");
        reveal_strlit("org.bukkit.craftbukkit.bootstrap.Main");
        reveal_strlit("org.leavesmc.leavesclip.Main");
        reveal_strlit("net.neoforged.serverstarterjar");
        lemma_not_starter("com.mohistmc.MohistMCStart"@);
        assert("com.mohistmc.MohistMCStart"@[0] != "net.minecraft.bundler.Main"@[0]);
    }
    assert(main_class_core("com.mohistmc.MohistMC"@) == Some("mohist"@)) by {
        reveal_strlit("catserver.server.CatServerLaunch");
        reveal_strlit("com.destroystokyo.paperclip.Paperclip");
        reveal_strlit("com.mohistmc.MohistMC");
        reveal_strlit("com.mohistmc.MohistMCStart");
        reveal_strlit("com.velocitypowered.proxy.Velocity");
        reveal_strlit("foxlaunch.FoxServerLauncher");
        reveal_strlit("io.izzel.arclight.server.Launcher");
        reveal_strlit("io.papermc.paperclip.Main");
        reveal_strlit("mohist");
        reveal_strlit("net.fabricmc.installer.Main");
        reveal_strlit("net.fabricmc.installer.ServerLauncher");
        reveal_strlit("net.md_5.bungee.Bootstrap");
        reveal_strlit("net.minecraft.bundler.Main");
        reveal_strlit("net.minecraft.client.Main");
        reveal_strlit("net.minecraft.server.MinecraftServer");
        reveal_strlit("net.minecraftforge.installer.SimpleInstaller");
        reveal_strlit("org.bukkit.craftbukkit.Main");
        reveal_strlit("org.bukkit.craftbukkit.bootstrap.Main");
        reveal_strlit("org.leavesmc.leavesclip.Main");
        reveal_strlit("net.neoforged.serverstarterjar");
        lemma_not_starter("com.mohistmc.MohistMC"@);
    }
    assert(main_class_core("com.velocitypowered.proxy.Velocity"@) == Some("velocity"@)) by {
        reveal_strlit("catserver.server.CatServerLaunch");
        reveal_strlit("com.destroystokyo.paperclip.Paperclip");
        reveal_strlit("com.mohistmc.MohistMC");
        reveal_strlit("com.mohistmc.MohistMCStart");
        reveal_strlit("com.velocitypowered.proxy.Velocity");
        reveal_strlit("foxlaunch.FoxServerLauncher");
        reveal_strlit("io.izzel.arclight.server.Launcher");
        reveal_strlit("io.papermc.paperclip.Main");
        reveal_strlit("net.fabricmc.installer.Main");
        reveal_strlit("net.fabricmc.installer.ServerLauncher");
        reveal_strlit("net.md_5.bungee.Bootstrap");
        reveal_strlit("net.minecraft.bundler.Main");
        reveal_strlit("net.minecraft.client.Main");
        reveal_strlit("net.minecraft.server.MinecraftServer");
        reveal_strlit("net.minecraftforge.installer.SimpleInstaller");
        reveal_strlit("org.bukkit.craftbukkit.Main");
        reveal_strlit("org.bukkit.craftbukkit.bootstrap.Main");
        reveal_strlit("org.leavesmc.leavesclip.Main");
        reveal_strlit("velocity");
        reveal_strlit("net.neoforged.serverstarterjar");
        lemma_not_starter("com.velocitypowered.proxy.Velocity"@);
    }
    assert(main_class_core("net.minecraft.client.Main"@) is None) by {
        reveal_strlit("catserver.server.CatServerLaunch");
        reveal_strlit("com.destroystokyo.paperclip.Paperclip");
        reveal_strlit("com.mohistmc.MohistMC");
        reveal_strlit("com.mohistmc.MohistMCStart");
        reveal_strlit("com.velocitypowered.proxy.Velocity");
        reveal_strlit("foxlaunch.FoxServerLauncher");
        reveal_strlit("io.izzel.arclight.server.Launcher");
        reveal_strlit("io.papermc.paperclip.Main");
        reveal_strlit("net.fabricmc.installer.Main");
        reveal_strlit("net.fabricmc.installer.ServerLauncher");
        reveal_strlit("net.md_5.bungee.Bootstrap");
        reveal_strlit("net.minecraft.bundler.Main");
        reveal_strlit("net.minecraft.client.Main");
        reveal_strlit("net.minecraft.server.MinecraftServer");
        reveal_strlit("net.minecraftforge.installer.SimpleInstaller");
        reveal_strlit("org.bukkit.craftbukkit.Main");
        reveal_strlit("org.bukkit.craftbukkit.bootstrap.Main");
        reveal_strlit("org.leavesmc.leavesclip.Main");
        reveal_strlit("net.neoforged.serverstarterjar");
        lemma_not_starter("net.minecraft.client.Main"@);
    }
}


/// Whatever its file name, a jar whose manifest names a known server main class of a core
/// other than Forge is detected as that core; one whose main class starts with the NeoForge
/// starter prefix is detected as NeoForge.
pub proof fn lemma_main_class_decides_core(jar_path: Seq<char>, main_class: Seq<char>)
    ensures
        starts_with(main_class, STARTER_MAIN_CLASS_PREFIX@) ==> detect_core_key(jar_path, Some(main_class))
            == Some("neoforge"@),
        detect_core_key(jar_path, Some("net.minecraft.server.MinecraftServer"@)) == Some("vanilla"@),
        detect_core_key(jar_path, Some("net.minecraft.bundler.Main"@)) == Some("vanilla"@),
        detect_core_key(jar_path, Some("net.fabricmc.installer.Main"@)) == Some("fabric"@),
        detect_core_key(jar_path, Some("net.fabricmc.installer.ServerLauncher"@)) == Some("fabric"@),
        detect_core_key(jar_path, Some("io.izzel.arclight.server.Launcher"@)) == Some("arclight_forge"@),
        detect_core_key(jar_path, Some("catserver.server.CatServerLaunch"@)) == Some("catserver"@),
        detect_core_key(jar_path, Some("foxlaunch.FoxServerLauncher"@)) == Some("catserver"@),
        detect_core_key(jar_path, Some("org.bukkit.craftbukkit.Main"@)) == Some("bukkit"@),
        detect_core_key(jar_path, Some("org.bukkit.craftbukkit.bootstrap.Main"@)) == Some("bukkit"@),
        detect_core_key(jar_path, Some("io.papermc.paperclip.Main"@)) == Some("paper"@),
        detect_core_key(jar_path, Some("com.destroystokyo.paperclip.Paperclip"@)) == Some("paper"@),
        detect_core_key(jar_path, Some("org.leavesmc.leavesclip.Main"@)) == Some("leaves"@),
        detect_core_key(jar_path, Some("net.md_5.bungee.Bootstrap"@)) == Some("lightfall"@),
        detect_core_key(jar_path, Some("com.mohistmc.MohistMCStart"@)) == Some("mohist"@),
        detect_core_key(jar_path, Some("com.mohistmc.MohistMC"@)) == Some("mohist"@),
        detect_core_key(jar_path, Some("com.velocitypowered.proxy.Velocity"@)) == Some("velocity"@),
{
    lemma_known_main_classes();
    reveal_strlit("arclight_forge");
    reveal_strlit("bukkit");
    reveal_strlit("catserver");
    reveal_strlit("fabric");
    reveal_strlit("forge");
    reveal_strlit("leaves");
    reveal_strlit("lightfall");
    reveal_strlit("mohist");
    reveal_strlit("paper");
    reveal_strlit("vanilla");
    reveal_strlit("velocity");
    reveal_strlit("neoforge");
    assert("paper"@[0] != "forge"@[0]);
}


/// The words whose presence in a lowercased jar file name marks it as a server jar.
pub open spec fn server_jar_keywords() -> Seq<Seq<char>> {
    seq!["server"@, "forge"@, "fabric"@, "neoforge"@, "mohist"@, "paper"@, "spigot"@, "purpur"@, "bukkit"@, "catserver"@, "arclight"@, "velocity"@, "waterfall"@, "bungee"@, "folia"@, "pufferfish"@, "leaves"@, "quilt"@]
}

/// The lowercased name holds one of the server-jar words.
pub open spec fn holds_server_jar_keyword(l: Seq<char>) -> bool {
    exists|i: int| 0 <= i < server_jar_keywords().len() && contains(l, #[trigger] server_jar_keywords()[i])
}

/// A jar file name takes the first rank exactly when it holds one of the server-jar words;
/// any other name takes the second.
pub proof fn lemma_jar_rank_by_keywords(l: Seq<char>)
    ensures
        holds_server_jar_keyword(l) ==> jar_rank(l) == 0,
        !holds_server_jar_keyword(l) ==> jar_rank(l) == 1,
{
    assert(server_jar_keywords().len() == 18);
    assert forall|i: int| 0 <= i < server_jar_keywords().len() && contains(l, #[trigger] server_jar_keywords()[i]) implies jar_rank(l) == 0 by {
        if i == 0 {
            assert(server_jar_keywords()[i] == "server"@);
        } else if i == 1 {
            assert(server_jar_keywords()[i] == "forge"@);
        } else if i == 2 {
            assert(server_jar_keywords()[i] == "fabric"@);
        } else if i == 3 {
            assert(server_jar_keywords()[i] == "neoforge"@);
        } else if i == 4 {
            assert(server_jar_keywords()[i] == "mohist"@);
        } else if i == 5 {
            assert(server_jar_keywords()[i] == "paper"@);
        } else if i == 6 {
            assert(server_jar_keywords()[i] == "spigot"@);
        } else if i == 7 {
            assert(server_jar_keywords()[i] == "purpur"@);
        } else if i == 8 {
            assert(server_jar_keywords()[i] == "bukkit"@);
        } else if i == 9 {
            assert(server_jar_keywords()[i] == "catserver"@);
        } else if i == 10 {
            assert(server_jar_keywords()[i] == "arclight"@);
        } else if i == 11 {
            assert(server_jar_keywords()[i] == "velocity"@);
        } else if i == 12 {
            assert(server_jar_keywords()[i] == "waterfall"@);
        } else if i == 13 {
            assert(server_jar_keywords()[i] == "bungee"@);
        } else if i == 14 {
            assert(server_jar_keywords()[i] == "folia"@);
        } else if i == 15 {
            assert(server_jar_keywords()[i] == "pufferfish"@);
        } else if i == 16 {
            assert(server_jar_keywords()[i] == "leaves"@);
        } else if i == 17 {
            assert(server_jar_keywords()[i] == "quilt"@);
        }
    }
    if jar_rank(l) == 0 {
        if contains(l, "server"@) {
            assert(server_jar_keywords()[0] == "server"@);
        } else if contains(l, "forge"@) {
            assert(server_jar_keywords()[1] == "forge"@);
        } else if contains(l, "fabric"@) {
            assert(server_jar_keywords()[2] == "fabric"@);
        } else if contains(l, "neoforge"@) {
            assert(server_jar_keywords()[3] == "neoforge"@);
        } else if contains(l, "mohist"@) {
            assert(server_jar_keywords()[4] == "mohist"@);
        } else if contains(l, "paper"@) {
            assert(server_jar_keywords()[5] == "paper"@);
        } else if contains(l, "spigot"@) {
            assert(server_jar_keywords()[6] == "spigot"@);
        } else if contains(l, "purpur"@) {
            assert(server_jar_keywords()[7] == "purpur"@);
        } else if contains(l, "bukkit"@) {
            assert(server_jar_keywords()[8] == "bukkit"@);
        } else if contains(l, "catserver"@) {
            assert(server_jar_keywords()[9] == "catserver"@);
        } else if contains(l, "arclight"@) {
            assert(server_jar_keywords()[10] == "arclight"@);
        } else if contains(l, "velocity"@) {
            assert(server_jar_keywords()[11] == "velocity"@);
        } else if contains(l, "waterfall"@) {
            assert(server_jar_keywords()[12] == "waterfall"@);
        } else if contains(l, "bungee"@) {
            assert(server_jar_keywords()[13] == "bungee"@);
        } else if contains(l, "folia"@) {
            assert(server_jar_keywords()[14] == "folia"@);
        } else if contains(l, "pufferfish"@) {
            assert(server_jar_keywords()[15] == "pufferfish"@);
        } else if contains(l, "leaves"@) {
            assert(server_jar_keywords()[16] == "leaves"@);
        } else if contains(l, "quilt"@) {
            assert(server_jar_keywords()[17] == "quilt"@);
        }
    }
}

/// Of two jars, one whose lowercased file name holds a server-jar word is preferred over one
/// whose name holds none, whatever else the names say.
pub proof fn lemma_telling_jar_preferred(a: Seq<char>, b: Seq<char>)
    requires
        holds_server_jar_keyword(jar_name(a)),
        !holds_server_jar_keyword(jar_name(b)),
    ensures
        jar_before(a, b),
        !jar_before(b, a),
{
    lemma_jar_rank_by_keywords(jar_name(a));
    lemma_jar_rank_by_keywords(jar_name(b));
}

} // verus!
