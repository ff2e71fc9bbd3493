//! Configuration discovery: which files of a server folder are configuration, and how each is
//! described. The walk over the folder is driven from outside; every decision is made here.
use vstd::prelude::*;
use crate::document::{format_of_extension, ConfigFormat};
use crate::flavor::{
    config_surfaces_for_core, format_named, lemma_core_surfaces_name_formats, surfaces_for_core, ConfigFormat as SurfaceFormat, ConfigSurface,
    ConfigSurfaceKind, ConfigSurfaceOwner,
};
use crate::paths::{
    extension, extension_exec, file_name, file_name_exec, join, join_components, join_components_exec,
    join_exec, slashes, slashes_exec, strip_prefix, strip_prefix_exec,
};
use crate::taxonomy::{core_key_of, spec_core_key, CoreKey};
use crate::text::{
    chars_of, contains, contains_str, ends_with, ends_with_str, eq_str, lower, lower_chars, norm,
    norm_chars, owned, seq_lt, seq_lt_exec, starts_with, starts_with_str, string_from, trim,
    trimmed_chars, lemma_seq_lt_irrefl, lemma_seq_lt_trans, lemma_seq_lt_total, lemma_seq_lt_asym,
};

verus! {

/// Directories scanned for generic configuration candidates by default.
pub const DEFAULT_GENERIC_SCAN_DIRS: [&'static str; 7] = [
    "plugins",
    "mods",
    "config",
    "configs",
    "defaultconfig",
    "defaultconfigs",
    "world/serverconfig",
];

/// Directory names that discovery never descends into by default.
pub const DEFAULT_EXCLUDED_DIRS: [&'static str; 10] = [
    ".git",
    ".idea",
    ".vscode",
    "cache",
    "caches",
    "crash-reports",
    "libraries",
    "logs",
    "versions",
    "userdata",
];

/// Every format is allowed by default.
pub open spec fn default_allowed_formats() -> Seq<ConfigFormat> {
    seq![
        ConfigFormat::Yaml,
        ConfigFormat::Toml,
        ConfigFormat::Json,
        ConfigFormat::Properties,
        ConfigFormat::Text,
    ]
}

pub fn default_allowed_formats_exec() -> (r: Vec<ConfigFormat>)
    ensures
        r@ == default_allowed_formats(),
{
    let mut v: Vec<ConfigFormat> = Vec::new();
    v.push(ConfigFormat::Yaml);
    v.push(ConfigFormat::Toml);
    v.push(ConfigFormat::Json);
    v.push(ConfigFormat::Properties);
    v.push(ConfigFormat::Text);
    assert(v@ =~= default_allowed_formats());
    v
}

#[derive(Debug, Clone, Copy, PartialEq, Eq, Structural)]
pub enum ConfigOwnerScope {
    ServerCore,
    Plugin,
    FallbackDirectory,
    Generic,
}

#[derive(Debug, Clone, Copy, PartialEq, Eq, Structural)]
pub enum ConfigEntrySource {
    ExplicitSurface,
    PluginDiscovery,
    FallbackDirectoryDiscovery,
    GenericRootScan,
    GenericRecursiveScan,
}

#[derive(Debug, Clone, Copy, PartialEq, Eq, PartialOrd, Ord, Structural)]
pub enum ConfigEntryConfidence {
    Explicit,
    Likely,
    Heuristic,
}

/// Why a file was taken for configuration.
#[derive(Debug, Clone, PartialEq, Eq)]
pub enum ConfigMatchReason {
    ExplicitSurfaceKey(String),
    RootPropertiesFallback,
    PluginDirectoryPattern,
    FallbackDirectoryPattern,
    GenericScanRoot(String),
}

pub enum ReasonView {
    ExplicitSurfaceKey(Seq<char>),
    RootPropertiesFallback,
    PluginDirectoryPattern,
    FallbackDirectoryPattern,
    GenericScanRoot(Seq<char>),
}

impl View for ConfigMatchReason {
    type V = ReasonView;

    open spec fn view(&self) -> ReasonView {
        match self {
            ConfigMatchReason::ExplicitSurfaceKey(k) => ReasonView::ExplicitSurfaceKey(k@),
            ConfigMatchReason::RootPropertiesFallback => ReasonView::RootPropertiesFallback,
            ConfigMatchReason::PluginDirectoryPattern => ReasonView::PluginDirectoryPattern,
            ConfigMatchReason::FallbackDirectoryPattern => ReasonView::FallbackDirectoryPattern,
            ConfigMatchReason::GenericScanRoot(r) => ReasonView::GenericScanRoot(r@),
        }
    }
}

fn copy_reason(r: &ConfigMatchReason) -> (c: ConfigMatchReason)
    ensures
        c@ == r@,
{
    match r {
        ConfigMatchReason::ExplicitSurfaceKey(k) => ConfigMatchReason::ExplicitSurfaceKey(k.clone()),
        ConfigMatchReason::RootPropertiesFallback => ConfigMatchReason::RootPropertiesFallback,
        ConfigMatchReason::PluginDirectoryPattern => ConfigMatchReason::PluginDirectoryPattern,
        ConfigMatchReason::FallbackDirectoryPattern => ConfigMatchReason::FallbackDirectoryPattern,
        ConfigMatchReason::GenericScanRoot(r) => ConfigMatchReason::GenericScanRoot(r.clone()),
    }
}

/// One configuration file found in a server folder. Paths are path texts.
#[derive(Debug, Clone, PartialEq, Eq)]
pub struct ConfigEntry {
    pub key: Option<String>,
    pub owner: ConfigOwnerScope,
    pub format: ConfigFormat,
    pub relative_path: String,
    pub absolute_path: String,
    pub source: ConfigEntrySource,
    pub confidence: ConfigEntryConfidence,
    pub reason: ConfigMatchReason,
}

pub struct EntryView {
    pub key: Option<Seq<char>>,
    pub owner: ConfigOwnerScope,
    pub format: ConfigFormat,
    pub relative_path: Seq<char>,
    pub absolute_path: Seq<char>,
    pub source: ConfigEntrySource,
    pub confidence: ConfigEntryConfidence,
    pub reason: ReasonView,
}

pub open spec fn opt_view(s: Option<String>) -> Option<Seq<char>> {
    match s {
        Some(s) => Some(s@),
        None => None,
    }
}

impl View for ConfigEntry {
    type V = EntryView;

    open spec fn view(&self) -> EntryView {
        EntryView {
            key: opt_view(self.key),
            owner: self.owner,
            format: self.format,
            relative_path: self.relative_path@,
            absolute_path: self.absolute_path@,
            source: self.source,
            confidence: self.confidence,
            reason: self.reason@,
        }
    }
}

pub open spec fn entry_views(v: Seq<ConfigEntry>) -> Seq<EntryView> {
    v.map_values(|e: ConfigEntry| e@)
}

/// The configuration files of a server core, by relative path.
#[derive(Debug, Clone, PartialEq, Eq)]
pub struct ConfigSurfaceCatalog {
    pub core_key: String,
    pub server_root: String,
    pub entries: Vec<ConfigEntry>,
}

/// Configuration-like files found by a generic scan, by relative path.
#[derive(Debug, Clone, PartialEq, Eq)]
pub struct ConfigCandidateCatalog {
    pub server_root: String,
    pub entries: Vec<ConfigEntry>,
}

#[derive(Debug, Clone, PartialEq, Eq)]
pub struct ConfigDiscoveryInput {
    pub core_key: String,
    pub server_root: String,
}

#[derive(Debug, Clone, PartialEq, Eq)]
pub struct GenericConfigDiscoveryInput {
    pub server_root: String,
    pub include_root_files: bool,
    pub scan_roots: Vec<String>,
    pub excluded_directories: Vec<String>,
    pub allowed_formats: Vec<ConfigFormat>,
    pub max_depth: Option<usize>,
}

/// Why discovery could not run.
#[derive(Debug, Clone, PartialEq, Eq)]
pub enum ConfigDiscoveryError {
    UnknownCoreKey(String),
    InvalidServerRoot(String),
    Io(String),
}

pub open spec fn string_views(v: Seq<String>) -> Seq<Seq<char>> {
    v.map_values(|x: String| x@)
}

pub open spec fn str_views(v: Seq<&str>) -> Seq<Seq<char>> {
    v.map_values(|x: &str| x@)
}

fn owned_all(v: &[&str]) -> (r: Vec<String>)
    ensures
        string_views(r@) == str_views(v@),
{
    let mut r: Vec<String> = Vec::new();
    let mut i: usize = 0;
    while i < v.len()
        invariant
            i <= v@.len(),
            string_views(r@) == str_views(v@).subrange(0, i as int),
        decreases v@.len() - i,
    {
        let ghost old_r = r@;
        r.push(owned(v[i]));
        assert(string_views(r@) =~= string_views(old_r).push(v@[i as int]@));
        i = i + 1;
    }
    assert(str_views(v@).subrange(0, v@.len() as int) =~= str_views(v@));
    r
}

impl ConfigDiscoveryInput {
    pub fn new(core_key: &str, server_root: &str) -> (r: Self)
        ensures
            r.core_key@ == core_key@,
            r.server_root@ == server_root@,
    {
        ConfigDiscoveryInput { core_key: owned(core_key), server_root: owned(server_root) }
    }
}

impl GenericConfigDiscoveryInput {
    /// A generic scan of the default roots: root files included, default exclusions, every
    /// format, at most eight levels deep.
    pub fn new(server_root: &str) -> (r: Self)
        ensures
            r.server_root@ == server_root@,
            r.include_root_files,
            string_views(r.scan_roots@) == str_views(DEFAULT_GENERIC_SCAN_DIRS@),
            string_views(r.excluded_directories@) == str_views(DEFAULT_EXCLUDED_DIRS@),
            r.allowed_formats@ == default_allowed_formats(),
            r.max_depth == Some(8usize),
    {
        let scan: &[&str] = &DEFAULT_GENERIC_SCAN_DIRS;
        let excluded: &[&str] = &DEFAULT_EXCLUDED_DIRS;
        GenericConfigDiscoveryInput {
            server_root: owned(server_root),
            include_root_files: true,
            scan_roots: owned_all(scan),
            excluded_directories: owned_all(excluded),
            allowed_formats: default_allowed_formats_exec(),
            max_depth: Some(8),
        }
    }
}

/// The owner scope of a surface owner.
pub open spec fn owner_scope(o: ConfigSurfaceOwner) -> ConfigOwnerScope {
    match o {
        ConfigSurfaceOwner::ServerCore => ConfigOwnerScope::ServerCore,
        ConfigSurfaceOwner::Plugin => ConfigOwnerScope::Plugin,
        ConfigSurfaceOwner::FallbackDirectory => ConfigOwnerScope::FallbackDirectory,
    }
}

pub fn map_owner(owner: ConfigSurfaceOwner) -> (r: ConfigOwnerScope)
    ensures
        r == owner_scope(owner),
{
    match owner {
        ConfigSurfaceOwner::ServerCore => ConfigOwnerScope::ServerCore,
        ConfigSurfaceOwner::Plugin => ConfigOwnerScope::Plugin,
        ConfigSurfaceOwner::FallbackDirectory => ConfigOwnerScope::FallbackDirectory,
    }
}

/// The document format of a surface format.
pub open spec fn document_format(f: SurfaceFormat) -> ConfigFormat {
    match f {
        SurfaceFormat::Yaml => ConfigFormat::Yaml,
        SurfaceFormat::Toml => ConfigFormat::Toml,
        SurfaceFormat::Json => ConfigFormat::Json,
        SurfaceFormat::Properties => ConfigFormat::Properties,
        SurfaceFormat::Text => ConfigFormat::Text,
    }
}

pub fn map_format(format: SurfaceFormat) -> (r: ConfigFormat)
    ensures
        r == document_format(format),
{
    match format {
        SurfaceFormat::Yaml => ConfigFormat::Yaml,
        SurfaceFormat::Toml => ConfigFormat::Toml,
        SurfaceFormat::Json => ConfigFormat::Json,
        SurfaceFormat::Properties => ConfigFormat::Properties,
        SurfaceFormat::Text => ConfigFormat::Text,
    }
}

/// The path of a file relative to the server root, `/`-separated; the path itself when it
/// lies outside the root.
pub open spec fn relative_text(root: Seq<char>, path: Seq<char>) -> Seq<char> {
    slashes(
        match strip_prefix(path, root) {
            Some(cs) => join_components(cs),
            None => path,
        },
    )
}

pub fn normalize_relative(root: &str, path: &str) -> (r: String)
    ensures
        r@ == relative_text(root@, path@),
{
    let p = chars_of(path);
    let b = chars_of(root);
    let t = match strip_prefix_exec(p.as_slice(), b.as_slice()) {
        Some(cs) => join_components_exec(&cs),
        None => p,
    };
    let s = slashes_exec(t.as_slice());
    string_from(s.as_slice())
}

/// The format of a file, by its extension.
pub open spec fn file_format(path: Seq<char>) -> Option<ConfigFormat> {
    match extension(path) {
        Some(e) => format_of_extension(e),
        None => None,
    }
}

pub fn infer_format(path: &str) -> (r: Option<ConfigFormat>)
    ensures
        r == file_format(path@),
{
    let v = chars_of(path);
    match extension_exec(v.as_slice()) {
        Some(e) => {
            let es = string_from(e.as_slice());
            ConfigFormat::from_extension(es.as_str())
        },
        None => None,
    }
}

/// A README, by its trimmed, lowercased file name.
pub open spec fn readme_like(name: Seq<char>) -> bool {
    let l = norm(name);
    l == "readme"@ || starts_with(l, "readme."@)
}

pub fn is_readme_like(file_name: &str) -> (r: bool)
    ensures
        r == readme_like(file_name@),
{
    let l = norm_chars(file_name);
    eq_str(l.as_slice(), "readme") || starts_with_str(l.as_slice(), "readme.")
}

/// A backup copy, by the ending of its trimmed, lowercased file name.
pub open spec fn backup_like(name: Seq<char>) -> bool {
    let l = norm(name);
    ends_with(l, ".bak"@) || ends_with(l, ".old"@) || ends_with(l, ".orig"@)
}

pub fn is_backup_like(file_name: &str) -> (r: bool)
    ensures
        r == backup_like(file_name@),
{
    let l = norm_chars(file_name);
    ends_with_str(l.as_slice(), ".bak") || ends_with_str(l.as_slice(), ".old") || ends_with_str(
        l.as_slice(),
        ".orig",
    )
}

/// A file is left out: it has no name, is a README or a backup, or has no allowed format.
pub open spec fn skip_file(path: Seq<char>, allowed: Seq<ConfigFormat>) -> bool {
    match file_name(path) {
        None => true,
        Some(n) => readme_like(n) || backup_like(n) || match file_format(path) {
            None => true,
            Some(f) => !allowed.contains(f),
        },
    }
}

fn contains_format(v: &[ConfigFormat], f: ConfigFormat) -> (r: bool)
    ensures
        r == v@.contains(f),
{
    let mut i: usize = 0;
    while i < v.len()
        invariant
            i <= v@.len(),
            forall|j: int| 0 <= j < i ==> v@[j] != f,
        decreases v@.len() - i,
    {
        if v[i] == f {
            assert(v@[i as int] == f);
            return true;
        }
        i = i + 1;
    }
    false
}

pub fn should_skip_file(path: &str, allowed_formats: &[ConfigFormat]) -> (r: bool)
    ensures
        r == skip_file(path@, allowed_formats@),
{
    let v = chars_of(path);
    match file_name_exec(v.as_slice()) {
        None => true,
        Some(n) => {
            let ns = string_from(n.as_slice());
            if is_readme_like(ns.as_str()) || is_backup_like(ns.as_str()) {
                return true;
            }
            match infer_format(path) {
                None => true,
                Some(f) => !contains_format(allowed_formats, f),
            }
        },
    }
}

fn contains_string(v: &Vec<String>, s: &[char]) -> (r: bool)
    ensures
        r == string_views(v@).contains(s@),
{
    let mut i: usize = 0;
    while i < v.len()
        invariant
            i <= v@.len(),
            forall|j: int| 0 <= j < i ==> v@[j]@ != s@,
        decreases v@.len() - i,
    {
        let c = chars_of(v[i].as_str());
        if eq_chars(c.as_slice(), s) {
            assert(string_views(v@)[i as int] == s@);
            return true;
        }
        i = i + 1;
    }
    assert(!string_views(v@).contains(s@)) by {
        if string_views(v@).contains(s@) {
            let j = choose|j: int| 0 <= j < string_views(v@).len() && string_views(v@)[j] == s@;
            assert(v@[j]@ == s@);
        }
    }
    false
}

fn eq_chars(a: &[char], b: &[char]) -> (r: bool)
    ensures
        r == (a@ == b@),
{
    if a.len() != b.len() {
        return false;
    }
    let mut i: usize = 0;
    while i < a.len()
        invariant
            i <= a@.len(),
            a@.len() == b@.len(),
            forall|j: int| 0 <= j < i ==> a@[j] == b@[j],
        decreases a@.len() - i,
    {
        if a[i] != b[i] {
            return false;
        }
        i = i + 1;
    }
    assert(a@ =~= b@);
    true
}

/// A directory is left out when its trimmed, lowercased name is excluded.
pub open spec fn skip_directory(path: Seq<char>, excluded: Seq<Seq<char>>) -> bool {
    match file_name(path) {
        Some(n) => excluded.contains(norm(n)),
        None => false,
    }
}

pub fn should_skip_directory(path: &str, excluded_directories: &Vec<String>) -> (r: bool)
    ensures
        r == skip_directory(path@, string_views(excluded_directories@)),
{
    let v = chars_of(path);
    match file_name_exec(v.as_slice()) {
        Some(n) => {
            let ns = string_from(n.as_slice());
            let l = norm_chars(ns.as_str());
            contains_string(excluded_directories, l.as_slice())
        },
        None => false,
    }
}

/// A walk goes deeper than its limit.
pub open spec fn too_deep(max_depth: Option<usize>, current_depth: usize) -> bool {
    match max_depth {
        Some(m) => current_depth > m,
        None => false,
    }
}

pub fn depth_exceeded(max_depth: Option<usize>, current_depth: usize) -> (r: bool)
    ensures
        r == too_deep(max_depth, current_depth),
{
    match max_depth {
        Some(m) => current_depth > m,
        None => false,
    }
}

/// The owner of what a generic scan root holds: `plugins` is plugin configuration, a root
/// naming `config` is a fallback directory, the rest is generic.
pub open spec fn generic_owner(scan_root: Seq<char>) -> ConfigOwnerScope {
    let n = lower(slashes(trim(scan_root)));
    if n == "plugins"@ {
        ConfigOwnerScope::Plugin
    } else if contains(n, "config"@) {
        ConfigOwnerScope::FallbackDirectory
    } else {
        ConfigOwnerScope::Generic
    }
}

pub fn classify_generic_owner(scan_root: &str) -> (r: ConfigOwnerScope)
    ensures
        r == generic_owner(scan_root@),
{
    let t = trimmed_chars(scan_root);
    let s = slashes_exec(t.as_slice());
    let n = lower_chars(s.as_slice());
    if eq_str(n.as_slice(), "plugins") {
        ConfigOwnerScope::Plugin
    } else if contains_str(n.as_slice(), "config") {
        ConfigOwnerScope::FallbackDirectory
    } else {
        ConfigOwnerScope::Generic
    }
}

/// The formats in their first order of appearance, each once.
pub open spec fn dedup_formats(v: Seq<ConfigFormat>) -> Seq<ConfigFormat>
    decreases v.len(),
{
    if v.len() == 0 {
        seq![]
    } else {
        let d = dedup_formats(v.drop_last());
        if d.contains(v.last()) {
            d
        } else {
            d.push(v.last())
        }
    }
}

/// The allowed formats of a scan: all when none are given, else those given, each once.
pub open spec fn allowed_formats_of(v: Seq<ConfigFormat>) -> Seq<ConfigFormat> {
    if v.len() == 0 {
        default_allowed_formats()
    } else {
        dedup_formats(v)
    }
}

pub fn normalize_allowed_formats(formats: &[ConfigFormat]) -> (r: Vec<ConfigFormat>)
    ensures
        r@ == allowed_formats_of(formats@),
{
    if formats.len() == 0 {
        return default_allowed_formats_exec();
    }
    let mut d: Vec<ConfigFormat> = Vec::new();
    let mut i: usize = 0;
    while i < formats.len()
        invariant
            i <= formats@.len(),
            d@ == dedup_formats(formats@.subrange(0, i as int)),
        decreases formats@.len() - i,
    {
        let ghost pre = formats@.subrange(0, i + 1);
        assert(pre.drop_last() == formats@.subrange(0, i as int));
        assert(pre.last() == formats@[i as int]);
        if !contains_format(d.as_slice(), formats[i]) {
            d.push(formats[i]);
        }
        i = i + 1;
    }
    assert(formats@.subrange(0, formats@.len() as int) == formats@);
    d
}

/// The trimmed, `/`-separated scan roots that are not blank (the defaults when none are given).
pub open spec fn scan_roots_of(v: Seq<Seq<char>>) -> Seq<Seq<char>> {
    if v.len() == 0 {
        str_views(DEFAULT_GENERIC_SCAN_DIRS@)
    } else {
        kept_roots(v)
    }
}

pub open spec fn kept_roots(v: Seq<Seq<char>>) -> Seq<Seq<char>>
    decreases v.len(),
{
    if v.len() == 0 {
        seq![]
    } else {
        let r = kept_roots(v.drop_last());
        let t = slashes(trim(v.last()));
        if t.len() == 0 {
            r
        } else {
            r.push(t)
        }
    }
}

pub fn normalize_scan_roots(values: &Vec<String>) -> (r: Vec<String>)
    ensures
        string_views(r@) == scan_roots_of(string_views(values@)),
{
    if values.len() == 0 {
        let d: &[&str] = &DEFAULT_GENERIC_SCAN_DIRS;
        return owned_all(d);
    }
    let ghost sv = string_views(values@);
    let mut r: Vec<String> = Vec::new();
    let mut i: usize = 0;
    while i < values.len()
        invariant
            i <= values@.len(),
            sv == string_views(values@),
            string_views(r@) == kept_roots(sv.subrange(0, i as int)),
        decreases values@.len() - i,
    {
        let ghost pre = sv.subrange(0, i + 1);
        assert(pre.drop_last() == sv.subrange(0, i as int));
        assert(pre.last() == values@[i as int]@);
        let t = trimmed_chars(values[i].as_str());
        let s = slashes_exec(t.as_slice());
        if s.len() > 0 {
            let ghost old_r = r@;
            r.push(string_from(s.as_slice()));
            assert(string_views(r@) =~= string_views(old_r).push(s@));
        }
        i = i + 1;
    }
    assert(sv.subrange(0, values@.len() as int) == sv);
    r
}

/// A set of names: trimmed, lowercased, blanks left out, each once.
pub open spec fn name_set(v: Seq<Seq<char>>) -> Set<Seq<char>> {
    Set::new(|n: Seq<char>| exists|i: int| 0 <= i < v.len() && n == norm(v[i]) && n.len() > 0)
}

pub fn normalize_name_set(values: &Vec<String>) -> (r: Vec<String>)
    ensures
        string_views(r@).to_set() == name_set(string_views(values@)),
        string_views(r@).no_duplicates(),
{
    let ghost sv = string_views(values@);
    let mut r: Vec<String> = Vec::new();
    let mut i: usize = 0;
    while i < values.len()
        invariant
            i <= values@.len(),
            sv == string_views(values@),
            string_views(r@).to_set() == name_set(sv.subrange(0, i as int)),
            string_views(r@).no_duplicates(),
        decreases values@.len() - i,
    {
        let n = norm_chars(values[i].as_str());
        assert(sv[i as int] == values@[i as int]@);
        let ghost old_r = string_views(r@);
        if n.len() > 0 && !contains_string(&r, n.as_slice()) {
            r.push(string_from(n.as_slice()));
            assert(string_views(r@) =~= old_r.push(n@));
        }
        let ghost s0 = sv.subrange(0, i as int);
        let ghost s1 = sv.subrange(0, i + 1);
        assert(string_views(r@).to_set() =~= name_set(s1)) by {
            assert forall|x: Seq<char>| name_set(s1).contains(x) implies string_views(r@).to_set().contains(
                x,
            ) by {
                let j = choose|j: int| 0 <= j < s1.len() && x == norm(#[trigger] s1[j]) && x.len() > 0;
                if j < i {
                    assert(s0[j] == s1[j]);
                    assert(name_set(s0).contains(x));
                    assert(old_r.to_set().contains(x));
                    let k = choose|k: int| 0 <= k < old_r.len() && old_r[k] == x;
                    assert(string_views(r@)[k] == x);
                } else {
                    if old_r.contains(x) {
                        let k = choose|k: int| 0 <= k < old_r.len() && old_r[k] == x;
                        assert(string_views(r@)[k] == x);
                    } else {
                        assert(string_views(r@).last() == x);
                    }
                }
            }
            assert forall|x: Seq<char>| string_views(r@).to_set().contains(x) implies name_set(s1).contains(
                x,
            ) by {
                let k = choose|k: int| 0 <= k < string_views(r@).len() && string_views(r@)[k] == x;
                if k < old_r.len() {
                    assert(old_r[k] == x);
                    assert(old_r.to_set().contains(x));
                    let j = choose|j: int| 0 <= j < s0.len() && x == norm(#[trigger] s0[j]) && x.len() > 0;
                    assert(s1[j] == s0[j]);
                } else {
                    assert(s1[i as int] == sv[i as int]);
                }
            }
        }
        i = i + 1;
    }
    assert(sv.subrange(0, values@.len() as int) == sv);
    r
}

/// The excluded directory names of a scan (the defaults when none are given).
pub fn normalize_excluded_directories(values: &Vec<String>) -> (r: Vec<String>)
    ensures
        values@.len() == 0 ==> string_views(r@).to_set() == name_set(str_views(DEFAULT_EXCLUDED_DIRS@)),
        values@.len() > 0 ==> string_views(r@).to_set() == name_set(string_views(values@)),
        string_views(r@).no_duplicates(),
{
    if values.len() == 0 {
        let d: &[&str] = &DEFAULT_EXCLUDED_DIRS;
        let defaults = owned_all(d);
        normalize_name_set(&defaults)
    } else {
        normalize_name_set(values)
    }
}

/// The entry of an existing canonical configuration file of a surface.
pub open spec fn surface_entry(root: Seq<char>, s: ConfigSurface, format: SurfaceFormat) -> EntryView {
    let abs = join(root, s.relative_path@);
    EntryView {
        key: Some(s.key@),
        owner: owner_scope(s.owner),
        format: document_format(format),
        relative_path: relative_text(root, abs),
        absolute_path: abs,
        source: ConfigEntrySource::ExplicitSurface,
        confidence: ConfigEntryConfidence::Explicit,
        reason: ReasonView::ExplicitSurfaceKey(s.key@),
    }
}

/// The path of a surface under the server root.
pub fn surface_path(server_root: &str, surface: &ConfigSurface) -> (r: String)
    ensures
        r@ == join(server_root@, surface.relative_path@),
{
    let rel = chars_of(surface.relative_path);
    join_exec(server_root, rel.as_slice())
}

/// The entry of a canonical configuration file that exists (the surface names a format).
pub fn canonical_file_entry(server_root: &str, surface: &ConfigSurface) -> (r: ConfigEntry)
    requires
        surface.format is Some,
    ensures
        r@ == surface_entry(server_root@, *surface, surface.format->0),
{
    let abs = surface_path(server_root, surface);
    let format = match surface.format {
        Some(f) => map_format(f),
        None => ConfigFormat::Text,
    };
    ConfigEntry {
        key: Some(owned(surface.key)),
        owner: map_owner(surface.owner),
        format,
        relative_path: normalize_relative(server_root, abs.as_str()),
        absolute_path: abs,
        source: ConfigEntrySource::ExplicitSurface,
        confidence: ConfigEntryConfidence::Explicit,
        reason: ConfigMatchReason::ExplicitSurfaceKey(owned(surface.key)),
    }
}

/// The entry of a file found by a walk, when it has a known format.
pub open spec fn walked_entry(
    root: Seq<char>,
    path: Seq<char>,
    format: ConfigFormat,
    owner: ConfigOwnerScope,
    source: ConfigEntrySource,
    confidence: ConfigEntryConfidence,
    reason: ReasonView,
) -> EntryView {
    EntryView {
        key: None,
        owner,
        format,
        relative_path: relative_text(root, path),
        absolute_path: path,
        source,
        confidence,
        reason,
    }
}

/// The entry of a file that a walk found, if its extension names a format.
pub fn discovered_entry(
    server_root: &str,
    path: &str,
    owner: ConfigOwnerScope,
    source: ConfigEntrySource,
    confidence: ConfigEntryConfidence,
    reason: &ConfigMatchReason,
) -> (r: Option<ConfigEntry>)
    ensures
        match file_format(path@) {
            Some(f) => r matches Some(e) && e@ == walked_entry(
                server_root@,
                path@,
                f,
                owner,
                source,
                confidence,
                reason@,
            ),
            None => r is None,
        },
{
    match infer_format(path) {
        Some(format) => Some(
            ConfigEntry {
                key: None,
                owner,
                format,
                relative_path: normalize_relative(server_root, path),
                absolute_path: owned(path),
                source,
                confidence,
                reason: copy_reason(reason),
            },
        ),
        None => None,
    }
}

/// A file at the top of the server root is taken as core configuration when its extension is
/// exactly `properties` and it is no README.
pub open spec fn root_properties_file(path: Seq<char>) -> bool {
    &&& !(match file_name(path) {
        Some(n) => readme_like(n),
        None => false,
    })
    &&& extension(path) == Some("properties"@)
}

/// The entry of a `.properties` file at the top of the server root, if the file is one.
pub fn root_properties_entry(server_root: &str, path: &str) -> (r: Option<ConfigEntry>)
    ensures
        root_properties_file(path@) ==> (r matches Some(e) && e@ == walked_entry(
            server_root@,
            path@,
            ConfigFormat::Properties,
            ConfigOwnerScope::ServerCore,
            ConfigEntrySource::FallbackDirectoryDiscovery,
            ConfigEntryConfidence::Likely,
            ReasonView::RootPropertiesFallback,
        )),
        !root_properties_file(path@) ==> r is None,
{
    let v = chars_of(path);
    if let Some(n) = file_name_exec(v.as_slice()) {
        let ns = string_from(n.as_slice());
        if is_readme_like(ns.as_str()) {
            return None;
        }
    }
    let is_props = match extension_exec(v.as_slice()) {
        Some(e) => eq_str(e.as_slice(), "properties"),
        None => false,
    };
    if !is_props {
        return None;
    }
    Some(
        ConfigEntry {
            key: None,
            owner: ConfigOwnerScope::ServerCore,
            format: ConfigFormat::Properties,
            relative_path: normalize_relative(server_root, path),
            absolute_path: owned(path),
            source: ConfigEntrySource::FallbackDirectoryDiscovery,
            confidence: ConfigEntryConfidence::Likely,
            reason: ConfigMatchReason::RootPropertiesFallback,
        },
    )
}

/// What discovery does with one configuration surface of a profile.
#[derive(Debug, Clone, PartialEq, Eq)]
pub enum SurfacePlan {
    /// Take the file at this path when it exists.
    CheckFile(String),
    /// Walk the directory at this path when it exists.
    WalkDirectory {
        path: String,
        owner: ConfigOwnerScope,
        source: ConfigEntrySource,
        confidence: ConfigEntryConfidence,
        reason: ConfigMatchReason,
    },
}

/// The plan of one surface: canonical files are checked; plugin and fallback directories are
/// walked, their files taken as likely plugin or fallback configuration.
pub open spec fn surface_plan_is(p: SurfacePlan, root: Seq<char>, s: ConfigSurface) -> bool {
    let abs = join(root, s.relative_path@);
    match s.kind {
        ConfigSurfaceKind::CanonicalFile => p matches SurfacePlan::CheckFile(f) && f@ == abs,
        ConfigSurfaceKind::PluginDirectory => p matches SurfacePlan::WalkDirectory {
            path,
            owner,
            source,
            confidence,
            reason,
        } && path@ == abs && owner == ConfigOwnerScope::Plugin && source
            == ConfigEntrySource::PluginDiscovery && confidence == ConfigEntryConfidence::Likely
            && reason == ConfigMatchReason::PluginDirectoryPattern,
        ConfigSurfaceKind::FallbackDirectory => p matches SurfacePlan::WalkDirectory {
            path,
            owner,
            source,
            confidence,
            reason,
        } && path@ == abs && owner == ConfigOwnerScope::FallbackDirectory && source
            == ConfigEntrySource::FallbackDirectoryDiscovery && confidence
            == ConfigEntryConfidence::Likely && reason == ConfigMatchReason::FallbackDirectoryPattern,
    }
}

pub fn plan_surface(server_root: &str, surface: &ConfigSurface) -> (r: SurfacePlan)
    ensures
        surface_plan_is(r, server_root@, *surface),
{
    let abs = surface_path(server_root, surface);
    match surface.kind {
        ConfigSurfaceKind::CanonicalFile => SurfacePlan::CheckFile(abs),
        ConfigSurfaceKind::PluginDirectory => SurfacePlan::WalkDirectory {
            path: abs,
            owner: ConfigOwnerScope::Plugin,
            source: ConfigEntrySource::PluginDiscovery,
            confidence: ConfigEntryConfidence::Likely,
            reason: ConfigMatchReason::PluginDirectoryPattern,
        },
        ConfigSurfaceKind::FallbackDirectory => SurfacePlan::WalkDirectory {
            path: abs,
            owner: ConfigOwnerScope::FallbackDirectory,
            source: ConfigEntrySource::FallbackDirectoryDiscovery,
            confidence: ConfigEntryConfidence::Likely,
            reason: ConfigMatchReason::FallbackDirectoryPattern,
        },
    }
}

/// The canonical core key and configuration surfaces that discovery works from.
pub fn discovery_surfaces(input: &ConfigDiscoveryInput) -> (r: Result<(String, Vec<ConfigSurface>), ConfigDiscoveryError>)
    ensures
        match spec_core_key(input.core_key@) {
            None => r matches Err(ConfigDiscoveryError::UnknownCoreKey(k)) && k@ == input.core_key@,
            Some(k) => r matches Ok((n, v)) && n@ == k.name() && v@ == surfaces_for_core(Some(k)),
        },
        r matches Ok((_, v)) ==> forall|i: int| 0 <= i < v@.len() ==> format_named(#[trigger] v@[i]),
{
    proof {
        if let Some(k) = spec_core_key(input.core_key@) {
            lemma_core_surfaces_name_formats(Some(k));
        }
    }
    match core_key_of(input.core_key.as_str()) {
        None => Err(ConfigDiscoveryError::UnknownCoreKey(input.core_key.clone())),
        Some(k) => Ok((owned(k.as_str()), config_surfaces_for_core(Some(k)))),
    }
}

/// Relative paths are told apart.
pub open spec fn distinct_paths(v: Seq<EntryView>) -> bool {
    forall|i: int, j: int|
        0 <= i < v.len() && 0 <= j < v.len() && i != j ==> #[trigger] v[i].relative_path
            != #[trigger] v[j].relative_path
}

/// Some entry has the relative path.
pub open spec fn has_path(v: Seq<EntryView>, p: Seq<char>) -> bool {
    exists|i: int| 0 <= i < v.len() && #[trigger] v[i].relative_path == p
}

/// The entries after one more is offered: it is taken unless its relative path is taken.
pub open spec fn entries_after(v: Seq<EntryView>, e: EntryView) -> Seq<EntryView> {
    if has_path(v, e.relative_path) {
        v
    } else {
        v.push(e)
    }
}

/// The entries gathered by a discovery, one per relative path.
pub struct EntryCollector {
    entries: Vec<ConfigEntry>,
}

impl View for EntryCollector {
    type V = Seq<EntryView>;

    closed spec fn view(&self) -> Seq<EntryView> {
        entry_views(self.entries@)
    }
}

impl EntryCollector {
    pub fn new() -> (r: Self)
        ensures
            r@.len() == 0,
    {
        EntryCollector { entries: Vec::new() }
    }

    /// Takes an entry unless one with the same relative path was taken before.
    pub fn push_entry(&mut self, entry: ConfigEntry)
        ensures
            final(self)@ == entries_after(old(self)@, entry@),
            distinct_paths(old(self)@) ==> distinct_paths(final(self)@),
    {
        let ghost v = self@;
        let p = chars_of(entry.relative_path.as_str());
        let mut i: usize = 0;
        while i < self.entries.len()
            invariant
                v == entry_views(self.entries@),
                p@ == entry.relative_path@,
                i <= self.entries@.len(),
                forall|j: int| 0 <= j < i ==> v[j].relative_path != p@,
            decreases self.entries@.len() - i,
        {
            let q = chars_of(self.entries[i].relative_path.as_str());
            if eq_chars(q.as_slice(), p.as_slice()) {
                assert(v[i as int].relative_path == p@);
                return;
            }
            i = i + 1;
        }
        assert(!has_path(v, entry@.relative_path));
        let ghost e = entry@;
        self.entries.push(entry);
        assert(self@ =~= v.push(e));
    }

    /// The entries, ordered by relative path.
    pub fn into_sorted(self) -> (r: Vec<ConfigEntry>)
        ensures
            entry_views(r@) == sort_by_path(self@),
    {
        sort_entries(self.entries)
    }
}

/// Entry `a` orders before `b` by relative path.
pub open spec fn path_before(a: EntryView, b: EntryView) -> bool {
    seq_lt(a.relative_path, b.relative_path)
}

pub open spec fn insert_by_path(t: Seq<EntryView>, x: EntryView) -> Seq<EntryView>
    decreases t.len(),
{
    if t.len() == 0 {
        seq![x]
    } else if path_before(x, t.last()) {
        insert_by_path(t.drop_last(), x).push(t.last())
    } else {
        t.push(x)
    }
}

/// The entries in a stable order by relative path.
pub open spec fn sort_by_path(s: Seq<EntryView>) -> Seq<EntryView>
    decreases s.len(),
{
    if s.len() == 0 {
        seq![]
    } else {
        insert_by_path(sort_by_path(s.drop_last()), s.last())
    }
}

proof fn lemma_insert_path_at(t: Seq<EntryView>, x: EntryView, j: int)
    requires
        0 <= j <= t.len(),
        forall|k: int| j <= k < t.len() ==> path_before(x, #[trigger] t[k]),
        j == 0 || !path_before(x, t[j - 1]),
    ensures
        insert_by_path(t, x) == t.insert(j, x),
    decreases t.len(),
{
    if t.len() == 0 {
        assert(t.insert(j, x) =~= seq![x]);
    } else if j == t.len() {
        assert(t.insert(j, x) =~= t.push(x));
    } else {
        assert(path_before(x, t[t.len() - 1]));
        lemma_insert_path_at(t.drop_last(), x, j);
        assert(t.insert(j, x) =~= t.drop_last().insert(j, x).push(t.last()));
    }
}

fn sort_entries(items: Vec<ConfigEntry>) -> (r: Vec<ConfigEntry>)
    ensures
        entry_views(r@) == sort_by_path(entry_views(items@)),
{
    let ghost orig = entry_views(items@);
    let n = items.len();
    let mut input = items;
    let mut out: Vec<ConfigEntry> = Vec::new();
    let mut k: usize = 0;
    assert(orig.subrange(0, 0) =~= Seq::<EntryView>::empty());
    assert(orig.subrange(0, n as int) =~= orig);
    while input.len() > 0
        invariant
            k <= n,
            n == orig.len(),
            entry_views(input@) == orig.subrange(k as int, n as int),
            entry_views(out@) == sort_by_path(orig.subrange(0, k as int)),
        decreases input@.len(),
    {
        let ghost before = input@;
        assert(entry_views(before).len() == before.len());
        assert(k < n);
        let x = input.remove(0);
        assert(entry_views(before)[0] == x@);
        assert(orig.subrange(k as int, n as int)[0] == orig[k as int]);
        assert(entry_views(input@) =~= orig.subrange(k + 1, n as int)) by {
            assert forall|m: int| 0 <= m < input@.len() implies entry_views(input@)[m] == orig[k + 1 + m] by {
                assert(input@[m] == before[m + 1]);
                assert(entry_views(before)[m + 1] == orig.subrange(k as int, n as int)[m + 1]);
            }
        }
        let xp = chars_of(x.relative_path.as_str());
        let mut j = out.len();
        while j > 0 && seq_lt_exec(xp.as_slice(), chars_of(out[j - 1].relative_path.as_str()).as_slice())
            invariant
                j <= out@.len(),
                xp@ == x@.relative_path,
                forall|m: int| j <= m < out@.len() ==> path_before(x@, #[trigger] entry_views(out@)[m]),
            decreases j,
        {
            j = j - 1;
        }
        proof {
            let t = entry_views(out@);
            if j > 0 {
                assert(t[j - 1] == out@[j - 1]@);
            }
            lemma_insert_path_at(t, x@, j as int);
            assert(orig.subrange(0, k + 1).drop_last() =~= orig.subrange(0, k as int));
            assert(orig.subrange(0, k + 1).last() == orig[k as int]);
        }
        let ghost old_out = out@;
        out.insert(j, x);
        assert(entry_views(out@) =~= entry_views(old_out).insert(j as int, x@));
        k = k + 1;
    }
    assert(k == n);
    out
}

/// The catalog of a core's configuration files.
pub fn surface_catalog(core_key: String, server_root: &str, collector: EntryCollector) -> (r: ConfigSurfaceCatalog)
    ensures
        r.core_key@ == core_key@,
        r.server_root@ == server_root@,
        entry_views(r.entries@) == sort_by_path(collector@),
{
    ConfigSurfaceCatalog { core_key, server_root: owned(server_root), entries: collector.into_sorted() }
}

/// The catalog of generic configuration candidates.
pub fn candidate_catalog(server_root: &str, collector: EntryCollector) -> (r: ConfigCandidateCatalog)
    ensures
        r.server_root@ == server_root@,
        entry_views(r.entries@) == sort_by_path(collector@),
{
    ConfigCandidateCatalog { server_root: owned(server_root), entries: collector.into_sorted() }
}

/// The entry of a file at the top of the server root in a generic scan, unless it is left out.
pub fn generic_root_entry(server_root: &str, path: &str, allowed_formats: &[ConfigFormat]) -> (r: Option<ConfigEntry>)
    ensures
        skip_file(path@, allowed_formats@) ==> r is None,
        !skip_file(path@, allowed_formats@) ==> (r matches Some(e) && e@ == walked_entry(
            server_root@,
            path@,
            file_format(path@)->0,
            ConfigOwnerScope::Generic,
            ConfigEntrySource::GenericRootScan,
            ConfigEntryConfidence::Heuristic,
            ReasonView::GenericScanRoot("."@),
        )),
{
    if should_skip_file(path, allowed_formats) {
        return None;
    }
    let reason = ConfigMatchReason::GenericScanRoot(owned("."));
    discovered_entry(
        server_root,
        path,
        ConfigOwnerScope::Generic,
        ConfigEntrySource::GenericRootScan,
        ConfigEntryConfidence::Heuristic,
        &reason,
    )
}

/// No entry is listed after one whose relative path orders after its own.
pub open spec fn path_ordered(s: Seq<EntryView>) -> bool {
    forall|i: int, j: int| 0 <= i < j < s.len() ==> !path_before(#[trigger] s[j], #[trigger] s[i])
}

proof fn lemma_path_le_trans(a: EntryView, b: EntryView, c: EntryView)
    requires
        !path_before(b, a),
        !path_before(c, b),
    ensures
        !path_before(c, a),
{
    lemma_seq_lt_total(a.relative_path, b.relative_path);
    if path_before(c, a) && seq_lt(a.relative_path, b.relative_path) {
        lemma_seq_lt_trans(c.relative_path, a.relative_path, b.relative_path);
    }
}

/// Where [`insert_by_path`] puts its entry.
pub open spec fn path_insert_pos(t: Seq<EntryView>, x: EntryView) -> int
    decreases t.len(),
{
    if t.len() == 0 {
        0
    } else if path_before(x, t.last()) {
        path_insert_pos(t.drop_last(), x)
    } else {
        t.len() as int
    }
}

proof fn lemma_path_insert_pos(t: Seq<EntryView>, x: EntryView)
    ensures
        0 <= path_insert_pos(t, x) <= t.len(),
        insert_by_path(t, x) == t.insert(path_insert_pos(t, x), x),
        forall|k: int| path_insert_pos(t, x) <= k < t.len() ==> path_before(x, #[trigger] t[k]),
        path_insert_pos(t, x) > 0 ==> !path_before(x, t[path_insert_pos(t, x) - 1]),
    decreases t.len(),
{
    if t.len() == 0 {
        assert(t.insert(0, x) =~= seq![x]);
    } else if path_before(x, t.last()) {
        lemma_path_insert_pos(t.drop_last(), x);
        let p = path_insert_pos(t, x);
        assert(t.insert(p, x) =~= t.drop_last().insert(p, x).push(t.last()));
        assert forall|k: int| p <= k < t.len() implies path_before(x, #[trigger] t[k]) by {
            if k < t.len() - 1 {
                assert(t[k] == t.drop_last()[k]);
            }
        }
        if p > 0 {
            assert(t[p - 1] == t.drop_last()[p - 1]);
        }
    } else {
        assert(t.insert(t.len() as int, x) =~= t.push(x));
    }
}

proof fn lemma_insert_path_ordered(t: Seq<EntryView>, x: EntryView)
    requires
        path_ordered(t),
    ensures
        path_ordered(insert_by_path(t, x)),
        insert_by_path(t, x).to_multiset() == t.to_multiset().insert(x),
{
    lemma_path_insert_pos(t, x);
    let p = path_insert_pos(t, x);
    let r = t.insert(p, x);
    vstd::seq_lib::to_multiset_insert(t, p, x);
    assert forall|i: int, j: int| 0 <= i < j < r.len() implies !path_before(#[trigger] r[j], #[trigger] r[i]) by {
        if j < p {
            assert(r[i] == t[i] && r[j] == t[j]);
        } else if j == p {
            assert(r[i] == t[i]);
            if i < p - 1 {
                assert(!path_before(t[p - 1], t[i]));
                lemma_path_le_trans(t[i], t[p - 1], x);
            }
        } else if i == p {
            assert(r[j] == t[j - 1]);
            lemma_seq_lt_asym(x.relative_path, t[j - 1].relative_path);
        } else if i < p {
            assert(r[i] == t[i] && r[j] == t[j - 1]);
        } else {
            assert(r[i] == t[i - 1] && r[j] == t[j - 1]);
        }
    }
}

/// Entries come out of the sort ordered by relative path, and none is lost or added.
pub proof fn lemma_sort_by_path(s: Seq<EntryView>)
    ensures
        path_ordered(sort_by_path(s)),
        sort_by_path(s).to_multiset() == s.to_multiset(),
    decreases s.len(),
{
    if s.len() == 0 {
        assert(sort_by_path(s) =~= s);
    } else {
        lemma_sort_by_path(s.drop_last());
        lemma_insert_path_ordered(sort_by_path(s.drop_last()), s.last());
        vstd::seq_lib::to_multiset_build(s.drop_last(), s.last());
        assert(s.drop_last().push(s.last()) == s);
    }
}

/// A collector never holds two entries with one relative path: offering entries one by one
/// from an empty collector keeps the paths apart.
pub proof fn lemma_offered_entries_distinct(v: Seq<EntryView>, e: EntryView)
    requires
        distinct_paths(v),
    ensures
        distinct_paths(entries_after(v, e)),
        has_path(entries_after(v, e), e.relative_path),
{
    if !has_path(v, e.relative_path) {
        let r = v.push(e);
        assert(r[v.len() as int].relative_path == e.relative_path);
    }
}

} // verus!
