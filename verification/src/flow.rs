//! Local server lifecycle: launch specifications, the commands they run, status and stop
//! decisions. Processes, sockets and the environment are handled outside.
use vstd::prelude::*;
use core::time::Duration;
use crate::flavor::StartupMode;
use crate::paths::{join_components, join_components_exec, strip_prefix, strip_prefix_exec};
use crate::startup_scan::{strip_both, strip_both_exec};
use crate::text::{
    append_chars, append_str, chars_of, lines, lines_of, occurs_at, occurs_at_exec, owned,
    string_from, sub_vec, trim, trim_chars, views,
};

verus! {

#[derive(Debug, Clone, PartialEq, Eq)]
pub enum ManagedJavaMode {
    DirectJvmArgs,
    ArgsFileOnly,
    Disabled,
}

/// Where a Java installation lies (path texts).
#[derive(Debug, Clone, PartialEq, Eq)]
pub struct JavaEnvSpec {
    pub java_home: String,
    pub java_bin_dir: String,
}

impl JavaEnvSpec {
    pub fn new(java_home: &str, java_bin_dir: &str) -> (r: Self)
        ensures
            r.java_home@ == java_home@,
            r.java_bin_dir@ == java_bin_dir@,
    {
        JavaEnvSpec { java_home: owned(java_home), java_bin_dir: owned(java_bin_dir) }
    }
}

#[derive(Debug, Clone, PartialEq, Eq)]
pub struct JavaCommandSpec {
    pub java_path: String,
    pub java_env: Option<JavaEnvSpec>,
    pub jvm_args: Vec<String>,
    pub add_nogui: bool,
}

#[derive(Debug, Clone, PartialEq, Eq)]
pub struct ArgsFileSpec {
    pub path: String,
    pub mode: ManagedJavaMode,
    pub args: Vec<String>,
}

#[derive(Debug, Clone, PartialEq, Eq)]
pub struct ScriptLaunchSpec {
    pub startup_mode: StartupMode,
    pub script_path: String,
    pub java_env: Option<JavaEnvSpec>,
    pub windows_codepage: Option<String>,
    pub args_file: Option<ArgsFileSpec>,
    pub trailing_args: Vec<String>,
}

#[derive(Debug, PartialEq, Eq)]
pub struct StarterInstallSpec {
    pub installer_jar: String,
    pub java: JavaCommandSpec,
    pub install_args: Vec<String>,
    pub followup: Box<LocalLaunchEntry>,
}

/// What a local launch starts.
#[derive(Debug, PartialEq, Eq)]
pub enum LocalLaunchEntry {
    DirectJar { jar_path: String, java: JavaCommandSpec },
    StarterInstall(StarterInstallSpec),
    Script(ScriptLaunchSpec),
    Executable { executable_path: String, args: Vec<String> },
    CustomCommand { command: String, startup_mode: StartupMode, java_env: Option<JavaEnvSpec> },
}

/// The startup mode of a launch entry.
pub open spec fn entry_mode(e: LocalLaunchEntry) -> StartupMode {
    match e {
        LocalLaunchEntry::DirectJar { .. } => StartupMode::Jar,
        LocalLaunchEntry::StarterInstall(_) => StartupMode::Starter,
        LocalLaunchEntry::Script(s) => s.startup_mode,
        LocalLaunchEntry::Executable { .. } => StartupMode::Exe,
        LocalLaunchEntry::CustomCommand { startup_mode, .. } => startup_mode,
    }
}

impl LocalLaunchEntry {
    pub fn startup_mode(&self) -> (r: StartupMode)
        ensures
            r == entry_mode(*self),
    {
        match self {
            LocalLaunchEntry::DirectJar { .. } => StartupMode::Jar,
            LocalLaunchEntry::StarterInstall(_) => StartupMode::Starter,
            LocalLaunchEntry::Script(spec) => spec.startup_mode,
            LocalLaunchEntry::Executable { .. } => StartupMode::Exe,
            LocalLaunchEntry::CustomCommand { startup_mode, .. } => *startup_mode,
        }
    }
}

#[derive(Debug, Clone, PartialEq, Eq)]
pub enum PortProbeKind {
    TcpListening,
}

#[derive(Debug, Clone, PartialEq, Eq)]
pub struct PortProbeSpec {
    pub port: u16,
    pub kind: PortProbeKind,
}

/// A local launch: what to start, from which directory, and how readiness is probed.
#[derive(Debug, PartialEq, Eq)]
pub struct LocalLaunchSpec {
    pub server_id: String,
    pub working_dir: String,
    pub entry: LocalLaunchEntry,
    pub port_probe: Option<PortProbeSpec>,
}

impl LocalLaunchSpec {
    pub fn new(server_id: &str, working_dir: &str, entry: LocalLaunchEntry) -> (r: Self)
        ensures
            r.server_id@ == server_id@,
            r.working_dir@ == working_dir@,
            r.entry == entry,
            r.port_probe is None,
    {
        LocalLaunchSpec {
            server_id: owned(server_id),
            working_dir: owned(working_dir),
            entry,
            port_probe: None,
        }
    }

    pub fn startup_mode(&self) -> (r: StartupMode)
        ensures
            r == entry_mode(self.entry),
    {
        self.entry.startup_mode()
    }

    pub fn with_port_probe(self, port_probe: PortProbeSpec) -> (r: Self)
        ensures
            r.server_id == self.server_id,
            r.working_dir == self.working_dir,
            r.entry == self.entry,
            r.port_probe == Some(port_probe),
    {
        let mut s = self;
        s.port_probe = Some(port_probe);
        s
    }
}

#[derive(Debug, Clone, PartialEq, Eq)]
pub enum ProcessStopStrategy {
    GracefulThenForce,
    ForceOnly,
}

/// `Clone` of `core::time::Duration` (derived in std). Nothing is stated of the copy.
pub assume_specification[ <core::time::Duration as Clone>::clone ](d: &Duration) -> Duration;

/// The duration of a number of seconds, as `Duration::from_secs` makes it.
pub uninterp spec fn secs_duration(secs: u64) -> Duration;

/// The duration of a number of milliseconds, as `Duration::from_millis` makes it.
pub uninterp spec fn millis_duration(millis: u64) -> Duration;

/// `Duration::from_secs`. Trusted: the result is [`secs_duration`] of the argument.
#[verifier::external_body]
fn duration_from_secs(secs: u64) -> (r: Duration)
    ensures
        r == secs_duration(secs),
{
    Duration::from_secs(secs)
}

/// `Duration::from_millis`. Trusted: the result is [`millis_duration`] of the argument.
#[verifier::external_body]
fn duration_from_millis(millis: u64) -> (r: Duration)
    ensures
        r == millis_duration(millis),
{
    Duration::from_millis(millis)
}

/// How a graceful stop is asked for: a line written to the server's input, then a wait.
#[derive(Debug, Clone, PartialEq, Eq)]
pub struct GracefulStopSpec {
    pub stdin_line: String,
    pub timeout: Duration,
    pub poll_interval: Duration,
}

impl GracefulStopSpec {
    /// A stop by writing `stdin_line`, waiting up to 30 seconds, looking every 250 ms.
    pub fn stdin_line(stdin_line: &str) -> (r: Self)
        ensures
            r.stdin_line@ == stdin_line@,
            r.timeout == secs_duration(30),
            r.poll_interval == millis_duration(250),
    {
        GracefulStopSpec {
            stdin_line: owned(stdin_line),
            timeout: duration_from_secs(30),
            poll_interval: duration_from_millis(250),
        }
    }

    pub fn with_timeout(self, timeout: Duration) -> (r: Self)
        ensures
            r.stdin_line == self.stdin_line,
            r.timeout == timeout,
            r.poll_interval == self.poll_interval,
    {
        let mut s = self;
        s.timeout = timeout;
        s
    }

    pub fn with_poll_interval(self, poll_interval: Duration) -> (r: Self)
        ensures
            r.stdin_line == self.stdin_line,
            r.timeout == self.timeout,
            r.poll_interval == poll_interval,
    {
        let mut s = self;
        s.poll_interval = poll_interval;
        s
    }
}

#[derive(Debug, Clone, PartialEq, Eq)]
pub enum LaunchError {
    UnsupportedStartupMode(Option<String>),
    MissingJavaForMode(&'static str),
    MissingScriptPath,
    MissingJarPath,
    MissingExecutablePath,
    MissingCustomCommand,
    MissingStarterFollowup,
    MissingArgsFileParent(String),
    InvalidWorkingDirectory(String),
    Io(String),
    SpawnFailed(String),
}

#[derive(Debug, Clone, PartialEq, Eq)]
pub enum StatusError {
    MissingProcessId,
    ProbeFailed(String),
}

#[derive(Debug, Clone, PartialEq, Eq)]
pub enum StopError {
    MissingProcessId,
    MissingOwnedHandle,
    GracefulStopUnsupported,
    Io(String),
    ForceKillFailed(String),
}

#[derive(Debug, Clone, Copy, PartialEq, Eq, Structural)]
pub enum LocalFlowState {
    Starting,
    Running,
    Stopped,
    Exited,
    Unknown,
}

#[derive(Debug, Clone, PartialEq, Eq)]
pub struct PortProbeStatus {
    pub port: u16,
    pub listening: bool,
}

#[derive(Debug, Clone, PartialEq, Eq)]
pub struct LocalFlowStatus {
    pub state: LocalFlowState,
    pub pid: Option<u32>,
    pub running: bool,
    pub exit_code: Option<i32>,
    pub port_probe: Option<PortProbeStatus>,
}

/// The state of a local server: a running process is `Starting` while its probed port does not
/// listen yet, else `Running`; a known process that does not run is `Stopped`; without a
/// process id the state is `Unknown`.
pub open spec fn flow_state(has_pid: bool, running: bool, port_probe: Option<PortProbeStatus>) -> LocalFlowState {
    if running {
        match port_probe {
            Some(p) => if !p.listening {
                LocalFlowState::Starting
            } else {
                LocalFlowState::Running
            },
            None => LocalFlowState::Running,
        }
    } else if has_pid {
        LocalFlowState::Stopped
    } else {
        LocalFlowState::Unknown
    }
}

pub open spec fn opt_probe(p: Option<&PortProbeStatus>) -> Option<PortProbeStatus> {
    match p {
        Some(p) => Some(*p),
        None => None,
    }
}

pub fn derive_local_flow_state(has_pid: bool, running: bool, port_probe: Option<&PortProbeStatus>) -> (r:
    LocalFlowState)
    ensures
        r == flow_state(has_pid, running, opt_probe(port_probe)),
{
    if running {
        match port_probe {
            Some(p) => if !p.listening {
                LocalFlowState::Starting
            } else {
                LocalFlowState::Running
            },
            None => LocalFlowState::Running,
        }
    } else if has_pid {
        LocalFlowState::Stopped
    } else {
        LocalFlowState::Unknown
    }
}

/// The status of a local server, given whether its process runs and, when a port is probed,
/// whether that port listens.
pub fn local_flow_status(pid: Option<u32>, running: bool, port_probe: Option<PortProbeStatus>) -> (r:
    LocalFlowStatus)
    ensures
        r.state == flow_state(pid is Some, running, port_probe),
        r.pid == pid,
        r.running == running,
        r.exit_code is None,
        r.port_probe == port_probe,
{
    let state = match &port_probe {
        Some(p) => derive_local_flow_state(pid.is_some(), running, Some(p)),
        None => derive_local_flow_state(pid.is_some(), running, None),
    };
    LocalFlowStatus { state, pid, running, exit_code: None, port_probe }
}

/// The status of a port probe, given whether the port listens.
pub fn port_probe_status(probe: &PortProbeSpec, listening: bool) -> (r: PortProbeStatus)
    ensures
        r.port == probe.port,
        r.listening == listening,
{
    PortProbeStatus { port: probe.port, listening }
}

#[derive(Debug, Clone, PartialEq, Eq)]
pub struct StopOutcome {
    pub pid: u32,
    pub graceful_attempted: bool,
    pub forced: bool,
    pub exit_code: Option<i32>,
}

/// A stop by process id alone cannot be graceful: nothing can be written to the server.
pub open spec fn pid_stop_refused(graceful: bool, strategy: ProcessStopStrategy) -> bool {
    graceful && strategy == ProcessStopStrategy::GracefulThenForce
}

/// Whether a stop by process id may go ahead.
pub fn check_pid_stop(graceful: Option<&GracefulStopSpec>, strategy: &ProcessStopStrategy) -> (r: Result<(), StopError>)
    ensures
        pid_stop_refused(graceful is Some, *strategy) ==> r == Err::<(), StopError>(StopError::GracefulStopUnsupported),
        !pid_stop_refused(graceful is Some, *strategy) ==> r is Ok,
{
    let graceful_then_force = match strategy {
        ProcessStopStrategy::GracefulThenForce => true,
        ProcessStopStrategy::ForceOnly => false,
    };
    if graceful.is_some() && graceful_then_force {
        Err(StopError::GracefulStopUnsupported)
    } else {
        Ok(())
    }
}

/// The outcome of a stop by process id: nothing was forced when the process was already gone.
pub fn pid_stop_outcome(pid: u32, was_alive: bool) -> (r: StopOutcome)
    ensures
        r == (StopOutcome { pid, graceful_attempted: false, forced: was_alive, exit_code: None }),
{
    StopOutcome { pid, graceful_attempted: false, forced: was_alive, exit_code: None }
}

/// What a stop of an owned process writes first: the graceful line, if the strategy asks for
/// one; a graceful strategy without a graceful spec is refused.
pub fn plan_owned_stop(graceful: Option<&GracefulStopSpec>, strategy: &ProcessStopStrategy) -> (r: Result<
    Option<String>,
    StopError,
>)
    ensures
        match *strategy {
            ProcessStopStrategy::ForceOnly => r == Ok::<Option<String>, StopError>(None),
            ProcessStopStrategy::GracefulThenForce => match graceful {
                None => r == Err::<Option<String>, StopError>(StopError::GracefulStopUnsupported),
                Some(g) => r matches Ok(Some(l)) && l@ == g.stdin_line@.push('\n'),
            },
        },
{
    match strategy {
        ProcessStopStrategy::ForceOnly => Ok(None),
        ProcessStopStrategy::GracefulThenForce => match graceful {
            None => Err(StopError::GracefulStopUnsupported),
            Some(g) => {
                let mut v = chars_of(g.stdin_line.as_str());
                v.push('\n');
                Ok(Some(string_from(v.as_slice())))
            },
        },
    }
}

/// How an owned stop ended, as the caller saw it.
#[derive(Debug, Clone, Copy, PartialEq, Eq, Structural)]
pub enum OwnedStopEnd {
    /// The process exited within the graceful wait, with this exit code if it had one.
    ExitedGracefully(Option<i32>),
    /// The process tree was killed (after a graceful wait that ran out, or at once).
    Killed,
}

/// The outcome of a stop of an owned process: whether a graceful line was written (the plan
/// asked for one), whether the tree was killed, and the exit code of a graceful exit.
pub fn owned_stop_outcome(pid: u32, graceful_attempted: bool, end: OwnedStopEnd) -> (r: StopOutcome)
    ensures
        r.pid == pid,
        r.graceful_attempted == graceful_attempted,
        r.forced == (end == OwnedStopEnd::Killed),
        r.exit_code == match end {
            OwnedStopEnd::ExitedGracefully(c) => c,
            OwnedStopEnd::Killed => None,
        },
{
    match end {
        OwnedStopEnd::ExitedGracefully(code) => StopOutcome { pid, graceful_attempted, forced: false, exit_code: code },
        OwnedStopEnd::Killed => StopOutcome { pid, graceful_attempted, forced: true, exit_code: None },
    }
}

/// The text of a decimal digit.
pub open spec fn digit_char(d: int) -> char {
    if d == 0 {
        '0'
    } else if d == 1 {
        '1'
    } else if d == 2 {
        '2'
    } else if d == 3 {
        '3'
    } else if d == 4 {
        '4'
    } else if d == 5 {
        '5'
    } else if d == 6 {
        '6'
    } else if d == 7 {
        '7'
    } else if d == 8 {
        '8'
    } else {
        '9'
    }
}

/// The decimal text of a number, without leading zeros.
pub open spec fn decimal(n: nat) -> Seq<char>
    decreases n,
{
    if n < 10 {
        seq![digit_char(n as int)]
    } else {
        decimal(n / 10).push(digit_char((n % 10) as int))
    }
}

fn digit_exec(d: u32) -> (c: char)
    requires
        d < 10,
    ensures
        c == digit_char(d as int),
{
    if d == 0 {
        '0'
    } else if d == 1 {
        '1'
    } else if d == 2 {
        '2'
    } else if d == 3 {
        '3'
    } else if d == 4 {
        '4'
    } else if d == 5 {
        '5'
    } else if d == 6 {
        '6'
    } else if d == 7 {
        '7'
    } else if d == 8 {
        '8'
    } else {
        '9'
    }
}

/// The decimal text of a number.
pub fn decimal_text(n: u32) -> (r: Vec<char>)
    ensures
        r@ == decimal(n as nat),
    decreases n,
{
    if n < 10 {
        let mut v: Vec<char> = Vec::new();
        v.push(digit_exec(n));
        assert(v@ =~= seq![digit_char(n as int)]);
        v
    } else {
        let mut v = decimal_text(n / 10);
        v.push(digit_exec(n % 10));
        v
    }
}

/// The first index at or after `start` where `p` occurs in `s`.
pub open spec fn find_from(s: Seq<char>, p: Seq<char>, start: int) -> Option<int>
    decreases s.len() - start,
{
    if start < 0 || start + p.len() > s.len() {
        None
    } else if p.len() == 0 || occurs_at(s, p, start) {
        Some(start)
    } else {
        find_from(s, p, start + 1)
    }
}

fn find_from_exec(s: &[char], p: &[char], start: usize) -> (r: Option<usize>)
    ensures
        match r {
            Some(i) => find_from(s@, p@, start as int) == Some(i as int) && start <= i && i + p@.len()
                <= s@.len(),
            None => find_from(s@, p@, start as int) is None,
        },
{
    let n = s.len();
    let m = p.len();
    if start > n || m > n - start {
        return None;
    }
    let mut k: usize = start;
    while k <= n - m
        invariant
            n == s@.len(),
            m == p@.len(),
            start <= k,
            m <= n,
            find_from(s@, p@, start as int) == find_from(s@, p@, k as int),
        decreases n - k,
    {
        if m == 0 || occurs_at_exec(s, p, k) {
            return Some(k);
        }
        k = k + 1;
    }
    None
}

/// The separator of the fields of a `tasklist` CSV row: `","`.
pub open spec fn csv_separator() -> Seq<char> {
    seq!['"', ',', '"']
}

/// The second field of a CSV row as `str::split` on `","` gives it, if the row has one.
pub open spec fn second_csv_field(t: Seq<char>) -> Option<Seq<char>> {
    match find_from(t, csv_separator(), 0) {
        None => None,
        Some(i) => match find_from(t, csv_separator(), i + 3) {
            Some(j) => Some(t.subrange(i + 3, j)),
            None => Some(t.subrange(i + 3, t.len() as int)),
        },
    }
}

/// A `tasklist` CSV line names the process: a quoted row whose second field, unquoted, is the
/// decimal process id.
pub open spec fn csv_line_has_pid(line: Seq<char>, pid: u32) -> bool {
    let t = trim(line);
    &&& t.len() > 0
    &&& t[0] == '"'
    &&& match second_csv_field(t) {
        Some(f) => strip_both(f, '"') == decimal(pid as nat),
        None => false,
    }
}

/// Whether some line of a `tasklist` CSV listing names the process.
pub open spec fn tasklist_lists_pid(stdout: Seq<char>, pid: u32) -> bool {
    exists|i: int| 0 <= i < lines(stdout).len() && csv_line_has_pid(#[trigger] lines(stdout)[i], pid)
}

fn csv_line_has_pid_exec(line: &[char], pid: &[char]) -> (r: bool)
    requires
        pid@.len() > 0,
    ensures
        r == {
            let t = trim(line@);
            &&& t.len() > 0
            &&& t[0] == '"'
            &&& match second_csv_field(t) {
                Some(f) => strip_both(f, '"') == pid@,
                None => false,
            }
        },
{
    let t = trim_chars(line);
    if t.len() == 0 || t[0] != '"' {
        return false;
    }
    let mut sep: Vec<char> = Vec::new();
    sep.push('"');
    sep.push(',');
    sep.push('"');
    assert(sep@ =~= csv_separator());
    let f = match find_from_exec(t.as_slice(), sep.as_slice(), 0) {
        None => return false,
        Some(i) => match find_from_exec(t.as_slice(), sep.as_slice(), i + 3) {
            Some(j) => sub_vec(t.as_slice(), i + 3, j),
            None => sub_vec(t.as_slice(), i + 3, t.len()),
        },
    };
    let g = strip_both_exec(f.as_slice(), '"');
    eq_vec(g.as_slice(), pid)
}

fn eq_vec(a: &[char], b: &[char]) -> (r: bool)
    ensures
        r == (a@ == b@),
{
    if a.len() != b.len() {
        return false;
    }
    let mut i: usize = 0;
    while i < a.len()
        invariant
            i <= a@.len(),
            a@.len() == b@.len(),
            forall|j: int| 0 <= j < i ==> a@[j] == b@[j],
        decreases a@.len() - i,
    {
        if a[i] != b[i] {
            return false;
        }
        i = i + 1;
    }
    assert(a@ =~= b@);
    true
}

/// Whether a `tasklist /FO CSV` listing names the process `pid`.
pub fn tasklist_csv_has_pid(stdout: &str, pid: u32) -> (r: bool)
    ensures
        r == tasklist_lists_pid(stdout@, pid),
{
    let expected = decimal_text(pid);
    proof {
        lemma_decimal_nonempty(pid as nat);
    }
    let c = chars_of(stdout);
    let ls = lines_of(c.as_slice());
    let mut i: usize = 0;
    while i < ls.len()
        invariant
            i <= ls@.len(),
            views(ls@) == lines(stdout@),
            expected@ == decimal(pid as nat),
            expected@.len() > 0,
            forall|j: int| 0 <= j < i ==> !csv_line_has_pid(#[trigger] lines(stdout@)[j], pid),
        decreases ls@.len() - i,
    {
        assert(views(ls@)[i as int] == ls@[i as int]@);
        if csv_line_has_pid_exec(ls[i].as_slice(), expected.as_slice()) {
            assert(csv_line_has_pid(lines(stdout@)[i as int], pid));
            return true;
        }
        i = i + 1;
    }
    false
}

proof fn lemma_decimal_nonempty(n: nat)
    ensures
        decimal(n).len() > 0,
    decreases n,
{
    if n >= 10 {
        lemma_decimal_nonempty(n / 10);
    }
}

/// `PATH` with one entry put in front (the entry alone when `PATH` is empty).
pub open spec fn prepended_path(entry: Seq<char>, existing: Seq<char>, separator: Seq<char>) -> Seq<char> {
    if existing.len() == 0 {
        entry
    } else {
        entry + separator + existing
    }
}

pub fn prepend_path_entry(path_entry: &str, existing_path: &str, separator: &str) -> (r: String)
    ensures
        r@ == prepended_path(path_entry@, existing_path@, separator@),
{
    let e = chars_of(existing_path);
    if e.len() == 0 {
        return owned(path_entry);
    }
    let mut v = chars_of(path_entry);
    append_str(&mut v, separator);
    append_chars(&mut v, e.as_slice());
    string_from(v.as_slice())
}

/// How one character is written for `cmd`: `^`, `&`, `(` and `)` escaped by `^`, `%` doubled.
pub open spec fn cmd_escaped_char(c: char) -> Seq<char> {
    if c == '^' {
        seq!['^', '^']
    } else if c == '&' {
        seq!['^', '&']
    } else if c == '(' {
        seq!['^', '(']
    } else if c == ')' {
        seq!['^', ')']
    } else if c == '%' {
        seq!['%', '%']
    } else {
        seq![c]
    }
}

/// A text escaped for `cmd`.
pub open spec fn cmd_escaped(s: Seq<char>) -> Seq<char>
    decreases s.len(),
{
    if s.len() == 0 {
        seq![]
    } else {
        cmd_escaped(s.drop_last()) + cmd_escaped_char(s.last())
    }
}

pub fn escape_for_cmd(value: &str) -> (r: String)
    ensures
        r@ == cmd_escaped(value@),
{
    let s = chars_of(value);
    let mut out: Vec<char> = Vec::new();
    let mut i: usize = 0;
    while i < s.len()
        invariant
            i <= s@.len(),
            s@ == value@,
            out@ == cmd_escaped(s@.subrange(0, i as int)),
        decreases s@.len() - i,
    {
        let c = s[i];
        let ghost pre = s@.subrange(0, i + 1);
        assert(pre.drop_last() == s@.subrange(0, i as int));
        assert(pre.last() == c);
        if c == '^' || c == '&' || c == '(' || c == ')' {
            out.push('^');
            out.push(c);
        } else if c == '%' {
            out.push('%');
            out.push('%');
        } else {
            out.push(c);
        }
        assert(out@ =~= cmd_escaped(pre));
        i = i + 1;
    }
    assert(s@.subrange(0, s@.len() as int) == s@);
    string_from(out.as_slice())
}

/// The `cmd` prefix that sets `JAVA_HOME` and puts the Java binaries first on `PATH`.
pub open spec fn windows_java_env_prefix(java_home: Seq<char>, java_bin_dir: Seq<char>) -> Seq<char> {
    "set \"JAVA_HOME="@ + java_home + "\" & set \"PATH="@ + java_bin_dir + ";%PATH%\""@
}

pub fn build_windows_java_env_prefix(java_home: &str, java_bin_dir: &str) -> (r: String)
    ensures
        r@ == windows_java_env_prefix(java_home@, java_bin_dir@),
{
    let mut v = chars_of("set \"JAVA_HOME=");
    append_str(&mut v, java_home);
    append_str(&mut v, "\" & set \"PATH=");
    append_str(&mut v, java_bin_dir);
    append_str(&mut v, ";%PATH%\"");
    string_from(v.as_slice())
}

/// The path of `path` relative to `base` when it lies under it, else `path` itself.
pub open spec fn relative_or_owned(base: Seq<char>, path: Seq<char>) -> Seq<char> {
    match strip_prefix(path, base) {
        Some(cs) => join_components(cs),
        None => path,
    }
}

pub fn relative_or_owned_text(base: &str, path: &str) -> (r: String)
    ensures
        r@ == relative_or_owned(base@, path@),
{
    let p = chars_of(path);
    let b = chars_of(base);
    match strip_prefix_exec(p.as_slice(), b.as_slice()) {
        Some(cs) => {
            let t = join_components_exec(&cs);
            string_from(t.as_slice())
        },
        None => owned(path),
    }
}

pub open spec fn string_views(v: Seq<String>) -> Seq<Seq<char>> {
    v.map_values(|x: String| x@)
}

/// Texts joined by a separator.
pub open spec fn joined(v: Seq<Seq<char>>, sep: Seq<char>) -> Seq<char>
    decreases v.len(),
{
    if v.len() == 0 {
        seq![]
    } else if v.len() == 1 {
        v[0]
    } else {
        joined(v.drop_last(), sep) + sep + v.last()
    }
}

fn join_texts(v: &Vec<String>, sep: &str) -> (r: Vec<char>)
    ensures
        r@ == joined(string_views(v@), sep@),
{
    let mut out: Vec<char> = Vec::new();
    let mut i: usize = 0;
    while i < v.len()
        invariant
            i <= v@.len(),
            out@ == joined(string_views(v@).subrange(0, i as int), sep@),
        decreases v@.len() - i,
    {
        let ghost pre = string_views(v@).subrange(0, i + 1);
        assert(pre.drop_last() == string_views(v@).subrange(0, i as int));
        assert(pre.last() == v@[i as int]@);
        if i > 0 {
            append_str(&mut out, sep);
        }
        append_str(&mut out, v[i].as_str());
        assert(out@ =~= joined(pre, sep@));
        i = i + 1;
    }
    assert(string_views(v@).subrange(0, v@.len() as int) == string_views(v@));
    out
}

pub(crate) fn copy_strings(v: &Vec<String>) -> (r: Vec<String>)
    ensures
        string_views(r@) == string_views(v@),
{
    let mut out: Vec<String> = Vec::new();
    let mut i: usize = 0;
    while i < v.len()
        invariant
            i <= v@.len(),
            string_views(out@) == string_views(v@).subrange(0, i as int),
        decreases v@.len() - i,
    {
        let ghost old_out = out@;
        out.push(v[i].clone());
        assert(string_views(out@) =~= string_views(old_out).push(v@[i as int]@));
        i = i + 1;
    }
    assert(string_views(v@).subrange(0, v@.len() as int) == string_views(v@));
    out
}

pub(crate) fn push_text(v: &mut Vec<String>, s: &str)
    ensures
        string_views(final(v)@) == string_views(old(v)@).push(s@),
{
    let ghost old_v = v@;
    v.push(owned(s));
    assert(string_views(v@) =~= string_views(old_v).push(s@));
}

fn append_texts(v: &mut Vec<String>, more: &Vec<String>)
    ensures
        string_views(final(v)@) == string_views(old(v)@) + string_views(more@),
{
    let ghost start = string_views(v@);
    let mut i: usize = 0;
    while i < more.len()
        invariant
            i <= more@.len(),
            string_views(v@) == start + string_views(more@).subrange(0, i as int),
        decreases more@.len() - i,
    {
        push_text(v, more[i].as_str());
        assert(start + string_views(more@).subrange(0, i + 1) =~= (start + string_views(more@).subrange(
            0,
            i as int,
        )).push(more@[i as int]@));
        i = i + 1;
    }
    assert(string_views(more@).subrange(0, more@.len() as int) == string_views(more@));
}

/// The file of JVM arguments that a script launch writes first, and its text: one argument per
/// line, each ended by `\n`. Only an args-file-only spec is written; a relative path lies under
/// the working directory.
pub open spec fn args_file_text(args: Seq<Seq<char>>) -> Seq<char> {
    if args.len() == 0 {
        seq![]
    } else {
        joined(args, "\n"@).push('\n')
    }
}

pub open spec fn args_file_location(working_dir: Seq<char>, path: Seq<char>) -> Seq<char> {
    if crate::paths::is_absolute(path) {
        path
    } else {
        crate::paths::join(working_dir, path)
    }
}

/// What a script launch writes before it starts: the path and text of its args file.
pub fn args_file_write(working_dir: &str, args_file: Option<&ArgsFileSpec>) -> (r: Option<(String, String)>)
    ensures
        match args_file {
            Some(a) => if a.mode == ManagedJavaMode::ArgsFileOnly {
                r matches Some((p, t)) && p@ == args_file_location(working_dir@, a.path@) && t@
                    == args_file_text(string_views(a.args@))
            } else {
                r is None
            },
            None => r is None,
        },
{
    let a = match args_file {
        Some(a) => a,
        None => return None,
    };
    match a.mode {
        ManagedJavaMode::ArgsFileOnly => {},
        _ => return None,
    }
    let pv = chars_of(a.path.as_str());
    let path = if pv.len() > 0 && pv[0] == '/' {
        owned(a.path.as_str())
    } else {
        crate::paths::join_exec(working_dir, pv.as_slice())
    };
    let text = if a.args.len() == 0 {
        String::new()
    } else {
        let mut t = join_texts(&a.args, "\n");
        t.push('\n');
        string_from(t.as_slice())
    };
    Some((path, text))
}

/// A command to start: program, arguments, the directory it runs in, and the Java
/// installation whose `JAVA_HOME` and `PATH` it gets.
#[derive(Debug, Clone, PartialEq, Eq)]
pub struct CommandPlan {
    pub program: String,
    pub args: Vec<String>,
    pub current_dir: Option<String>,
    pub java_env: Option<JavaEnvSpec>,
}

/// The arguments of a `java -jar` launch: JVM arguments, `-jar`, the jar (relative to the
/// working directory when under it), `nogui` if asked, then installer arguments.
pub open spec fn jar_command_args(
    working_dir: Seq<char>,
    jar_path: Seq<char>,
    java: JavaCommandSpec,
    installer_args: Seq<Seq<char>>,
) -> Seq<Seq<char>> {
    string_views(java.jvm_args@) + seq!["-jar"@, relative_or_owned(working_dir, jar_path)] + (if java.add_nogui {
        seq!["nogui"@]
    } else {
        seq![]
    }) + installer_args
}

fn jar_command(working_dir: &str, jar_path: &str, java: &JavaCommandSpec, installer_args: Option<&Vec<String>>) -> (r:
    CommandPlan)
    ensures
        r.program@ == java.java_path@,
        string_views(r.args@) == jar_command_args(
            working_dir@,
            jar_path@,
            *java,
            match installer_args {
                Some(a) => string_views(a@),
                None => seq![],
            },
        ),
        r.current_dir matches Some(d) && d@ == working_dir@,
        r.java_env is None,
{
    let mut args = copy_strings(&java.jvm_args);
    push_text(&mut args, "-jar");
    let rel = relative_or_owned_text(working_dir, jar_path);
    push_text(&mut args, rel.as_str());
    let ghost base = string_views(args@);
    if java.add_nogui {
        push_text(&mut args, "nogui");
    }
    let ghost with_nogui = string_views(args@);
    match installer_args {
        Some(a) => append_texts(&mut args, a),
        None => {
            assert(string_views(args@) =~= with_nogui + Seq::<Seq<char>>::empty());
        },
    }
    proof {
        assert(base =~= string_views(java.jvm_args@) + seq!["-jar"@, relative_or_owned(working_dir@, jar_path@)]);
        assert(with_nogui =~= base + (if java.add_nogui {
            seq!["nogui"@]
        } else {
            seq![]
        }));
    }
    CommandPlan {
        program: owned(java.java_path.as_str()),
        args,
        current_dir: Some(owned(working_dir)),
        java_env: None,
    }
}

/// The `cmd` text that runs a batch script: code page, Java environment, then the call.
pub open spec fn bat_command_text(
    script_text: Seq<char>,
    java_env: Option<JavaEnvSpec>,
    windows_codepage: Option<Seq<char>>,
    trailing_args: Seq<Seq<char>>,
) -> Seq<char> {
    let tail = if trailing_args.len() == 0 {
        seq![]
    } else {
        " "@ + joined(trailing_args, " "@)
    };
    let call = "call \""@ + cmd_escaped(script_text) + seq!['"'] + tail;
    let call_text = match java_env {
        Some(e) => windows_java_env_prefix(e.java_home@, e.java_bin_dir@) + " & "@ + call,
        None => call,
    };
    match windows_codepage {
        Some(c) => if trim(c).len() > 0 {
            "chcp "@ + trim(c) + ">nul & "@ + call_text
        } else {
            call_text
        },
        None => call_text,
    }
}

pub open spec fn opt_text(s: Option<String>) -> Option<Seq<char>> {
    match s {
        Some(s) => Some(s@),
        None => None,
    }
}

pub fn build_bat_command_text(
    script_text: &str,
    java_env: Option<&JavaEnvSpec>,
    windows_codepage: Option<&String>,
    trailing_args: &Vec<String>,
) -> (r: String)
    ensures
        r@ == bat_command_text(
            script_text@,
            match java_env {
                Some(e) => Some(*e),
                None => None,
            },
            match windows_codepage {
                Some(c) => Some(c@),
                None => None,
            },
            string_views(trailing_args@),
        ),
{
    let mut call = chars_of("call \"");
    let esc = escape_for_cmd(script_text);
    append_str(&mut call, esc.as_str());
    call.push('"');
    if trailing_args.len() > 0 {
        append_str(&mut call, " ");
        let j = join_texts(trailing_args, " ");
        append_chars(&mut call, j.as_slice());
    }
    let call_text = match java_env {
        Some(e) => {
            let prefix = build_windows_java_env_prefix(e.java_home.as_str(), e.java_bin_dir.as_str());
            let mut v = chars_of(prefix.as_str());
            append_str(&mut v, " & ");
            append_chars(&mut v, call.as_slice());
            v
        },
        None => call,
    };
    let out = match windows_codepage {
        Some(c) => {
            let t = trim_chars(chars_of(c.as_str()).as_slice());
            if t.len() > 0 {
                let mut v = chars_of("chcp ");
                append_chars(&mut v, t.as_slice());
                append_str(&mut v, ">nul & ");
                append_chars(&mut v, call_text.as_slice());
                v
            } else {
                call_text
            }
        },
        None => call_text,
    };
    string_from(out.as_slice())
}

/// The arguments that run a PowerShell script.
pub open spec fn ps1_args(script: Seq<char>, trailing: Seq<Seq<char>>) -> Seq<Seq<char>> {
    seq!["-NoProfile"@, "-NonInteractive"@, "-ExecutionPolicy"@, "Bypass"@, "-File"@, script] + trailing
}

/// The command of a launch, given whether it runs on Windows.
pub open spec fn command_plan_is(r: Result<CommandPlan, LaunchError>, spec: LocalLaunchSpec, windows: bool) -> bool {
    let wd = spec.working_dir@;
    match spec.entry {
        LocalLaunchEntry::DirectJar { jar_path, java } => r matches Ok(c) && c.program@ == java.java_path@
            && string_views(c.args@) == jar_command_args(wd, jar_path@, java, seq![])
            && (c.current_dir matches Some(d) && d@ == wd) && c.java_env is None,
        LocalLaunchEntry::StarterInstall(st) => r matches Ok(c) && c.program@ == st.java.java_path@
            && string_views(c.args@) == jar_command_args(
            wd,
            st.installer_jar@,
            st.java,
            string_views(st.install_args@),
        ) && (c.current_dir matches Some(d) && d@ == wd) && c.java_env is None,
        LocalLaunchEntry::Script(sc) => {
            let rel = relative_or_owned(wd, sc.script_path@);
            let trailing = string_views(sc.trailing_args@);
            match sc.startup_mode {
                StartupMode::Bat => if windows {
                    r matches Ok(c) && c.program@ == "cmd"@ && string_views(c.args@) == seq![
                        "/d"@,
                        "/c"@,
                        bat_command_text(rel, sc.java_env, opt_text(sc.windows_codepage), trailing),
                    ] && c.current_dir is None && c.java_env is None
                } else {
                    r matches Err(LaunchError::UnsupportedStartupMode(Some(m))) && m@ == "bat"@
                },
                StartupMode::Sh => r matches Ok(c) && c.program@ == "sh"@ && string_views(c.args@) == seq![
                    rel,
                ] + trailing && c.current_dir is None && c.java_env == sc.java_env,
                StartupMode::Ps1 => r matches Ok(c) && c.program@ == "powershell"@ && string_views(c.args@)
                    == ps1_args(rel, trailing) && c.current_dir is None && c.java_env == sc.java_env,
                _ => r matches Err(LaunchError::UnsupportedStartupMode(Some(m))) && m@
                    == sc.startup_mode.name(),
            }
        },
        LocalLaunchEntry::Executable { executable_path, args } => r matches Ok(c) && c.program@
            == executable_path@ && string_views(c.args@) == string_views(args@) && c.current_dir is None
            && c.java_env is None,
        LocalLaunchEntry::CustomCommand { command, java_env, .. } => if trim(command@).len() == 0 {
            r == Err::<CommandPlan, LaunchError>(LaunchError::MissingCustomCommand)
        } else if windows {
            r matches Ok(c) && c.program@ == "cmd"@ && string_views(c.args@) == seq![
                "/d"@,
                "/c"@,
                command@,
            ] && c.current_dir is None && c.java_env == java_env
        } else {
            r matches Ok(c) && c.program@ == "sh"@ && string_views(c.args@) == seq!["-c"@, command@]
                && c.current_dir is None && c.java_env == java_env
        },
    }
}

pub(crate) fn copy_env(e: &Option<JavaEnvSpec>) -> (r: Option<JavaEnvSpec>)
    ensures
        r == *e,
{
    match e {
        Some(e) => Some(JavaEnvSpec { java_home: e.java_home.clone(), java_bin_dir: e.java_bin_dir.clone() }),
        None => None,
    }
}

fn texts2(a: &str, b: &str) -> (r: Vec<String>)
    ensures
        string_views(r@) == seq![a@, b@],
{
    let mut v: Vec<String> = Vec::new();
    push_text(&mut v, a);
    push_text(&mut v, b);
    assert(string_views(v@) =~= seq![a@, b@]);
    v
}

/// The command that a launch spec runs. `windows` tells whether it runs on Windows, where
/// batch scripts and custom commands go through `cmd`. The working directory is not checked
/// here, nor is an args file written.
pub fn plan_launch_command(spec: &LocalLaunchSpec, windows: bool) -> (r: Result<CommandPlan, LaunchError>)
    ensures
        command_plan_is(r, *spec, windows),
{
    let wd = spec.working_dir.as_str();
    match &spec.entry {
        LocalLaunchEntry::DirectJar { jar_path, java } => {
            let c = jar_command(wd, jar_path.as_str(), java, None);
            Ok(c)
        },
        LocalLaunchEntry::StarterInstall(st) => {
            let c = jar_command(wd, st.installer_jar.as_str(), &st.java, Some(&st.install_args));
            Ok(c)
        },
        LocalLaunchEntry::Script(sc) => {
            let rel = relative_or_owned_text(wd, sc.script_path.as_str());
            match sc.startup_mode {
                StartupMode::Bat => {
                    if !windows {
                        return Err(LaunchError::UnsupportedStartupMode(Some(owned("bat"))));
                    }
                    let text = match &sc.java_env {
                        Some(e) => build_bat_command_text(rel.as_str(), Some(e), sc.windows_codepage.as_ref(), &sc.trailing_args),
                        None => build_bat_command_text(rel.as_str(), None, sc.windows_codepage.as_ref(), &sc.trailing_args),
                    };
                    let mut args = texts2("/d", "/c");
                    push_text(&mut args, text.as_str());
                    assert(string_views(args@) =~= seq!["/d"@, "/c"@, text@]);
                    Ok(CommandPlan { program: owned("cmd"), args, current_dir: None, java_env: None })
                },
                StartupMode::Sh => {
                    let mut args: Vec<String> = Vec::new();
                    push_text(&mut args, rel.as_str());
                    assert(string_views(args@) =~= seq![rel@]);
                    append_texts(&mut args, &sc.trailing_args);
                    Ok(CommandPlan { program: owned("sh"), args, current_dir: None, java_env: copy_env(&sc.java_env) })
                },
                StartupMode::Ps1 => {
                    let mut args = texts2("-NoProfile", "-NonInteractive");
                    push_text(&mut args, "-ExecutionPolicy");
                    push_text(&mut args, "Bypass");
                    push_text(&mut args, "-File");
                    push_text(&mut args, rel.as_str());
                    let ghost head = string_views(args@);
                    append_texts(&mut args, &sc.trailing_args);
                    assert(head =~= seq!["-NoProfile"@, "-NonInteractive"@, "-ExecutionPolicy"@, "Bypass"@, "-File"@, rel@]);
                    Ok(
                        CommandPlan {
                            program: owned("powershell"),
                            args,
                            current_dir: None,
                            java_env: copy_env(&sc.java_env),
                        },
                    )
                },
                _ => Err(LaunchError::UnsupportedStartupMode(Some(owned(sc.startup_mode.as_str())))),
            }
        },
        LocalLaunchEntry::Executable { executable_path, args } => Ok(
            CommandPlan {
                program: owned(executable_path.as_str()),
                args: copy_strings(args),
                current_dir: None,
                java_env: None,
            },
        ),
        LocalLaunchEntry::CustomCommand { command, java_env, .. } => {
            let t = trim_chars(chars_of(command.as_str()).as_slice());
            if t.len() == 0 {
                return Err(LaunchError::MissingCustomCommand);
            }
            if windows {
                let mut args = texts2("/d", "/c");
                push_text(&mut args, command.as_str());
                assert(string_views(args@) =~= seq!["/d"@, "/c"@, command@]);
                Ok(CommandPlan { program: owned("cmd"), args, current_dir: None, java_env: copy_env(java_env) })
            } else {
                let args = texts2("-c", command.as_str());
                Ok(CommandPlan { program: owned("sh"), args, current_dir: None, java_env: copy_env(java_env) })
            }
        },
    }
}

/// A local server counts as up (starting or running) exactly when its process runs, and a
/// running server is only `Starting` while its probed port does not listen.
pub proof fn lemma_flow_state_follows_process(has_pid: bool, running: bool, port_probe: Option<PortProbeStatus>)
    ensures
        (flow_state(has_pid, running, port_probe) == LocalFlowState::Starting || flow_state(has_pid, running, port_probe)
            == LocalFlowState::Running) <==> running,
        flow_state(has_pid, running, port_probe) == LocalFlowState::Starting <==> (running && (port_probe matches Some(
            p,
        ) && !p.listening)),
        flow_state(has_pid, running, port_probe) == LocalFlowState::Unknown <==> (!running && !has_pid),
{
}

} // verus!
