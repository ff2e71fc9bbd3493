//! Runtime server information: log lines, RCON replies and metric provider texts.
use vstd::prelude::*;
use crate::flow::{decimal, decimal_text};
use crate::taxonomy::{family_of, spec_core_key, CoreFamily};
use crate::text::{
    append_chars, append_str, chars_of, contains, contains_str, eq_ignore_case, is_ws, lines,
    lines_of, lower, lower_chars, owned, split, split_chars, starts_with, starts_with_str,
    string_from, sub_vec, trim, trim_chars, trimmed_chars, views, find_char, find_char_exec,
    exec_is_ws, lower_of,
};

verus! {

#[derive(Debug, Clone, Copy, PartialEq, Eq, Structural)]
pub enum LogStream {
    Stdout,
    Stderr,
    Unknown,
}

#[derive(Debug, Clone, Copy, PartialEq, Eq, Structural)]
pub enum LogLevel {
    Trace,
    Debug,
    Info,
    Warn,
    Error,
    Fatal,
}

#[derive(Debug, Clone, PartialEq, Eq)]
pub struct LogLineInput {
    pub raw: String,
    pub stream: LogStream,
}

/// A console line split into its parts.
#[derive(Debug, Clone, PartialEq, Eq)]
pub struct StructuredLogLine {
    pub raw: String,
    pub message: String,
    pub stream: LogStream,
    pub timestamp_text: Option<String>,
    pub level: Option<LogLevel>,
    pub thread: Option<String>,
}

/// What a console line tells about the server, if anything.
#[derive(Debug, Clone, PartialEq, Eq)]
pub enum DomainEvent {
    ServerReady,
    PlayerJoin { player: String },
    PlayerLeave { player: String },
    Chat { player: String, message: String },
    ErrorLike { message: String },
}

#[derive(Debug, Clone, PartialEq, Eq)]
pub struct ParsedLogLine {
    pub structured: StructuredLogLine,
    pub event: Option<DomainEvent>,
}

/// A Java server log line: `[time] [thread/LEVEL]: message`.
pub const JAVA_LOG_PATTERN: &'static str = "^\\[(?P<time>[^\\]]+)\\]\\s*\\[(?P<thread>[^/]+)/(?P<level>[A-Z]+)\\]:\\s*(?P<message>.+)$";

/// A plain log line: an optional `[prefix]`, a level word, then the message.
pub const SIMPLE_LOG_PATTERN: &'static str = "^(?:\\[[^\\]]+\\]\\s*)?(?P<level>TRACE|DEBUG|INFO|WARN|ERROR|FATAL)[:\\s-]+(?P<message>.+)$";

/// The bracketed timestamp that opens a line.
pub const TIMESTAMP_PATTERN: &'static str = "^\\[([^\\]]+)\\]";

/// The thread of a Java server log line.
pub const THREAD_PATTERN: &'static str = "^\\[[^\\]]+\\]\\s*\\[([^/]+)/[A-Z]+\\]";

/// A player joining.
pub const JOIN_PATTERN: &'static str = "^([A-Za-z0-9_]{1,32}) joined the game$";

/// A player leaving.
pub const LEAVE_PATTERN: &'static str = "^([A-Za-z0-9_]{1,32}) left the game$";

/// A chat line: `<player> message`.
pub const CHAT_PATTERN: &'static str = "^<([^>]+)>\\s*(.+)$";

/// The reply of `list`.
pub const LIST_PATTERN: &'static str = "There are\\s+(\\d+)\\s+of(?:\\s+a)?\\s+max(?:imum)?(?:\\s+of)?\\s+(\\d+)\\s+players\\s+online(?::\\s*(.*))?$";

/// The capture groups (group 0 first) of the first match of a regular expression in a text,
/// as the `regex` crate finds them; none when it does not match or the pattern is refused.
pub uninterp spec fn regex_groups(pattern: Seq<char>, text: Seq<char>) -> Option<Seq<Option<Seq<char>>>>;

pub open spec fn group_texts(v: Seq<Option<String>>) -> Seq<Option<Seq<char>>> {
    v.map_values(|g: Option<String>| match g {
        Some(s) => Some(s@),
        None => None,
    })
}

pub open spec fn opt_groups(r: Option<Vec<Option<String>>>) -> Option<Seq<Option<Seq<char>>>> {
    match r {
        Some(v) => Some(group_texts(v@)),
        None => None,
    }
}

/// `regex::Regex::new(pattern)` then `captures(text)`, each group taken as text. Trusted: the
/// result is [`regex_groups`] of the pattern and the text; a refused pattern gives none.
#[verifier::external_body]
pub(crate) fn regex_captures(pattern: &str, text: &str) -> (r: Option<Vec<Option<String>>>)
    ensures
        opt_groups(r) == regex_groups(pattern@, text@),
{
    match regex::Regex::new(pattern) {
        Ok(re) => re.captures(text).map(|c| c.iter().map(|m| m.map(|m| m.as_str().to_string())).collect()),
        Err(_) => None,
    }
}

/// Group `i` of a match, if the match and the group exist.
pub open spec fn group_at(g: Option<Seq<Option<Seq<char>>>>, i: int) -> Option<Seq<char>> {
    match g {
        Some(s) => if 0 <= i < s.len() {
            s[i]
        } else {
            None
        },
        None => None,
    }
}

pub(crate) fn group_of(g: &Option<Vec<Option<String>>>, i: usize) -> (r: Option<String>)
    ensures
        match r {
            Some(s) => group_at(opt_groups(*g), i as int) == Some(s@),
            None => group_at(opt_groups(*g), i as int) is None,
        },
{
    match g {
        Some(v) => {
            if i < v.len() {
                match &v[i] {
                    Some(s) => Some(s.clone()),
                    None => None,
                }
            } else {
                None
            }
        },
        None => None,
    }
}

/// A text without its trailing carriage returns and line feeds.
pub open spec fn strip_line_end(s: Seq<char>) -> Seq<char>
    decreases s.len(),
{
    if s.len() > 0 && (s.last() == '\r' || s.last() == '\n') {
        strip_line_end(s.drop_last())
    } else {
        s
    }
}

fn strip_line_end_exec(s: &str) -> (r: String)
    ensures
        r@ == strip_line_end(s@),
{
    let v = chars_of(s);
    let n = v.len();
    let mut b: usize = n;
    assert(v@.subrange(0, n as int) == v@);
    while b > 0 && (v[b - 1] == '\r' || v[b - 1] == '\n')
        invariant
            b <= n,
            n == v@.len(),
            strip_line_end(v@) == strip_line_end(v@.subrange(0, b as int)),
        decreases b,
    {
        assert(v@.subrange(0, b as int).drop_last() == v@.subrange(0, b - 1));
        b = b - 1;
    }
    string_from(sub_vec(v.as_slice(), 0, b).as_slice())
}

/// The message of a log line, from the groups of the Java-log pattern and of the plain-log
/// pattern: the Java message group, else the plain level word, a blank, and the plain message.
pub open spec fn message_of_groups(
    java: Option<Seq<Option<Seq<char>>>>,
    simple: Option<Seq<Option<Seq<char>>>>,
) -> Option<Seq<char>> {
    match group_at(java, 4) {
        Some(m) => Some(m),
        None => match (group_at(simple, 1), group_at(simple, 2)) {
            (Some(l), Some(m)) => Some(l + " "@ + m),
            _ => None,
        },
    }
}

/// The message of a log line.
pub open spec fn line_message(raw: Seq<char>) -> Option<Seq<char>> {
    message_of_groups(regex_groups(JAVA_LOG_PATTERN@, raw), regex_groups(SIMPLE_LOG_PATTERN@, raw))
}

/// The message of a log line, given what the Java-log and plain-log patterns captured.
pub fn message_from_captures(
    java: &Option<Vec<Option<String>>>,
    simple: &Option<Vec<Option<String>>>,
) -> (r: Option<String>)
    ensures
        opt_text(r) == message_of_groups(opt_groups(*java), opt_groups(*simple)),
{
    if let Some(m) = group_of(java, 4) {
        return Some(m);
    }
    match (group_of(simple, 1), group_of(simple, 2)) {
        (Some(l), Some(m)) => {
            let mut v = chars_of(l.as_str());
            append_str(&mut v, " ");
            append_str(&mut v, m.as_str());
            Some(string_from(v.as_slice()))
        },
        _ => None,
    }
}

pub fn extract_message(raw: &str) -> (r: Option<String>)
    ensures
        opt_text(r) == line_message(raw@),
{
    let java = regex_captures(JAVA_LOG_PATTERN, raw);
    let simple = regex_captures(SIMPLE_LOG_PATTERN, raw);
    message_from_captures(&java, &simple)
}

/// The timestamp text of a log line.
pub open spec fn line_timestamp(raw: Seq<char>) -> Option<Seq<char>> {
    group_at(regex_groups(TIMESTAMP_PATTERN@, raw), 1)
}

pub fn extract_timestamp(raw: &str) -> (r: Option<String>)
    ensures
        match r {
            Some(s) => line_timestamp(raw@) == Some(s@),
            None => line_timestamp(raw@) is None,
        },
{
    let g = regex_captures(TIMESTAMP_PATTERN, raw);
    group_of(&g, 1)
}

/// The thread of a log line.
pub open spec fn line_thread(raw: Seq<char>) -> Option<Seq<char>> {
    group_at(regex_groups(THREAD_PATTERN@, raw), 1)
}

pub fn extract_thread(raw: &str) -> (r: Option<String>)
    ensures
        match r {
            Some(s) => line_thread(raw@) == Some(s@),
            None => line_thread(raw@) is None,
        },
{
    let g = regex_captures(THREAD_PATTERN, raw);
    group_of(&g, 1)
}

/// The level of a log line: the first level whose `/LEVEL]` marker the line holds or whose
/// name starts it, from `TRACE` up to `FATAL`.
pub open spec fn line_level(raw: Seq<char>) -> Option<LogLevel> {
    if contains(raw, "/TRACE]"@) || starts_with(raw, "TRACE"@) {
        Some(LogLevel::Trace)
    } else if contains(raw, "/DEBUG]"@) || starts_with(raw, "DEBUG"@) {
        Some(LogLevel::Debug)
    } else if contains(raw, "/INFO]"@) || starts_with(raw, "INFO"@) {
        Some(LogLevel::Info)
    } else if contains(raw, "/WARN]"@) || starts_with(raw, "WARN"@) {
        Some(LogLevel::Warn)
    } else if contains(raw, "/ERROR]"@) || starts_with(raw, "ERROR"@) {
        Some(LogLevel::Error)
    } else if contains(raw, "/FATAL]"@) || starts_with(raw, "FATAL"@) {
        Some(LogLevel::Fatal)
    } else {
        None
    }
}

/// How severe a level is, from trace up to fatal.
pub open spec fn level_severity(l: LogLevel) -> int {
    match l {
        LogLevel::Trace => 0,
        LogLevel::Debug => 1,
        LogLevel::Info => 2,
        LogLevel::Warn => 3,
        LogLevel::Error => 4,
        LogLevel::Fatal => 5,
    }
}

/// The word that names a level in a log line.
pub open spec fn level_word(l: LogLevel) -> Seq<char> {
    match l {
        LogLevel::Trace => "TRACE"@,
        LogLevel::Debug => "DEBUG"@,
        LogLevel::Info => "INFO"@,
        LogLevel::Warn => "WARN"@,
        LogLevel::Error => "ERROR"@,
        LogLevel::Fatal => "FATAL"@,
    }
}

/// The marker of a level inside a Java log line's thread part.
pub open spec fn level_marker(l: LogLevel) -> Seq<char> {
    match l {
        LogLevel::Trace => "/TRACE]"@,
        LogLevel::Debug => "/DEBUG]"@,
        LogLevel::Info => "/INFO]"@,
        LogLevel::Warn => "/WARN]"@,
        LogLevel::Error => "/ERROR]"@,
        LogLevel::Fatal => "/FATAL]"@,
    }
}

/// The line marks the level: its marker is in the line, or its word starts the line.
pub open spec fn marks_level(raw: Seq<char>, l: LogLevel) -> bool {
    contains(raw, level_marker(l)) || starts_with(raw, level_word(l))
}

/// The level of a line is the least severe level that the line marks, and a line that marks
/// none has none.
pub proof fn lemma_level_is_least_marked(raw: Seq<char>, l: LogLevel)
    ensures
        marks_level(raw, l) && (forall|k: LogLevel|
            level_severity(k) < level_severity(l) ==> !#[trigger] marks_level(raw, k)) ==> line_level(raw) == Some(l),
        line_level(raw) == Some(l) ==> marks_level(raw, l) && (forall|k: LogLevel|
            level_severity(k) < level_severity(l) ==> !#[trigger] marks_level(raw, k)),
        line_level(raw) is None <==> (forall|k: LogLevel| !#[trigger] marks_level(raw, k)),
{
    assert(marks_level(raw, LogLevel::Trace) == (contains(raw, "/TRACE]"@) || starts_with(raw, "TRACE"@)));
    assert(marks_level(raw, LogLevel::Debug) == (contains(raw, "/DEBUG]"@) || starts_with(raw, "DEBUG"@)));
    assert(marks_level(raw, LogLevel::Info) == (contains(raw, "/INFO]"@) || starts_with(raw, "INFO"@)));
    assert(marks_level(raw, LogLevel::Warn) == (contains(raw, "/WARN]"@) || starts_with(raw, "WARN"@)));
    assert(marks_level(raw, LogLevel::Error) == (contains(raw, "/ERROR]"@) || starts_with(raw, "ERROR"@)));
    assert(marks_level(raw, LogLevel::Fatal) == (contains(raw, "/FATAL]"@) || starts_with(raw, "FATAL"@)));
    assert forall|k: LogLevel| line_level(raw) is None implies !marks_level(raw, k) by {
        match k {
            LogLevel::Trace => {},
            LogLevel::Debug => {},
            LogLevel::Info => {},
            LogLevel::Warn => {},
            LogLevel::Error => {},
            LogLevel::Fatal => {},
        }
    }
    assert forall|k: LogLevel| level_severity(k) < level_severity(l) && line_level(raw) == Some(l) implies !marks_level(raw, k) by {
        match k {
            LogLevel::Trace => {},
            LogLevel::Debug => {},
            LogLevel::Info => {},
            LogLevel::Warn => {},
            LogLevel::Error => {},
            LogLevel::Fatal => {},
        }
    }
}

pub fn extract_level(raw: &str) -> (r: Option<LogLevel>)
    ensures
        r == line_level(raw@),
{
    let v = chars_of(raw);
    let s = v.as_slice();
    if contains_str(s, "/TRACE]") || starts_with_str(s, "TRACE") {
        Some(LogLevel::Trace)
    } else if contains_str(s, "/DEBUG]") || starts_with_str(s, "DEBUG") {
        Some(LogLevel::Debug)
    } else if contains_str(s, "/INFO]") || starts_with_str(s, "INFO") {
        Some(LogLevel::Info)
    } else if contains_str(s, "/WARN]") || starts_with_str(s, "WARN") {
        Some(LogLevel::Warn)
    } else if contains_str(s, "/ERROR]") || starts_with_str(s, "ERROR") {
        Some(LogLevel::Error)
    } else if contains_str(s, "/FATAL]") || starts_with_str(s, "FATAL") {
        Some(LogLevel::Fatal)
    } else {
        None
    }
}

pub open spec fn opt_text(s: Option<String>) -> Option<Seq<char>> {
    match s {
        Some(s) => Some(s@),
        None => None,
    }
}

/// The parts of a console line, once its line end is removed.
pub open spec fn structured_is(s: StructuredLogLine, input: LogLineInput) -> bool {
    let raw = strip_line_end(input.raw@);
    &&& s.raw@ == raw
    &&& s.message@ == match line_message(raw) {
        Some(m) => m,
        None => raw,
    }
    &&& s.stream == input.stream
    &&& opt_text(s.timestamp_text) == line_timestamp(raw)
    &&& s.level == line_level(raw)
    &&& opt_text(s.thread) == line_thread(raw)
}

pub fn parse_structured_line(input: LogLineInput) -> (r: StructuredLogLine)
    ensures
        structured_is(r, input),
{
    let raw = strip_line_end_exec(input.raw.as_str());
    let message = match extract_message(raw.as_str()) {
        Some(m) => m,
        None => raw.clone(),
    };
    let timestamp_text = extract_timestamp(raw.as_str());
    let level = extract_level(raw.as_str());
    let thread = extract_thread(raw.as_str());
    StructuredLogLine { raw, message, stream: input.stream, timestamp_text, level, thread }
}

/// The view of a domain event.
pub enum EventView {
    ServerReady,
    PlayerJoin(Seq<char>),
    PlayerLeave(Seq<char>),
    Chat(Seq<char>, Seq<char>),
    ErrorLike(Seq<char>),
}

impl View for DomainEvent {
    type V = EventView;

    open spec fn view(&self) -> EventView {
        match self {
            DomainEvent::ServerReady => EventView::ServerReady,
            DomainEvent::PlayerJoin { player } => EventView::PlayerJoin(player@),
            DomainEvent::PlayerLeave { player } => EventView::PlayerLeave(player@),
            DomainEvent::Chat { player, message } => EventView::Chat(player@, message@),
            DomainEvent::ErrorLike { message } => EventView::ErrorLike(message@),
        }
    }
}

pub open spec fn opt_event(e: Option<DomainEvent>) -> Option<EventView> {
    match e {
        Some(e) => Some(e@),
        None => None,
    }
}

/// The event of a trimmed message, given what the join, leave and chat patterns captured in
/// it: the ready banner, a join, a leave, a chat line, or a line that speaks of an error,
/// exception or fatal condition, in that order.
pub open spec fn event_of_groups(
    m: Seq<char>,
    join: Option<Seq<Option<Seq<char>>>>,
    leave: Option<Seq<Option<Seq<char>>>>,
    chat: Option<Seq<Option<Seq<char>>>>,
) -> Option<EventView> {
    let l = lower(m);
    if contains(m, "Done ("@) && contains(m, ")! For help"@) {
        Some(EventView::ServerReady)
    } else if group_at(join, 1) is Some {
        Some(EventView::PlayerJoin(group_at(join, 1)->0))
    } else if group_at(leave, 1) is Some {
        Some(EventView::PlayerLeave(group_at(leave, 1)->0))
    } else if group_at(chat, 1) is Some && group_at(chat, 2) is Some {
        Some(EventView::Chat(trim(group_at(chat, 1)->0), trim(group_at(chat, 2)->0)))
    } else if contains(l, "error"@) || contains(l, "exception"@) || contains(l, "fatal"@) {
        Some(EventView::ErrorLike(m))
    } else {
        None
    }
}

/// The event of a message, taken trimmed.
pub open spec fn message_event(message: Seq<char>) -> Option<EventView> {
    let m = trim(message);
    event_of_groups(
        m,
        regex_groups(JOIN_PATTERN@, m),
        regex_groups(LEAVE_PATTERN@, m),
        regex_groups(CHAT_PATTERN@, m),
    )
}

/// The event of a trimmed message, given what the join, leave and chat patterns captured.
pub fn event_from_captures(
    message: &str,
    join: &Option<Vec<Option<String>>>,
    leave: &Option<Vec<Option<String>>>,
    chat: &Option<Vec<Option<String>>>,
) -> (r: Option<DomainEvent>)
    ensures
        opt_event(r) == event_of_groups(message@, opt_groups(*join), opt_groups(*leave), opt_groups(*chat)),
{
    let t = chars_of(message);
    if contains_str(t.as_slice(), "Done (") && contains_str(t.as_slice(), ")! For help") {
        return Some(DomainEvent::ServerReady);
    }
    if let Some(p) = group_of(join, 1) {
        return Some(DomainEvent::PlayerJoin { player: p });
    }
    if let Some(p) = group_of(leave, 1) {
        return Some(DomainEvent::PlayerLeave { player: p });
    }
    match (group_of(chat, 1), group_of(chat, 2)) {
        (Some(p), Some(msg)) => {
            let pt = trimmed_chars(p.as_str());
            let mt = trimmed_chars(msg.as_str());
            return Some(
                DomainEvent::Chat { player: string_from(pt.as_slice()), message: string_from(mt.as_slice()) },
            );
        },
        _ => {},
    }
    let l = lower_chars(t.as_slice());
    if contains_str(l.as_slice(), "error") || contains_str(l.as_slice(), "exception") || contains_str(
        l.as_slice(),
        "fatal",
    ) {
        return Some(DomainEvent::ErrorLike { message: owned(message) });
    }
    None
}

pub fn parse_domain_event(line: &StructuredLogLine) -> (r: Option<DomainEvent>)
    ensures
        opt_event(r) == message_event(line.message@),
{
    let t = trimmed_chars(line.message.as_str());
    let m = string_from(t.as_slice());
    let join = regex_captures(JOIN_PATTERN, m.as_str());
    let leave = regex_captures(LEAVE_PATTERN, m.as_str());
    let chat = regex_captures(CHAT_PATTERN, m.as_str());
    event_from_captures(m.as_str(), &join, &leave, &chat)
}

/// Reads a console line: its parts, and the event it tells of. The core key is not used.
pub fn parse_log_line(core_key: Option<&str>, input: LogLineInput) -> (r: ParsedLogLine)
    ensures
        structured_is(r.structured, input),
        opt_event(r.event) == message_event(r.structured.message@),
{
    let structured = parse_structured_line(input);
    let event = parse_domain_event(&structured);
    ParsedLogLine { structured, event }
}

pub open spec fn string_views(v: Seq<String>) -> Seq<Seq<char>> {
    v.map_values(|x: String| x@)
}

/// Why a runtime probe failed.
#[derive(Debug, Clone, PartialEq, Eq)]
pub enum ServerInfoError {
    UnsupportedTransport(String),
    UnsupportedFamily(String),
    Connection(String),
    Authentication(String),
    Command(String),
    Parse(String),
}

impl ServerInfoError {
    /// The message of the error (what its `Display` writes).
    pub fn message(&self) -> (r: &str)
        ensures
            r@ == match self {
                ServerInfoError::UnsupportedTransport(m) => m@,
                ServerInfoError::UnsupportedFamily(m) => m@,
                ServerInfoError::Connection(m) => m@,
                ServerInfoError::Authentication(m) => m@,
                ServerInfoError::Command(m) => m@,
                ServerInfoError::Parse(m) => m@,
            },
    {
        match self {
            ServerInfoError::UnsupportedTransport(m) => m.as_str(),
            ServerInfoError::UnsupportedFamily(m) => m.as_str(),
            ServerInfoError::Connection(m) => m.as_str(),
            ServerInfoError::Authentication(m) => m.as_str(),
            ServerInfoError::Command(m) => m.as_str(),
            ServerInfoError::Parse(m) => m.as_str(),
        }
    }
}

/// A warning left by a probe step that failed without failing the probe.
#[derive(Debug, Clone, PartialEq, Eq)]
pub struct ProbeWarning {
    pub stage: &'static str,
    pub provider: Option<&'static str>,
    pub message: String,
}

impl ProbeWarning {
    pub fn new(stage: &'static str, provider: Option<&'static str>, message: &str) -> (r: Self)
        ensures
            r.stage == stage,
            r.provider == provider,
            r.message@ == message@,
    {
        ProbeWarning { stage, provider, message: owned(message) }
    }
}

#[derive(Debug, Clone, PartialEq, Eq)]
pub struct OnlinePlayersSnapshot {
    pub online: u32,
    pub max: Option<u32>,
    pub players: Vec<String>,
}

/// Where an RCON server listens, and its password.
#[derive(Debug, Clone, PartialEq, Eq)]
pub struct RconEndpoint {
    pub host: String,
    pub port: u16,
    pub password: String,
}

impl RconEndpoint {
    /// `host:port`, the host trimmed.
    pub fn address(&self) -> (r: String)
        ensures
            r@ == trim(self.host@) + ":"@ + decimal(self.port as nat),
    {
        let mut v = trimmed_chars(self.host.as_str());
        append_str(&mut v, ":");
        let d = decimal_text(self.port as u32);
        append_chars(&mut v, d.as_slice());
        string_from(v.as_slice())
    }
}

#[derive(Debug, Clone, PartialEq, Eq)]
pub struct RconProbeOptions {
    pub core_key: Option<String>,
    pub connect_timeout_ms: u64,
    pub read_timeout_ms: u64,
}

impl Default for RconProbeOptions {
    fn default() -> (r: Self)
        ensures
            r.core_key is None,
            r.connect_timeout_ms == 5000,
            r.read_timeout_ms == 5000,
    {
        RconProbeOptions { core_key: None, connect_timeout_ms: 5000, read_timeout_ms: 5000 }
    }
}

/// The value of a run of ASCII digits.
pub open spec fn digits_value(s: Seq<char>) -> nat
    decreases s.len(),
{
    if s.len() == 0 {
        0
    } else {
        digits_value(s.drop_last()) * 10 + ((s.last() as u32) - ('0' as u32)) as nat
    }
}

pub open spec fn is_ascii_digit(c: char) -> bool {
    '0' <= c && c <= '9'
}

/// A number text without its optional leading `+`.
pub open spec fn unsigned_digits(s: Seq<char>) -> Seq<char> {
    if s.len() > 0 && s[0] == '+' {
        s.drop_first()
    } else {
        s
    }
}

/// `u32::from_str`: an optional `+`, then one or more ASCII digits, and a value that fits.
pub open spec fn parse_u32_spec(s: Seq<char>) -> Option<u32> {
    let d = unsigned_digits(s);
    if d.len() > 0 && (forall|i: int| 0 <= i < d.len() ==> is_ascii_digit(#[trigger] d[i])) && digits_value(d)
        <= u32::MAX {
        Some(digits_value(d) as u32)
    } else {
        None
    }
}

proof fn lemma_digits_value_mono(s: Seq<char>, i: int)
    requires
        0 <= i <= s.len(),
        forall|k: int| 0 <= k < s.len() ==> is_ascii_digit(#[trigger] s[k]),
    ensures
        digits_value(s.subrange(0, i)) <= digits_value(s),
    decreases s.len() - i,
{
    if i < s.len() {
        lemma_digits_value_mono(s, i + 1);
        let t = s.subrange(0, i + 1);
        assert(t.drop_last() == s.subrange(0, i));
    } else {
        assert(s.subrange(0, i) == s);
    }
}

/// Reads a number as `u32::from_str` does.
pub fn parse_u32(s: &[char]) -> (r: Option<u32>)
    ensures
        r == parse_u32_spec(s@),
{
    let n = s.len();
    let start: usize = if n > 0 && s[0] == '+' {
        1
    } else {
        0
    };
    let ghost d = unsigned_digits(s@);
    assert(d == s@.subrange(start as int, n as int));
    if start >= n {
        return None;
    }
    let mut acc: u64 = 0;
    let mut i: usize = start;
    while i < n
        invariant
            start <= i <= n,
            n == s@.len(),
            d == s@.subrange(start as int, n as int),
            d == unsigned_digits(s@),
            forall|k: int| start <= k < i ==> is_ascii_digit(#[trigger] s@[k]),
            acc == digits_value(s@.subrange(start as int, i as int)),
            acc <= u32::MAX,
        decreases n - i,
    {
        let c = s[i];
        if !('0' <= c && c <= '9') {
            proof {
                let k = (i - start) as int;
                assert(d[k] == c);
                assert(!is_ascii_digit(d[k]));
                assert(!(forall|m: int| 0 <= m < d.len() ==> is_ascii_digit(#[trigger] d[m])));
            }
            return None;
        }
        let dv: u64 = ((c as u32) - ('0' as u32)) as u64;
        let ghost pre = s@.subrange(start as int, i + 1);
        assert(pre.drop_last() == s@.subrange(start as int, i as int));
        assert(pre.last() == c);
        let next: u64 = acc * 10 + dv;
        assert(digits_value(pre) == next);
        if next > 0xFFFF_FFFFu64 {
            proof {
                if forall|k: int| 0 <= k < d.len() ==> is_ascii_digit(#[trigger] d[k]) {
                    lemma_digits_value_mono(d, (i + 1 - start) as int);
                    assert(d.subrange(0, (i + 1 - start) as int) == pre);
                    assert(digits_value(d) > u32::MAX);
                }
            }
            return None;
        }
        acc = next;
        i = i + 1;
    }
    assert(s@.subrange(start as int, n as int) == d);
    assert forall|k: int| 0 <= k < d.len() implies is_ascii_digit(#[trigger] d[k]) by {
        assert(d[k] == s@[start + k]);
    }
    Some(acc as u32)
}

/// The texts between commas, trimmed, blank ones left out.
pub open spec fn kept_names(pieces: Seq<Seq<char>>) -> Seq<Seq<char>>
    decreases pieces.len(),
{
    if pieces.len() == 0 {
        seq![]
    } else {
        let r = kept_names(pieces.drop_last());
        let t = trim(pieces.last());
        if t.len() == 0 {
            r
        } else {
            r.push(t)
        }
    }
}

/// The player names of a `list` reply: the comma-separated names, trimmed, blanks left out.
pub open spec fn player_names(raw: Seq<char>) -> Seq<Seq<char>> {
    kept_names(split(raw, ','))
}

pub fn parse_player_names(raw: &str) -> (r: Vec<String>)
    ensures
        string_views(r@) == player_names(raw@),
{
    let c = chars_of(raw);
    let pieces = split_chars(c.as_slice(), ',');
    let mut out: Vec<String> = Vec::new();
    let mut i: usize = 0;
    while i < pieces.len()
        invariant
            i <= pieces@.len(),
            views(pieces@) == split(raw@, ','),
            string_views(out@) == kept_names(views(pieces@).subrange(0, i as int)),
        decreases pieces@.len() - i,
    {
        let ghost pre = views(pieces@).subrange(0, i + 1);
        assert(pre.drop_last() == views(pieces@).subrange(0, i as int));
        assert(pre.last() == pieces@[i as int]@);
        let t = trim_chars(pieces[i].as_slice());
        if t.len() > 0 {
            let ghost old_out = out@;
            out.push(string_from(t.as_slice()));
            assert(string_views(out@) =~= string_views(old_out).push(t@));
        }
        i = i + 1;
    }
    assert(views(pieces@).subrange(0, pieces@.len() as int) == views(pieces@));
    out
}

/// What a trimmed `list` reply tells, given what the list pattern captured in it: online
/// count, limit and names; or the message of the failure.
pub open spec fn list_of_groups(
    t: Seq<char>,
    g: Option<Seq<Option<Seq<char>>>>,
) -> Result<(u32, Option<u32>, Seq<Seq<char>>), Seq<char>> {
    if g is None {
        Err("failed to parse 'list' output: "@ + t)
    } else {
        let online = match group_at(g, 1) {
            Some(o) => parse_u32_spec(o),
            None => None,
        };
        match online {
            None => Err("failed to parse online count from: "@ + t),
            Some(o) => Ok(
                (
                    o,
                    match group_at(g, 2) {
                        Some(m) => parse_u32_spec(m),
                        None => None,
                    },
                    match group_at(g, 3) {
                        Some(p) => player_names(p),
                        None => seq![],
                    },
                ),
            ),
        }
    }
}

/// What a `list` reply tells: online count, limit and names; or the message of the failure.
pub open spec fn list_reply(output: Seq<char>) -> Result<(u32, Option<u32>, Seq<Seq<char>>), Seq<char>> {
    let t = trim(output);
    list_of_groups(t, regex_groups(LIST_PATTERN@, t))
}

/// Reads a trimmed `list` reply, given what the list pattern captured in it.
pub fn list_from_captures(trimmed: &str, g: &Option<Vec<Option<String>>>) -> (r: Result<
    OnlinePlayersSnapshot,
    ServerInfoError,
>)
    ensures
        match (r, list_of_groups(trimmed@, opt_groups(*g))) {
            (Ok(p), Ok((o, m, ps))) => p.online == o && p.max == m && string_views(p.players@) == ps,
            (Err(ServerInfoError::Parse(e)), Err(msg)) => e@ == msg,
            _ => false,
        },
{
    if g.is_none() {
        let mut v = chars_of("failed to parse 'list' output: ");
        append_str(&mut v, trimmed);
        return Err(ServerInfoError::Parse(string_from(v.as_slice())));
    }
    let online = match group_of(g, 1) {
        Some(o) => parse_u32(chars_of(o.as_str()).as_slice()),
        None => None,
    };
    let online = match online {
        Some(o) => o,
        None => {
            let mut v = chars_of("failed to parse online count from: ");
            append_str(&mut v, trimmed);
            return Err(ServerInfoError::Parse(string_from(v.as_slice())));
        },
    };
    let max = match group_of(g, 2) {
        Some(m) => parse_u32(chars_of(m.as_str()).as_slice()),
        None => None,
    };
    let players = match group_of(g, 3) {
        Some(p) => parse_player_names(p.as_str()),
        None => Vec::new(),
    };
    proof {
        if group_at(opt_groups(*g), 3) is None {
            assert(string_views(players@) =~= Seq::<Seq<char>>::empty());
        }
    }
    Ok(OnlinePlayersSnapshot { online, max, players })
}

/// Reads the reply of the `list` command.
pub fn parse_list_output(output: &str) -> (r: Result<OnlinePlayersSnapshot, ServerInfoError>)
    ensures
        match (r, list_reply(output@)) {
            (Ok(p), Ok((o, m, ps))) => p.online == o && p.max == m && string_views(p.players@) == ps,
            (Err(ServerInfoError::Parse(e)), Err(msg)) => e@ == msg,
            _ => false,
        },
{
    let t = trimmed_chars(output);
    let ts = string_from(t.as_slice());
    let g = regex_captures(LIST_PATTERN, ts.as_str());
    list_from_captures(ts.as_str(), &g)
}

/// One of the brackets that plugin lists put around names.
pub open spec fn is_bracket(c: char) -> bool {
    c == '(' || c == ')' || c == '[' || c == ']'
}

pub open spec fn strip_brackets_start(s: Seq<char>) -> Seq<char>
    decreases s.len(),
{
    if s.len() > 0 && is_bracket(s[0]) {
        strip_brackets_start(s.drop_first())
    } else {
        s
    }
}

pub open spec fn strip_brackets_end(s: Seq<char>) -> Seq<char>
    decreases s.len(),
{
    if s.len() > 0 && is_bracket(s.last()) {
        strip_brackets_end(s.drop_last())
    } else {
        s
    }
}

/// The first whitespace-separated word of a text that starts with none.
#[verifier::opaque]
pub open spec fn first_word(v: Seq<char>) -> Seq<char> {
    if exists|j: int| 0 <= j < v.len() && is_ws(v[j]) {
        v.subrange(0, choose|j: int| 0 <= j < v.len() && is_ws(v[j]) && forall|k: int| 0 <= k < j ==> !is_ws(v[k]))
    } else {
        v
    }
}

/// The name that one entry of a plugin list gives: its first word without brackets.
#[verifier::opaque]
pub open spec fn plugin_name(piece: Seq<char>) -> Seq<char> {
    strip_brackets_end(strip_brackets_start(first_word(trim(piece))))
}

pub open spec fn kept_plugin_names(pieces: Seq<Seq<char>>) -> Seq<Seq<char>>
    decreases pieces.len(),
{
    if pieces.len() == 0 {
        seq![]
    } else {
        let r = kept_plugin_names(pieces.drop_last());
        let t = trim(pieces.last());
        if t.len() == 0 || plugin_name(pieces.last()).len() == 0 {
            r
        } else {
            r.push(plugin_name(pieces.last()))
        }
    }
}

/// The plugin names of a `plugins` reply: after the first `:`, one name per comma-separated
/// entry.
pub open spec fn plugin_names(output: Seq<char>) -> Seq<Seq<char>> {
    match find_char(output, ':') {
        None => seq![],
        Some(i) => kept_plugin_names(split(output.subrange(i + 1, output.len() as int), ',')),
    }
}

fn first_word_exec(v: &[char]) -> (r: Vec<char>)
    ensures
        r@ == first_word(v@),
{
    reveal(first_word);
    let mut j: usize = 0;
    while j < v.len()
        invariant
            j <= v@.len(),
            forall|k: int| 0 <= k < j ==> !is_ws(v@[k]),
        decreases v@.len() - j,
    {
        if exec_is_ws(v[j]) {
            proof {
                reveal(first_word);
                let w = choose|k: int| 0 <= k < v@.len() && is_ws(v@[k]) && forall|m: int| 0 <= m < k ==> !is_ws(v@[m]);
                assert(0 <= j < v@.len() && is_ws(v@[j as int]) && forall|m: int| 0 <= m < j ==> !is_ws(v@[m]));
                if w < j {
                } else if w > j {
                    assert(!is_ws(v@[j as int]));
                }
            }
            return sub_vec(v, 0, j);
        }
        j = j + 1;
    }
    sub_vec(v, 0, v.len())
}

fn strip_brackets_exec(s: &[char]) -> (r: Vec<char>)
    ensures
        r@ == strip_brackets_end(strip_brackets_start(s@)),
{
    let n = s.len();
    let mut a: usize = 0;
    assert(s@.subrange(0, n as int) == s@);
    while a < n && (s[a] == '(' || s[a] == ')' || s[a] == '[' || s[a] == ']')
        invariant
            a <= n,
            n == s@.len(),
            strip_brackets_start(s@) == strip_brackets_start(s@.subrange(a as int, n as int)),
        decreases n - a,
    {
        assert(s@.subrange(a as int, n as int).drop_first() == s@.subrange(a + 1, n as int));
        a = a + 1;
    }
    let t = sub_vec(s, a, n);
    let m = t.len();
    let mut b: usize = m;
    assert(t@.subrange(0, m as int) == t@);
    while b > 0 && (t[b - 1] == '(' || t[b - 1] == ')' || t[b - 1] == '[' || t[b - 1] == ']')
        invariant
            b <= m,
            m == t@.len(),
            strip_brackets_end(t@) == strip_brackets_end(t@.subrange(0, b as int)),
        decreases b,
    {
        assert(t@.subrange(0, b as int).drop_last() == t@.subrange(0, b - 1));
        b = b - 1;
    }
    sub_vec(t.as_slice(), 0, b)
}

fn plugin_name_of(piece: &[char]) -> (r: Option<Vec<char>>)
    ensures
        match r {
            Some(n) => trim(piece@).len() > 0 && plugin_name(piece@).len() > 0 && n@ == plugin_name(piece@),
            None => trim(piece@).len() == 0 || plugin_name(piece@).len() == 0,
        },
{
    reveal(plugin_name);
    let t = trim_chars(piece);
    if t.len() == 0 {
        return None;
    }
    let w = first_word_exec(t.as_slice());
    let name = strip_brackets_exec(w.as_slice());
    if name.len() > 0 {
        Some(name)
    } else {
        None
    }
}

#[verifier::rlimit(40)]
pub fn parse_plugin_names(output: &str) -> (r: Vec<String>)
    ensures
        string_views(r@) == plugin_names(output@),
{
    let c = chars_of(output);
    let n = c.len();
    let i = match find_char_exec(c.as_slice(), ':') {
        Some(i) => i,
        None => return Vec::new(),
    };
    let list = sub_vec(c.as_slice(), i + 1, n);
    let pieces = split_chars(list.as_slice(), ',');
    let mut out: Vec<String> = Vec::new();
    let mut k: usize = 0;
    while k < pieces.len()
        invariant
            k <= pieces@.len(),
            views(pieces@) == split(list@, ','),
            list@ == output@.subrange(i + 1, output@.len() as int),
            string_views(out@) == kept_plugin_names(views(pieces@).subrange(0, k as int)),
        decreases pieces@.len() - k,
    {
        let ghost pre = views(pieces@).subrange(0, k + 1);
        assert(pre.drop_last() == views(pieces@).subrange(0, k as int));
        assert(pre.last() == pieces@[k as int]@);
        if let Some(name) = plugin_name_of(pieces[k].as_slice()) {
            let ghost old_out = out@;
            out.push(string_from(name.as_slice()));
            assert(string_views(out@) =~= string_views(old_out).push(name@));
        }
        k = k + 1;
    }
    assert(views(pieces@).subrange(0, pieces@.len() as int) == views(pieces@));
    out
}

/// Bukkit-like and mixed-extension servers answer `version` and `plugins`.
pub open spec fn bukkit_like(core_key: Option<Seq<char>>) -> bool {
    match core_key {
        Some(k) => {
            let f = family_of(spec_core_key(k));
            f == CoreFamily::BukkitLike || f == CoreFamily::MixedExtension
        },
        None => false,
    }
}

pub open spec fn opt_str(s: Option<&str>) -> Option<Seq<char>> {
    match s {
        Some(s) => Some(s@),
        None => None,
    }
}

pub fn is_bukkit_like(core_key: Option<&str>) -> (r: bool)
    ensures
        r == bukkit_like(opt_str(core_key)),
{
    match core_key {
        Some(k) => {
            let f = CoreFamily::from_core_key(k);
            match f {
                CoreFamily::BukkitLike | CoreFamily::MixedExtension => true,
                _ => false,
            }
        },
        None => false,
    }
}

/// A connection error that speaks of authentication, login or a password is an
/// authentication failure; any other is a connection failure.
pub open spec fn auth_like(error: Seq<char>) -> bool {
    let l = lower(error);
    contains(l, "auth"@) || contains(l, "login"@) || contains(l, "password"@)
}

pub fn map_connect_error(address: &str, error: &str) -> (r: ServerInfoError)
    ensures
        auth_like(error@) ==> (r matches ServerInfoError::Authentication(m) && m@
            == "failed to authenticate with RCON endpoint "@ + address@ + ": "@ + error@),
        !auth_like(error@) ==> (r matches ServerInfoError::Connection(m) && m@
            == "failed to connect to RCON endpoint "@ + address@ + ": "@ + error@),
{
    let l = lower_of(error);
    let auth = contains_str(l.as_slice(), "auth") || contains_str(l.as_slice(), "login") || contains_str(
        l.as_slice(),
        "password",
    );
    let mut v = if auth {
        chars_of("failed to authenticate with RCON endpoint ")
    } else {
        chars_of("failed to connect to RCON endpoint ")
    };
    append_str(&mut v, address);
    append_str(&mut v, ": ");
    append_str(&mut v, error);
    if auth {
        ServerInfoError::Authentication(string_from(v.as_slice()))
    } else {
        ServerInfoError::Connection(string_from(v.as_slice()))
    }
}

/// The performance metric sources that a probe can ask, in the default order of asking.
#[derive(Debug, Clone, Copy, PartialEq, Eq, Structural)]
pub enum MetricProviderKind {
    SparkHealth,
    SparkTps,
    SparkHealthReport,
    ForgeTps,
    PaperTps,
    PaperMspt,
}

impl MetricProviderKind {
    pub open spec fn command_text(self) -> Seq<char> {
        match self {
            MetricProviderKind::SparkHealth => "spark health"@,
            MetricProviderKind::SparkTps => "spark tps"@,
            MetricProviderKind::SparkHealthReport => "spark healthreport"@,
            MetricProviderKind::ForgeTps => "forge tps"@,
            MetricProviderKind::PaperTps => "tps"@,
            MetricProviderKind::PaperMspt => "mspt"@,
        }
    }

    /// The console command that asks this provider.
    pub fn command(self) -> (r: &'static str)
        ensures
            r@ == self.command_text(),
    {
        match self {
            MetricProviderKind::SparkHealth => "spark health",
            MetricProviderKind::SparkTps => "spark tps",
            MetricProviderKind::SparkHealthReport => "spark healthreport",
            MetricProviderKind::ForgeTps => "forge tps",
            MetricProviderKind::PaperTps => "tps",
            MetricProviderKind::PaperMspt => "mspt",
        }
    }

    pub open spec fn name_text(self) -> Seq<char> {
        match self {
            MetricProviderKind::SparkHealth => "spark_health"@,
            MetricProviderKind::SparkTps => "spark_tps"@,
            MetricProviderKind::SparkHealthReport => "spark_healthreport"@,
            MetricProviderKind::ForgeTps => "forge_tps"@,
            MetricProviderKind::PaperTps => "paper_tps"@,
            MetricProviderKind::PaperMspt => "paper_mspt"@,
        }
    }

    /// The name under which this provider's warnings are reported.
    pub fn name(self) -> (r: &'static str)
        ensures
            r@ == self.name_text(),
    {
        match self {
            MetricProviderKind::SparkHealth => "spark_health",
            MetricProviderKind::SparkTps => "spark_tps",
            MetricProviderKind::SparkHealthReport => "spark_healthreport",
            MetricProviderKind::ForgeTps => "forge_tps",
            MetricProviderKind::PaperTps => "paper_tps",
            MetricProviderKind::PaperMspt => "paper_mspt",
        }
    }
}

#[derive(Debug, Clone, Copy, PartialEq, Eq, Structural)]
pub enum PerformanceScopeKind {
    Global,
    Dimension,
    World,
}

/// How a performance probe runs: connection limits and the providers to try, in order.
#[derive(Debug, Clone, PartialEq, Eq)]
pub struct PerformanceProbeOptions {
    pub core_key: Option<String>,
    pub connect_timeout_ms: u64,
    pub read_timeout_ms: u64,
    pub providers: Vec<MetricProviderKind>,
}

/// Every provider, spark commands first, Paper's own commands last.
pub open spec fn default_providers() -> Seq<MetricProviderKind> {
    seq![
        MetricProviderKind::SparkHealth,
        MetricProviderKind::SparkTps,
        MetricProviderKind::SparkHealthReport,
        MetricProviderKind::ForgeTps,
        MetricProviderKind::PaperTps,
        MetricProviderKind::PaperMspt,
    ]
}

impl Default for PerformanceProbeOptions {
    fn default() -> (r: Self)
        ensures
            r.core_key is None,
            r.connect_timeout_ms == 5000,
            r.read_timeout_ms == 5000,
            r.providers@ == default_providers(),
    {
        let mut providers: Vec<MetricProviderKind> = Vec::new();
        providers.push(MetricProviderKind::SparkHealth);
        providers.push(MetricProviderKind::SparkTps);
        providers.push(MetricProviderKind::SparkHealthReport);
        providers.push(MetricProviderKind::ForgeTps);
        providers.push(MetricProviderKind::PaperTps);
        providers.push(MetricProviderKind::PaperMspt);
        assert(providers@ =~= default_providers());
        PerformanceProbeOptions { core_key: None, connect_timeout_ms: 5000, read_timeout_ms: 5000, providers }
    }
}

/// A line that only echoes a provider command (with or without `/`, in any ASCII case).
pub open spec fn command_echo(line: Seq<char>) -> bool {
    let l = lower(trim(line));
    l == lower("/spark healthreport"@)
        || l == lower("spark healthreport"@)
        || l == lower("/spark health"@)
        || l == lower("spark health"@)
        || l == lower("/spark tps"@)
        || l == lower("spark tps"@)
        || l == lower("/forge tps"@)
        || l == lower("forge tps"@)
        || l == lower("/tps"@)
        || l == lower("tps"@)
        || l == lower("/mspt"@)
        || l == lower("mspt"@)
}

fn command_echo_exec(line: &[char]) -> (r: bool)
    ensures
        r == command_echo(line@),
{
    let t = trim_chars(line);
    eq_ignore_case(t.as_slice(), "/spark healthreport")
        || eq_ignore_case(t.as_slice(), "spark healthreport")
        || eq_ignore_case(t.as_slice(), "/spark health")
        || eq_ignore_case(t.as_slice(), "spark health")
        || eq_ignore_case(t.as_slice(), "/spark tps")
        || eq_ignore_case(t.as_slice(), "spark tps")
        || eq_ignore_case(t.as_slice(), "/forge tps")
        || eq_ignore_case(t.as_slice(), "forge tps")
        || eq_ignore_case(t.as_slice(), "/tps")
        || eq_ignore_case(t.as_slice(), "tps")
        || eq_ignore_case(t.as_slice(), "/mspt")
        || eq_ignore_case(t.as_slice(), "mspt")
}

/// The lines of a reply that do not echo a command.
pub open spec fn kept_reply_lines(ls: Seq<Seq<char>>) -> Seq<Seq<char>>
    decreases ls.len(),
{
    if ls.len() == 0 {
        seq![]
    } else {
        let r = kept_reply_lines(ls.drop_last());
        if command_echo(ls.last()) {
            r
        } else {
            r.push(ls.last())
        }
    }
}

/// Lines joined by `\n`.
pub open spec fn joined_lines(v: Seq<Seq<char>>) -> Seq<char>
    decreases v.len(),
{
    if v.len() == 0 {
        seq![]
    } else if v.len() == 1 {
        v[0]
    } else {
        joined_lines(v.drop_last()) + seq!['\n'] + v.last()
    }
}

/// A reply without the lines that echo a provider command.
pub fn strip_leading_slash_echo(output: &str) -> (r: String)
    ensures
        r@ == joined_lines(kept_reply_lines(lines(output@))),
{
    let c = chars_of(output);
    let ls = lines_of(c.as_slice());
    let mut kept: Vec<Vec<char>> = Vec::new();
    let mut i: usize = 0;
    while i < ls.len()
        invariant
            i <= ls@.len(),
            views(ls@) == lines(output@),
            views(kept@) == kept_reply_lines(views(ls@).subrange(0, i as int)),
        decreases ls@.len() - i,
    {
        let ghost pre = views(ls@).subrange(0, i + 1);
        assert(pre.drop_last() == views(ls@).subrange(0, i as int));
        assert(pre.last() == ls@[i as int]@);
        if !command_echo_exec(ls[i].as_slice()) {
            let ghost old_k = kept@;
            let line = sub_vec(ls[i].as_slice(), 0, ls[i].len());
            assert(ls@[i as int]@.subrange(0, ls@[i as int]@.len() as int) == ls@[i as int]@);
            kept.push(line);
            assert(views(kept@) =~= views(old_k).push(ls@[i as int]@));
        }
        i = i + 1;
    }
    assert(views(ls@).subrange(0, ls@.len() as int) == views(ls@));
    let mut out: Vec<char> = Vec::new();
    let mut k: usize = 0;
    while k < kept.len()
        invariant
            k <= kept@.len(),
            out@ == joined_lines(views(kept@).subrange(0, k as int)),
        decreases kept@.len() - k,
    {
        let ghost pre = views(kept@).subrange(0, k + 1);
        assert(pre.drop_last() == views(kept@).subrange(0, k as int));
        assert(pre.last() == kept@[k as int]@);
        if k > 0 {
            out.push('\n');
        }
        append_chars(&mut out, kept[k].as_slice());
        assert(out@ =~= joined_lines(pre));
        k = k + 1;
    }
    assert(views(kept@).subrange(0, kept@.len() as int) == views(kept@));
    string_from(out.as_slice())
}

/// A reply that says the provider's command is not available.
pub open spec fn provider_unavailable(output: Seq<char>) -> bool {
    let l = lower(output);
    contains(l, "unknown"@) || contains(l, "unrecognized"@) || contains(l, "no such command"@)
        || contains(l, "permission"@) || contains(l, "not found"@)
}

pub fn looks_like_provider_unavailable(output: &str) -> (r: bool)
    ensures
        r == provider_unavailable(output@),
{
    let l = lower_of(output);
    let s = l.as_slice();
    contains_str(s, "unknown") || contains_str(s, "unrecognized") || contains_str(s, "no such command")
        || contains_str(s, "permission") || contains_str(s, "not found")
}

/// The warning text of a provider whose command is not available.
pub fn provider_unavailable_message(output: &str) -> (r: String)
    ensures
        r@ == "provider command unavailable: "@ + trim(output@),
{
    let mut v = chars_of("provider command unavailable: ");
    let t = trimmed_chars(output);
    append_chars(&mut v, t.as_slice());
    string_from(v.as_slice())
}

} // verus!
