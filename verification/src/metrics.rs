//! Reading the replies of the performance metric providers (spark, Forge, Paper). Each reader
//! finds the numbers a reply shows and gives them as the texts the reply spells them with;
//! turning those texts into floating-point values is left to the caller.
use vstd::prelude::*;
use crate::server_info::{
    group_at, group_of, joined_lines, kept_reply_lines, opt_groups, opt_text, regex_captures,
    regex_groups, string_views, strip_leading_slash_echo, looks_like_provider_unavailable,
    provider_unavailable, provider_unavailable_message, MetricProviderKind, PerformanceScopeKind,
};
use crate::text::{
    append_str, chars_of, eq_ignore_case, lines, lines_of, lower, owned, string_from, trim, trim_chars,
    trimmed_chars, views,
};

verus! {


/// Paper's `tps` reply: the averages over one, five and fifteen minutes.
pub const PAPER_TPS_PATTERN: &'static str = "(?i)TPS\\s+from\\s+last\\s+1m,\\s*5m,\\s*15m:\\s*([0-9]+(?:\\.[0-9]+)?)\\s*,\\s*([0-9]+(?:\\.[0-9]+)?)\\s*,\\s*([0-9]+(?:\\.[0-9]+)?)";

/// The header of Paper's `mspt` reply.
pub const PAPER_MSPT_HEADER_PATTERN: &'static str = "(?i)Server\\s+tick\\s+times\\s*\\(\\s*avg\\s*/\\s*min\\s*/\\s*max\\s*\\)\\s*from\\s+last\\s+5s\\s*,\\s*10s\\s*,\\s*1m:";

/// The nine tick times of Paper's `mspt` reply: average, minimum and maximum over each window.
pub const PAPER_MSPT_PATTERN: &'static str = "(?i)([0-9]+(?:\\.[0-9]+)?)\\s*/\\s*([0-9]+(?:\\.[0-9]+)?)\\s*/\\s*([0-9]+(?:\\.[0-9]+)?)\\s*,\\s*([0-9]+(?:\\.[0-9]+)?)\\s*/\\s*([0-9]+(?:\\.[0-9]+)?)\\s*/\\s*([0-9]+(?:\\.[0-9]+)?)\\s*,\\s*([0-9]+(?:\\.[0-9]+)?)\\s*/\\s*([0-9]+(?:\\.[0-9]+)?)\\s*/\\s*([0-9]+(?:\\.[0-9]+)?)";

/// A spark TPS value.
pub const SPARK_TPS_PATTERN: &'static str = "TPS[:=]\\s*([0-9]+(?:\\.[0-9]+)?)";

/// A spark TPS value, spelled out.
pub const SPARK_TICKS_PATTERN: &'static str = "ticks per second[:=]?\\s*([0-9]+(?:\\.[0-9]+)?)";

/// A spark current-TPS value.
pub const SPARK_CURRENT_TPS_PATTERN: &'static str = "current tps[:=]?\\s*([0-9]+(?:\\.[0-9]+)?)";

/// A spark MSPT value.
pub const SPARK_MSPT_PATTERN: &'static str = "MSPT[:=]\\s*([0-9]+(?:\\.[0-9]+)?)";

/// A spark MSPT value, spelled out.
pub const SPARK_MS_PER_TICK_PATTERN: &'static str = "milliseconds per tick[:=]?\\s*([0-9]+(?:\\.[0-9]+)?)";

/// A spark tick duration in milliseconds.
pub const SPARK_TICK_DURATION_PATTERN: &'static str = "tick duration[:=]?\\s*([0-9]+(?:\\.[0-9]+)?)\\s*ms";

/// A line of Forge's `forge tps` reply for the whole server.
pub const FORGE_OVERALL_LINE_PATTERN: &'static str = "(?i)^overall\\s+tps[:=]\\s*([0-9]+(?:\\.[0-9]+)?)\\s+mspt[:=]\\s*([0-9]+(?:\\.[0-9]+)?)$";

/// A line of Forge's `forge tps` reply for one dimension or world.
pub const FORGE_SCOPE_LINE_PATTERN: &'static str = "(?i)^(dimension|world)\\s+(.+?)\\s+tps[:=]\\s*([0-9]+(?:\\.[0-9]+)?)\\s+mspt[:=]\\s*([0-9]+(?:\\.[0-9]+)?)$";

/// The overall TPS of a Forge reply.
pub const FORGE_OVERALL_TPS_PATTERN: &'static str = "(?i)overall\\s+tps[:=]\\s*([0-9]+(?:\\.[0-9]+)?)";

/// The mean TPS of a Forge reply.
pub const FORGE_MEAN_TPS_PATTERN: &'static str = "mean tps[:=]\\s*([0-9]+(?:\\.[0-9]+)?)";

/// The overall MSPT of a Forge reply.
pub const FORGE_OVERALL_MSPT_PATTERN: &'static str = "(?i)overall\\s+tps[:=]\\s*[0-9]+(?:\\.[0-9]+)?\\s+mspt[:=]\\s*([0-9]+(?:\\.[0-9]+)?)";

/// The mean MSPT of a Forge reply.
pub const FORGE_MEAN_MSPT_PATTERN: &'static str = "mean mspt[:=]\\s*([0-9]+(?:\\.[0-9]+)?)";


/// A reply without the lines that echo the provider's command.
pub open spec fn reply_text(output: Seq<char>) -> Seq<char> {
    joined_lines(kept_reply_lines(lines(output)))
}

/// The groups that are present, in order.
pub open spec fn present(s: Seq<Option<Seq<char>>>) -> Seq<Seq<char>>
    decreases s.len(),
{
    if s.len() == 0 {
        seq![]
    } else {
        let r = present(s.drop_last());
        match s.last() {
            Some(x) => r.push(x),
            None => r,
        }
    }
}

/// The texts that the capture groups of a match hold, group 0 left out.
pub open spec fn captured_of(g: Option<Seq<Option<Seq<char>>>>) -> Seq<Seq<char>> {
    match g {
        None => seq![],
        Some(s) => if s.len() == 0 {
            seq![]
        } else {
            present(s.subrange(1, s.len() as int))
        },
    }
}

/// The matches of several patterns, as plain values.
pub open spec fn all_groups(v: Seq<Option<Vec<Option<String>>>>) -> Seq<Option<Seq<Option<Seq<char>>>>> {
    v.map_values(|g: Option<Vec<Option<String>>>| opt_groups(g))
}

/// Group 1 of the first of several matches that has one.
pub open spec fn first_group_one(gs: Seq<Option<Seq<Option<Seq<char>>>>>) -> Option<Seq<char>>
    decreases gs.len(),
{
    if gs.len() == 0 {
        None
    } else {
        match group_at(gs[0], 1) {
            Some(x) => Some(x),
            None => first_group_one(gs.drop_first()),
        }
    }
}

fn captured_exec(g: &Option<Vec<Option<String>>>) -> (r: Vec<String>)
    ensures
        string_views(r@) == captured_of(opt_groups(*g)),
{
    let mut out: Vec<String> = Vec::new();
    match g {
        None => out,
        Some(v) => {
            let ghost s = opt_groups(*g)->0;
            if v.len() == 0 {
                return out;
            }
            let mut i: usize = 1;
            assert(s.subrange(1, 1) =~= Seq::<Option<Seq<char>>>::empty());
            while i < v.len()
                invariant
                    1 <= i <= v@.len(),
                    s == opt_groups(*g)->0,
                    *g == Some(*v),
                    s.len() == v@.len(),
                    string_views(out@) == present(s.subrange(1, i as int)),
                decreases v@.len() - i,
            {
                let ghost pre = s.subrange(1, i + 1);
                assert(pre.drop_last() == s.subrange(1, i as int));
                assert(pre.last() == s[i as int]);
                let ghost old_out = out@;
                match &v[i] {
                    Some(t) => {
                        out.push(t.clone());
                        assert(string_views(out@) =~= string_views(old_out).push(t@));
                    },
                    None => {},
                }
                i = i + 1;
            }
            assert(s.subrange(1, s.len() as int) == s.subrange(1, i as int));
            out
        },
    }
}

fn first_group_one_exec(gs: &Vec<Option<Vec<Option<String>>>>) -> (r: Option<String>)
    ensures
        opt_text(r) == first_group_one(all_groups(gs@)),
{
    let ghost all = all_groups(gs@);
    let mut i: usize = 0;
    assert(all.subrange(0, all.len() as int) =~= all);
    while i < gs.len()
        invariant
            i <= gs@.len(),
            all == all_groups(gs@),
            first_group_one(all) == first_group_one(all.subrange(i as int, all.len() as int)),
        decreases gs@.len() - i,
    {
        let ghost rest = all.subrange(i as int, all.len() as int);
        assert(rest[0] == opt_groups(gs@[i as int]));
        assert(rest.drop_first() =~= all.subrange(i + 1, all.len() as int));
        if let Some(x) = group_of(&gs[i], 1) {
            return Some(x);
        }
        i = i + 1;
    }
    assert(all.subrange(i as int, all.len() as int) =~= Seq::<Option<Seq<Option<Seq<char>>>>>::empty());
    None
}

fn failure(prefix: &str, text: &str) -> (r: String)
    ensures
        r@ == prefix@ + text@,
{
    let mut v = chars_of(prefix);
    append_str(&mut v, text);
    string_from(v.as_slice())
}

/// What Paper's `tps` reply shows: its trimmed text and the three averages.
#[derive(Debug, Clone, PartialEq, Eq)]
pub struct PaperTpsText {
    pub text: String,
    pub averages: Vec<String>,
}

/// How a trimmed `tps` reply is read, given what the pattern captured in it: the three
/// averages, or a failure quoting the reply.
pub open spec fn paper_tps_outcome(
    trimmed: Seq<char>,
    g: Option<Seq<Option<Seq<char>>>>,
    r: Result<PaperTpsText, String>,
) -> bool {
    let v = captured_of(g);
    if v.len() == 3 {
        r matches Ok(t) && t.text@ == trimmed && string_views(t.averages@) == v
    } else {
        r matches Err(m) && m@ == "unable to parse tps output: "@ + trimmed
    }
}

/// How a `tps` reply is read.
pub open spec fn paper_tps_reading(output: Seq<char>, r: Result<PaperTpsText, String>) -> bool {
    let c = reply_text(output);
    paper_tps_outcome(trim(c), regex_groups(PAPER_TPS_PATTERN@, c), r)
}

/// Reads a trimmed `tps` reply, given what the averages pattern captured in it.
pub fn paper_tps_from_captures(trimmed: &str, g: &Option<Vec<Option<String>>>) -> (r: Result<PaperTpsText, String>)
    ensures
        paper_tps_outcome(trimmed@, opt_groups(*g), r),
{
    let values = captured_exec(g);
    if values.len() != 3 {
        return Err(failure("unable to parse tps output: ", trimmed));
    }
    Ok(PaperTpsText { text: owned(trimmed), averages: values })
}

/// Reads Paper's `tps` reply.
pub fn read_paper_tps(output: &str) -> (r: Result<PaperTpsText, String>)
    ensures
        paper_tps_reading(output@, r),
{
    let cleaned = strip_leading_slash_echo(output);
    let t = string_from(trimmed_chars(cleaned.as_str()).as_slice());
    let g = regex_captures(PAPER_TPS_PATTERN, cleaned.as_str());
    paper_tps_from_captures(t.as_str(), &g)
}

/// What Paper's `mspt` reply shows: its trimmed text and the nine tick times (average,
/// minimum and maximum over five seconds, ten seconds and one minute).
#[derive(Debug, Clone, PartialEq, Eq)]
pub struct PaperMsptText {
    pub text: String,
    pub values: Vec<String>,
}

/// How a trimmed `mspt` reply is read, given what the header and tick-time patterns
/// captured in it: the header must be there, then nine tick times; otherwise a failure
/// quoting the reply.
pub open spec fn paper_mspt_outcome(
    trimmed: Seq<char>,
    header: Option<Seq<Option<Seq<char>>>>,
    g: Option<Seq<Option<Seq<char>>>>,
    r: Result<PaperMsptText, String>,
) -> bool {
    let v = captured_of(g);
    if header is Some && v.len() == 9 {
        r matches Ok(t) && t.text@ == trimmed && string_views(t.values@) == v
    } else {
        r matches Err(m) && m@ == "unable to parse mspt output: "@ + trimmed
    }
}

/// How an `mspt` reply is read.
pub open spec fn paper_mspt_reading(output: Seq<char>, r: Result<PaperMsptText, String>) -> bool {
    let c = reply_text(output);
    paper_mspt_outcome(trim(c), regex_groups(PAPER_MSPT_HEADER_PATTERN@, c), regex_groups(PAPER_MSPT_PATTERN@, c), r)
}

/// Reads a trimmed `mspt` reply, given what the header and tick-time patterns captured in it.
pub fn paper_mspt_from_captures(
    trimmed: &str,
    header: &Option<Vec<Option<String>>>,
    g: &Option<Vec<Option<String>>>,
) -> (r: Result<PaperMsptText, String>)
    ensures
        paper_mspt_outcome(trimmed@, opt_groups(*header), opt_groups(*g), r),
{
    if header.is_none() {
        return Err(failure("unable to parse mspt output: ", trimmed));
    }
    let values = captured_exec(g);
    if values.len() != 9 {
        return Err(failure("unable to parse mspt output: ", trimmed));
    }
    Ok(PaperMsptText { text: owned(trimmed), values })
}

/// Reads Paper's `mspt` reply.
pub fn read_paper_mspt(output: &str) -> (r: Result<PaperMsptText, String>)
    ensures
        paper_mspt_reading(output@, r),
{
    let cleaned = strip_leading_slash_echo(output);
    let t = string_from(trimmed_chars(cleaned.as_str()).as_slice());
    let header = regex_captures(PAPER_MSPT_HEADER_PATTERN, cleaned.as_str());
    let g = regex_captures(PAPER_MSPT_PATTERN, cleaned.as_str());
    paper_mspt_from_captures(t.as_str(), &header, &g)
}

/// What a spark `health`, `tps` or `healthreport` reply shows: its trimmed text, TPS and MSPT.
#[derive(Debug, Clone, PartialEq, Eq)]
pub struct SparkHealthText {
    pub text: String,
    pub tps: Option<String>,
    pub mspt: Option<String>,
}

/// The TPS of a spark reply: the first of its spellings that the reply holds.
pub open spec fn spark_tps(c: Seq<char>) -> Option<Seq<char>> {
    first_group_one(
        seq![
            regex_groups(SPARK_TPS_PATTERN@, c),
            regex_groups(SPARK_TICKS_PATTERN@, c),
            regex_groups(SPARK_CURRENT_TPS_PATTERN@, c),
        ],
    )
}

/// The MSPT of a spark reply: the first of its spellings that the reply holds.
pub open spec fn spark_mspt(c: Seq<char>) -> Option<Seq<char>> {
    first_group_one(
        seq![
            regex_groups(SPARK_MSPT_PATTERN@, c),
            regex_groups(SPARK_MS_PER_TICK_PATTERN@, c),
            regex_groups(SPARK_TICK_DURATION_PATTERN@, c),
        ],
    )
}

/// How a trimmed spark reply to `source_command` is read, given the TPS and MSPT texts found
/// in it: at least one of them, or a failure naming the command and quoting the reply.
pub open spec fn spark_outcome(
    trimmed: Seq<char>,
    source_command: Seq<char>,
    tps: Option<Seq<char>>,
    mspt: Option<Seq<char>>,
    r: Result<SparkHealthText, String>,
) -> bool {
    if tps is None && mspt is None {
        r matches Err(m) && m@ == "unable to parse "@ + source_command + " output: "@ + trimmed
    } else {
        r matches Ok(t) && t.text@ == trimmed && opt_text(t.tps) == tps && opt_text(t.mspt) == mspt
    }
}

/// How a spark reply to `source_command` is read.
pub open spec fn spark_reading(output: Seq<char>, source_command: Seq<char>, r: Result<SparkHealthText, String>) -> bool {
    let c = reply_text(output);
    spark_outcome(trim(c), source_command, spark_tps(c), spark_mspt(c), r)
}

/// Reads a trimmed spark reply to `source_command`, given what the TPS patterns and the MSPT
/// patterns captured in it, each list in the order the spellings are tried.
pub fn spark_from_captures(
    trimmed: &str,
    source_command: &str,
    tps: &Vec<Option<Vec<Option<String>>>>,
    mspt: &Vec<Option<Vec<Option<String>>>>,
) -> (r: Result<SparkHealthText, String>)
    ensures
        spark_outcome(
            trimmed@,
            source_command@,
            first_group_one(all_groups(tps@)),
            first_group_one(all_groups(mspt@)),
            r,
        ),
{
    let tps_text = first_group_one_exec(tps);
    let mspt_text = first_group_one_exec(mspt);
    if tps_text.is_none() && mspt_text.is_none() {
        let mut v = chars_of("unable to parse ");
        append_str(&mut v, source_command);
        append_str(&mut v, " output: ");
        append_str(&mut v, trimmed);
        return Err(string_from(v.as_slice()));
    }
    Ok(SparkHealthText { text: owned(trimmed), tps: tps_text, mspt: mspt_text })
}

/// Reads a spark reply to `source_command` (`spark health`, `spark tps` or `spark healthreport`).
pub fn read_spark_health(output: &str, source_command: &str) -> (r: Result<SparkHealthText, String>)
    ensures
        spark_reading(output@, source_command@, r),
{
    let cleaned = strip_leading_slash_echo(output);
    let t = string_from(trimmed_chars(cleaned.as_str()).as_slice());
    let c = cleaned.as_str();
    let tps = vec![
        regex_captures(SPARK_TPS_PATTERN, c),
        regex_captures(SPARK_TICKS_PATTERN, c),
        regex_captures(SPARK_CURRENT_TPS_PATTERN, c),
    ];
    let mspt = vec![
        regex_captures(SPARK_MSPT_PATTERN, c),
        regex_captures(SPARK_MS_PER_TICK_PATTERN, c),
        regex_captures(SPARK_TICK_DURATION_PATTERN, c),
    ];
    assert(all_groups(tps@) =~= seq![
        regex_groups(SPARK_TPS_PATTERN@, c@),
        regex_groups(SPARK_TICKS_PATTERN@, c@),
        regex_groups(SPARK_CURRENT_TPS_PATTERN@, c@),
    ]);
    assert(all_groups(mspt@) =~= seq![
        regex_groups(SPARK_MSPT_PATTERN@, c@),
        regex_groups(SPARK_MS_PER_TICK_PATTERN@, c@),
        regex_groups(SPARK_TICK_DURATION_PATTERN@, c@),
    ]);
    spark_from_captures(t.as_str(), source_command, &tps, &mspt)
}

/// One scope of a `forge tps` reply: the whole server, a dimension or a world.
#[derive(Debug, Clone, PartialEq, Eq)]
pub struct ForgeScopeText {
    pub kind: PerformanceScopeKind,
    pub name: Option<String>,
    pub tps: Option<String>,
    pub mspt: Option<String>,
}

/// A scope as plain values: its kind, and the texts of its name, TPS and MSPT.
pub struct ScopeView {
    pub kind: PerformanceScopeKind,
    pub name: Option<Seq<char>>,
    pub tps: Option<Seq<char>>,
    pub mspt: Option<Seq<char>>,
}

impl View for ForgeScopeText {
    type V = ScopeView;

    open spec fn view(&self) -> ScopeView {
        ScopeView { kind: self.kind, name: opt_text(self.name), tps: opt_text(self.tps), mspt: opt_text(self.mspt) }
    }
}

/// The views of a list of scopes.
pub open spec fn scope_views(v: Seq<ForgeScopeText>) -> Seq<ScopeView> {
    v.map_values(|s: ForgeScopeText| s@)
}

/// The scope that a trimmed, non-blank line of a `forge tps` reply reports, given what the
/// overall-line and scope-line patterns captured in it: the whole server, or a world (its
/// kind word is `world` in any ASCII case) or else a dimension, named by its trimmed name.
pub open spec fn scope_of_groups(
    overall: Option<Seq<Option<Seq<char>>>>,
    scoped: Option<Seq<Option<Seq<char>>>>,
) -> Option<ScopeView> {
    if overall is Some {
        Some(ScopeView {
            kind: PerformanceScopeKind::Global,
            name: None,
            tps: group_at(overall, 1),
            mspt: group_at(overall, 2),
        })
    } else if scoped is Some {
        let kind_text = match group_at(scoped, 1) {
            Some(k) => k,
            None => seq![],
        };
        Some(ScopeView {
            kind: if lower(kind_text) == lower("world"@) {
                PerformanceScopeKind::World
            } else {
                PerformanceScopeKind::Dimension
            },
            name: match group_at(scoped, 2) {
                Some(n) => Some(trim(n)),
                None => None,
            },
            tps: group_at(scoped, 3),
            mspt: group_at(scoped, 4),
        })
    } else {
        None
    }
}

/// The scope that one line of a `forge tps` reply reports: none for a blank line.
pub open spec fn forge_line_scope(raw_line: Seq<char>) -> Option<ScopeView> {
    let line = trim(raw_line);
    if line.len() == 0 {
        None
    } else {
        scope_of_groups(
            regex_groups(FORGE_OVERALL_LINE_PATTERN@, line),
            regex_groups(FORGE_SCOPE_LINE_PATTERN@, line),
        )
    }
}

/// The scopes of the lines of a reply, in order.
pub open spec fn forge_scopes(ls: Seq<Seq<char>>) -> Seq<ScopeView>
    decreases ls.len(),
{
    if ls.len() == 0 {
        seq![]
    } else {
        let r = forge_scopes(ls.drop_last());
        match forge_line_scope(ls.last()) {
            Some(s) => r.push(s),
            None => r,
        }
    }
}

/// The scope of a trimmed, non-blank line of a `forge tps` reply, given what the overall-line
/// and scope-line patterns captured in it.
pub fn forge_scope_from_captures(
    overall: &Option<Vec<Option<String>>>,
    scoped: &Option<Vec<Option<String>>>,
) -> (r: Option<ForgeScopeText>)
    ensures
        match r {
            Some(s) => scope_of_groups(opt_groups(*overall), opt_groups(*scoped)) == Some(s@),
            None => scope_of_groups(opt_groups(*overall), opt_groups(*scoped)) is None,
        },
{
    if overall.is_some() {
        return Some(
            ForgeScopeText {
                kind: PerformanceScopeKind::Global,
                name: None,
                tps: group_of(overall, 1),
                mspt: group_of(overall, 2),
            },
        );
    }
    if scoped.is_none() {
        return None;
    }
    let kind_text = match group_of(scoped, 1) {
        Some(k) => chars_of(k.as_str()),
        None => Vec::new(),
    };
    let kind = if eq_ignore_case(kind_text.as_slice(), "world") {
        PerformanceScopeKind::World
    } else {
        PerformanceScopeKind::Dimension
    };
    let name = match group_of(scoped, 2) {
        Some(n) => Some(string_from(trimmed_chars(n.as_str()).as_slice())),
        None => None,
    };
    Some(ForgeScopeText { kind, name, tps: group_of(scoped, 3), mspt: group_of(scoped, 4) })
}

fn forge_line_scope_exec(raw_line: &[char]) -> (r: Option<ForgeScopeText>)
    ensures
        match r {
            Some(s) => forge_line_scope(raw_line@) == Some(s@),
            None => forge_line_scope(raw_line@) is None,
        },
{
    let t = trim_chars(raw_line);
    if t.len() == 0 {
        return None;
    }
    let line = string_from(t.as_slice());
    let overall = regex_captures(FORGE_OVERALL_LINE_PATTERN, line.as_str());
    let scoped = regex_captures(FORGE_SCOPE_LINE_PATTERN, line.as_str());
    forge_scope_from_captures(&overall, &scoped)
}

/// What a `forge tps` reply shows: its trimmed text, overall TPS and MSPT, and its scopes.
#[derive(Debug, Clone, PartialEq, Eq)]
pub struct ForgeTpsText {
    pub text: String,
    pub overall_tps: Option<String>,
    pub overall_mspt: Option<String>,
    pub scopes: Vec<ForgeScopeText>,
}

/// The overall TPS of a `forge tps` reply: its overall line, else its mean.
pub open spec fn forge_overall_tps(c: Seq<char>) -> Option<Seq<char>> {
    first_group_one(seq![regex_groups(FORGE_OVERALL_TPS_PATTERN@, c), regex_groups(FORGE_MEAN_TPS_PATTERN@, c)])
}

/// The overall MSPT of a `forge tps` reply: its overall line, else its mean.
pub open spec fn forge_overall_mspt(c: Seq<char>) -> Option<Seq<char>> {
    first_group_one(seq![regex_groups(FORGE_OVERALL_MSPT_PATTERN@, c), regex_groups(FORGE_MEAN_MSPT_PATTERN@, c)])
}

/// How a trimmed `forge tps` reply is read, given its scopes and its overall TPS and MSPT
/// texts: a reply with no overall value and no scope is a failure quoting the reply.
pub open spec fn forge_outcome(
    trimmed: Seq<char>,
    scopes: Seq<ScopeView>,
    tps: Option<Seq<char>>,
    mspt: Option<Seq<char>>,
    r: Result<ForgeTpsText, String>,
) -> bool {
    if tps is None && mspt is None && scopes.len() == 0 {
        r matches Err(m) && m@ == "unable to parse forge tps output: "@ + trimmed
    } else {
        r matches Ok(t) && t.text@ == trimmed && opt_text(t.overall_tps) == tps && opt_text(t.overall_mspt)
            == mspt && scope_views(t.scopes@) == scopes
    }
}

/// How a `forge tps` reply is read: the overall values and one scope per line that reports one.
pub open spec fn forge_tps_reading(output: Seq<char>, r: Result<ForgeTpsText, String>) -> bool {
    let c = reply_text(output);
    forge_outcome(trim(c), forge_scopes(lines(c)), forge_overall_tps(c), forge_overall_mspt(c), r)
}

/// Reads a trimmed `forge tps` reply, given its scopes and what the overall-TPS and
/// overall-MSPT patterns captured in it, each list in the order the spellings are tried.
pub fn forge_from_captures(
    trimmed: &str,
    scopes: Vec<ForgeScopeText>,
    tps: &Vec<Option<Vec<Option<String>>>>,
    mspt: &Vec<Option<Vec<Option<String>>>>,
) -> (r: Result<ForgeTpsText, String>)
    ensures
        forge_outcome(
            trimmed@,
            scope_views(scopes@),
            first_group_one(all_groups(tps@)),
            first_group_one(all_groups(mspt@)),
            r,
        ),
{
    let overall_tps = first_group_one_exec(tps);
    let overall_mspt = first_group_one_exec(mspt);
    if overall_tps.is_none() && overall_mspt.is_none() && scopes.len() == 0 {
        return Err(failure("unable to parse forge tps output: ", trimmed));
    }
    Ok(ForgeTpsText { text: owned(trimmed), overall_tps, overall_mspt, scopes })
}

/// Reads Forge's `forge tps` reply.
pub fn read_forge_tps(output: &str) -> (r: Result<ForgeTpsText, String>)
    ensures
        forge_tps_reading(output@, r),
{
    let cleaned = strip_leading_slash_echo(output);
    let t = string_from(trimmed_chars(cleaned.as_str()).as_slice());
    let c = chars_of(cleaned.as_str());
    let ls = lines_of(c.as_slice());
    let mut scopes: Vec<ForgeScopeText> = Vec::new();
    let mut i: usize = 0;
    while i < ls.len()
        invariant
            i <= ls@.len(),
            views(ls@) == lines(cleaned@),
            scope_views(scopes@) == forge_scopes(views(ls@).subrange(0, i as int)),
        decreases ls@.len() - i,
    {
        let ghost pre = views(ls@).subrange(0, i + 1);
        assert(pre.drop_last() == views(ls@).subrange(0, i as int));
        assert(pre.last() == ls@[i as int]@);
        if let Some(s) = forge_line_scope_exec(ls[i].as_slice()) {
            let ghost old_s = scopes@;
            scopes.push(s);
            assert(scope_views(scopes@) =~= scope_views(old_s).push(s@));
        }
        i = i + 1;
    }
    assert(views(ls@).subrange(0, ls@.len() as int) == views(ls@));
    let s = cleaned.as_str();
    let tps = vec![regex_captures(FORGE_OVERALL_TPS_PATTERN, s), regex_captures(FORGE_MEAN_TPS_PATTERN, s)];
    let mspt = vec![regex_captures(FORGE_OVERALL_MSPT_PATTERN, s), regex_captures(FORGE_MEAN_MSPT_PATTERN, s)];
    assert(all_groups(tps@) =~= seq![regex_groups(FORGE_OVERALL_TPS_PATTERN@, s@), regex_groups(FORGE_MEAN_TPS_PATTERN@, s@)]);
    assert(all_groups(mspt@) =~= seq![regex_groups(FORGE_OVERALL_MSPT_PATTERN@, s@), regex_groups(FORGE_MEAN_MSPT_PATTERN@, s@)]);
    forge_from_captures(t.as_str(), scopes, &tps, &mspt)
}

/// What a provider's reply was read as.
#[derive(Debug, Clone, PartialEq, Eq)]
pub enum ProviderReading {
    Spark(SparkHealthText),
    Forge(ForgeTpsText),
    PaperTps(PaperTpsText),
    PaperMspt(PaperMsptText),
}

/// How a provider's reply is read: a reply saying that the command is not available fails
/// the provider; otherwise the provider's own reader decides (the spark readers name the
/// provider's command in their failures).
pub open spec fn provider_reading(
    provider: MetricProviderKind,
    output: Seq<char>,
    r: Result<ProviderReading, String>,
) -> bool {
    if provider_unavailable(output) {
        r matches Err(m) && m@ == "provider command unavailable: "@ + trim(output)
    } else {
        match provider {
            MetricProviderKind::ForgeTps => match r {
                Ok(ProviderReading::Forge(t)) => forge_tps_reading(output, Ok(t)),
                Ok(_) => false,
                Err(m) => forge_tps_reading(output, Err(m)),
            },
            MetricProviderKind::PaperTps => match r {
                Ok(ProviderReading::PaperTps(t)) => paper_tps_reading(output, Ok(t)),
                Ok(_) => false,
                Err(m) => paper_tps_reading(output, Err(m)),
            },
            MetricProviderKind::PaperMspt => match r {
                Ok(ProviderReading::PaperMspt(t)) => paper_mspt_reading(output, Ok(t)),
                Ok(_) => false,
                Err(m) => paper_mspt_reading(output, Err(m)),
            },
            _ => match r {
                Ok(ProviderReading::Spark(t)) => spark_reading(output, provider.command_text(), Ok(t)),
                Ok(_) => false,
                Err(m) => spark_reading(output, provider.command_text(), Err(m)),
            },
        }
    }
}

/// Reads the reply of `provider` to its command.
pub fn read_provider(provider: MetricProviderKind, output: &str) -> (r: Result<ProviderReading, String>)
    ensures
        provider_reading(provider, output@, r),
{
    if looks_like_provider_unavailable(output) {
        return Err(provider_unavailable_message(output));
    }
    match provider {
        MetricProviderKind::ForgeTps => match read_forge_tps(output) {
            Ok(t) => Ok(ProviderReading::Forge(t)),
            Err(m) => Err(m),
        },
        MetricProviderKind::PaperTps => match read_paper_tps(output) {
            Ok(t) => Ok(ProviderReading::PaperTps(t)),
            Err(m) => Err(m),
        },
        MetricProviderKind::PaperMspt => match read_paper_mspt(output) {
            Ok(t) => Ok(ProviderReading::PaperMspt(t)),
            Err(m) => Err(m),
        },
        _ => match read_spark_health(output, provider.command()) {
            Ok(t) => Ok(ProviderReading::Spark(t)),
            Err(m) => Err(m),
        },
    }
}

} // verus!
