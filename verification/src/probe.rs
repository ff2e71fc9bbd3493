//! The steps of the RCON probes: which command goes out next, and what each reply changes.
//! Sending a command and waiting for its reply is left to the caller.
use vstd::prelude::*;
use crate::server_info::{
    bukkit_like, is_bukkit_like, list_reply, opt_str, opt_text,
    parse_list_output, parse_plugin_names, plugin_names, string_views, MetricProviderKind, OnlinePlayersSnapshot, ProbeWarning,
    ServerInfoError,
};
use crate::metrics::{provider_reading, read_provider, ProviderReading};
use crate::text::{string_from, trim, trimmed_chars};

verus! {

/// The message that an error carries.
pub open spec fn error_message(e: ServerInfoError) -> Seq<char> {
    match e {
        ServerInfoError::UnsupportedTransport(m) => m@,
        ServerInfoError::UnsupportedFamily(m) => m@,
        ServerInfoError::Connection(m) => m@,
        ServerInfoError::Authentication(m) => m@,
        ServerInfoError::Command(m) => m@,
        ServerInfoError::Parse(m) => m@,
    }
}

/// `w` is a warning of this stage and provider, with this message.
pub open spec fn warning_is(w: ProbeWarning, stage: Seq<char>, provider: Option<Seq<char>>, message: Seq<char>) -> bool {
    &&& w.stage@ == stage
    &&& opt_str(w.provider) == provider
    &&& w.message@ == message
}

/// `after` is `before` with one more warning at its end, of this stage, provider and message.
pub open spec fn one_more_warning(
    after: Seq<ProbeWarning>,
    before: Seq<ProbeWarning>,
    stage: Seq<char>,
    provider: Option<Seq<char>>,
    message: Seq<char>,
) -> bool {
    &&& after.len() == before.len() + 1
    &&& after.subrange(0, before.len() as int) == before
    &&& warning_is(after.last(), stage, provider, message)
}

fn push_warning(
    warnings: &mut Vec<ProbeWarning>,
    stage: &'static str,
    provider: Option<&'static str>,
    message: &str,
)
    ensures
        one_more_warning(final(warnings)@, old(warnings)@, stage@, opt_str(provider), message@),
{
    let ghost before = warnings@;
    warnings.push(ProbeWarning::new(stage, provider, message));
    assert(warnings@.subrange(0, before.len() as int) =~= before);
}

/// The commands of a snapshot probe, in the order they are sent.
#[derive(Debug, Clone, Copy, PartialEq, Eq, Structural)]
pub enum SnapshotCommand {
    List,
    Version,
    Plugins,
}

impl SnapshotCommand {
    pub open spec fn text(self) -> Seq<char> {
        match self {
            SnapshotCommand::List => "list"@,
            SnapshotCommand::Version => "version"@,
            SnapshotCommand::Plugins => "plugins"@,
        }
    }

    /// The console command.
    pub fn as_str(self) -> (r: &'static str)
        ensures
            r@ == self.text(),
    {
        match self {
            SnapshotCommand::List => "list",
            SnapshotCommand::Version => "version",
            SnapshotCommand::Plugins => "plugins",
        }
    }
}

/// A snapshot probe under way: `list` first; on Bukkit-like servers `version` and `plugins`
/// after it, whose failures are kept as warnings.
#[derive(Debug, Clone, PartialEq, Eq)]
pub struct SnapshotProbe {
    pub bukkit_like: bool,
    pub next: Option<SnapshotCommand>,
    pub players: Option<OnlinePlayersSnapshot>,
    pub version_text: Option<String>,
    pub plugins_text: Option<String>,
    pub plugin_names: Vec<String>,
    pub warnings: Vec<ProbeWarning>,
}

impl SnapshotProbe {
    /// A probe of a server with this core key; it starts with `list`.
    pub fn start(core_key: Option<&str>) -> (r: Self)
        ensures
            r.bukkit_like == bukkit_like(opt_str(core_key)),
            r.next == Some(SnapshotCommand::List),
            r.players is None,
            r.version_text is None,
            r.plugins_text is None,
            r.plugin_names@.len() == 0,
            r.warnings@.len() == 0,
    {
        SnapshotProbe {
            bukkit_like: is_bukkit_like(core_key),
            next: Some(SnapshotCommand::List),
            players: None,
            version_text: None,
            plugins_text: None,
            plugin_names: Vec::new(),
            warnings: Vec::new(),
        }
    }

    /// Takes the reply to the command named by `next`. A failed or unreadable `list` reply
    /// fails the probe; a failed `version` or `plugins` only leaves a warning. A finished probe
    /// is given back unchanged.
    pub fn on_reply(self, reply: Result<String, ServerInfoError>) -> (r: Result<Self, ServerInfoError>)
        ensures
            self.next is None ==> r == Ok::<SnapshotProbe, ServerInfoError>(self),
            self.next == Some(SnapshotCommand::List) ==> match reply {
                Err(e) => r == Err::<SnapshotProbe, ServerInfoError>(e),
                Ok(out) => match list_reply(out@) {
                    Err(msg) => r matches Err(ServerInfoError::Parse(m)) && m@ == msg,
                    Ok((o, m, ps)) => r matches Ok(p) && {
                        &&& p.players matches Some(s) && s.online == o && s.max == m
                            && string_views(s.players@) == ps
                        &&& p.next == if self.bukkit_like {
                            Some(SnapshotCommand::Version)
                        } else {
                            None
                        }
                        &&& p.bukkit_like == self.bukkit_like
                        &&& p.version_text == self.version_text
                        &&& p.plugins_text == self.plugins_text
                        &&& p.plugin_names == self.plugin_names
                        &&& p.warnings == self.warnings
                    },
                },
            },
            self.next == Some(SnapshotCommand::Version) ==> (r matches Ok(p) && {
                &&& p.next == Some(SnapshotCommand::Plugins)
                &&& p.bukkit_like == self.bukkit_like
                &&& p.players == self.players
                &&& p.plugins_text == self.plugins_text
                &&& p.plugin_names == self.plugin_names
                &&& match reply {
                    Ok(out) => opt_text(p.version_text) == Some(trim(out@)) && p.warnings == self.warnings,
                    Err(e) => p.version_text == self.version_text && one_more_warning(
                        p.warnings@,
                        self.warnings@,
                        "snapshot"@,
                        None,
                        error_message(e),
                    ),
                }
            }),
            self.next == Some(SnapshotCommand::Plugins) ==> (r matches Ok(p) && {
                &&& p.next is None
                &&& p.bukkit_like == self.bukkit_like
                &&& p.players == self.players
                &&& p.version_text == self.version_text
                &&& match reply {
                    Ok(out) => opt_text(p.plugins_text) == Some(trim(out@)) && string_views(
                        p.plugin_names@,
                    ) == plugin_names(trim(out@)) && p.warnings == self.warnings,
                    Err(e) => p.plugins_text == self.plugins_text && p.plugin_names == self.plugin_names
                        && one_more_warning(p.warnings@, self.warnings@, "snapshot"@, None, error_message(e)),
                }
            }),
    {
        let mut probe = self;
        match probe.next {
            None => Ok(probe),
            Some(SnapshotCommand::List) => {
                let out = match reply {
                    Err(e) => return Err(e),
                    Ok(out) => out,
                };
                let players = match parse_list_output(out.as_str()) {
                    Err(e) => return Err(e),
                    Ok(p) => p,
                };
                probe.players = Some(players);
                probe.next = if probe.bukkit_like {
                    Some(SnapshotCommand::Version)
                } else {
                    None
                };
                Ok(probe)
            },
            Some(SnapshotCommand::Version) => {
                match reply {
                    Ok(out) => {
                        let t = trimmed_chars(out.as_str());
                        probe.version_text = Some(string_from(t.as_slice()));
                    },
                    Err(e) => {
                        push_warning(&mut probe.warnings, "snapshot", None, e.message());
                    },
                }
                probe.next = Some(SnapshotCommand::Plugins);
                Ok(probe)
            },
            Some(SnapshotCommand::Plugins) => {
                match reply {
                    Ok(out) => {
                        let t = trimmed_chars(out.as_str());
                        let text = string_from(t.as_slice());
                        probe.plugin_names = parse_plugin_names(text.as_str());
                        probe.plugins_text = Some(text);
                    },
                    Err(e) => {
                        push_warning(&mut probe.warnings, "snapshot", None, e.message());
                    },
                }
                probe.next = None;
                Ok(probe)
            },
        }
    }
}

/// A performance probe under way: the providers to ask, in order, how many were asked, and
/// the warnings left by those that failed.
#[derive(Debug, Clone, PartialEq, Eq)]
pub struct MetricsProbe {
    pub providers: Vec<MetricProviderKind>,
    pub position: usize,
    pub warnings: Vec<ProbeWarning>,
}

/// `w` is a metrics warning that names `provider`.
pub open spec fn names_provider(w: ProbeWarning, provider: MetricProviderKind) -> bool {
    w.stage@ == "metrics"@ && opt_str(w.provider) == Some(provider.name_text())
}

impl MetricsProbe {
    /// Each provider asked so far failed and left one warning, in the order they were asked.
    pub open spec fn each_asked_failed(&self) -> bool {
        &&& self.position <= self.providers@.len()
        &&& self.warnings@.len() == self.position
        &&& forall|i: int|
            0 <= i < self.position ==> names_provider(#[trigger] self.warnings@[i], self.providers@[i])
    }

    pub fn new(providers: Vec<MetricProviderKind>) -> (r: Self)
        ensures
            r.providers == providers,
            r.position == 0,
            r.warnings@.len() == 0,
            r.each_asked_failed(),
    {
        MetricsProbe { providers, position: 0, warnings: Vec::new() }
    }

    /// The provider to ask next, while one is left.
    pub open spec fn next_provider_spec(&self) -> Option<MetricProviderKind> {
        if self.position < self.providers@.len() {
            Some(self.providers@[self.position as int])
        } else {
            None
        }
    }

    /// The provider to ask next, while one is left.
    pub fn next_provider(&self) -> (r: Option<MetricProviderKind>)
        ensures
            r == self.next_provider_spec(),
    {
        if self.position < self.providers.len() {
            Some(self.providers[self.position])
        } else {
            None
        }
    }

    /// The provider just asked failed with this message: the failure is kept as a warning that
    /// names the provider, and the next provider is up. Once every provider was asked, nothing
    /// changes.
    pub fn provider_failed(&mut self, message: &str)
        ensures
            final(self).providers == old(self).providers,
            old(self).position < old(self).providers@.len() ==> {
                &&& final(self).position == old(self).position + 1
                &&& one_more_warning(
                    final(self).warnings@,
                    old(self).warnings@,
                    "metrics"@,
                    Some(old(self).providers@[old(self).position as int].name_text()),
                    message@,
                )
            },
            old(self).position >= old(self).providers@.len() ==> *final(self) == *old(self),
            old(self).each_asked_failed() ==> final(self).each_asked_failed(),
    {
        if self.position < self.providers.len() {
            let provider = self.providers[self.position];
            let ghost before = self.warnings@;
            push_warning(&mut self.warnings, "metrics", Some(provider.name()), message);
            self.position = self.position + 1;
            proof {
                if old(self).each_asked_failed() {
                    assert forall|i: int| 0 <= i < self.position implies names_provider(
                        #[trigger] self.warnings@[i],
                        self.providers@[i],
                    ) by {
                        if i < before.len() {
                            assert(self.warnings@.subrange(0, before.len() as int)[i] == self.warnings@[i]);
                        }
                    }
                }
            }
        }
    }

    /// The reply of the provider asked now. A reply that reads ends the probe: the reading
    /// is handed back and the probe is left as it was. A failed exchange, or a reply that does
    /// not read, becomes the provider's warning and the next provider is up. Once every
    /// provider was asked, nothing changes.
    pub fn take_reply(&mut self, reply: Result<String, ServerInfoError>) -> (r: Option<ProviderReading>)
        ensures
            final(self).providers == old(self).providers,
            old(self).each_asked_failed() ==> final(self).each_asked_failed(),
            old(self).position >= old(self).providers@.len() ==> r is None && *final(self) == *old(self),
            old(self).position < old(self).providers@.len() ==> {
                let provider = old(self).providers@[old(self).position as int];
                match reply {
                    Err(e) => {
                        &&& r is None
                        &&& final(self).position == old(self).position + 1
                        &&& one_more_warning(
                            final(self).warnings@,
                            old(self).warnings@,
                            "metrics"@,
                            Some(provider.name_text()),
                            error_message(e),
                        )
                    },
                    Ok(output) => match r {
                        Some(reading) => {
                            &&& provider_reading(provider, output@, Ok(reading))
                            &&& *final(self) == *old(self)
                        },
                        None => {
                            &&& provider_reading(provider, output@, Err(final(self).warnings@.last().message))
                            &&& final(self).position == old(self).position + 1
                            &&& one_more_warning(
                                final(self).warnings@,
                                old(self).warnings@,
                                "metrics"@,
                                Some(provider.name_text()),
                                final(self).warnings@.last().message@,
                            )
                        },
                    },
                }
            },
    {
        if self.position >= self.providers.len() {
            return None;
        }
        let provider = self.providers[self.position];
        match reply {
            Err(e) => {
                self.provider_failed(e.message());
                None
            },
            Ok(output) => match read_provider(provider, output.as_str()) {
                Ok(reading) => Some(reading),
                Err(m) => {
                    self.provider_failed(m.as_str());
                    None
                },
            },
        }
    }
}

/// A performance probe that keeps its invariant and has asked every provider without a
/// reading holds exactly one warning per provider, naming each in the order they were asked.
pub proof fn lemma_exhausted_probe_warns_for_every_provider(p: MetricsProbe)
    requires
        p.each_asked_failed(),
        p.next_provider_spec() is None,
    ensures
        p.warnings@.len() == p.providers@.len(),
        forall|i: int| 0 <= i < p.providers@.len() ==> names_provider(#[trigger] p.warnings@[i], p.providers@[i]),
{
}

} // verus!
