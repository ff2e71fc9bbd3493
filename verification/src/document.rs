//! Configuration documents: formats, high-fidelity `.properties` editing, and raw documents.
use vstd::prelude::*;
use crate::paths::{extension, extension_exec};
use crate::text::{
    append_chars, append_str, chars_of, eq_str, is_ws, lemma_lines_lack_newline, lemma_split_append_piece,
    lemma_trim_idempotent, lemma_trim_shape, lines, lines_of, norm, norm_chars, owned, split, string_from,
    sub_vec, trim, trim_chars, views,
};

verus! {

/// The file formats that a configuration document can have.
#[derive(Debug, Clone, Copy, PartialEq, Eq, Hash, Structural)]
pub enum ConfigFormat {
    Yaml,
    Toml,
    Json,
    Properties,
    Text,
}

/// The format that a file extension stands for, compared trimmed and in any ASCII case.
pub open spec fn format_of_extension(e: Seq<char>) -> Option<ConfigFormat> {
    let n = norm(e);
    if n == "yml"@ || n == "yaml"@ {
        Some(ConfigFormat::Yaml)
    } else if n == "toml"@ {
        Some(ConfigFormat::Toml)
    } else if n == "json"@ {
        Some(ConfigFormat::Json)
    } else if n == "properties"@ {
        Some(ConfigFormat::Properties)
    } else if n == "txt"@ {
        Some(ConfigFormat::Text)
    } else {
        None
    }
}

impl ConfigFormat {
    pub fn from_extension(extension: &str) -> (r: Option<Self>)
        ensures
            r == format_of_extension(extension@),
    {
        let n = norm_chars(extension);
        let s = n.as_slice();
        if eq_str(s, "yml") || eq_str(s, "yaml") {
            Some(ConfigFormat::Yaml)
        } else if eq_str(s, "toml") {
            Some(ConfigFormat::Toml)
        } else if eq_str(s, "json") {
            Some(ConfigFormat::Json)
        } else if eq_str(s, "properties") {
            Some(ConfigFormat::Properties)
        } else if eq_str(s, "txt") {
            Some(ConfigFormat::Text)
        } else {
            None
        }
    }
}

/// Why a configuration document could not be read or written.
#[derive(Debug, Clone, PartialEq, Eq)]
pub enum ConfigIoError {
    UnsupportedFormat(String),
    ParseFailed(String),
    WriteFailed(String),
    Io(String),
}

/// The format of a file, by its extension.
pub open spec fn path_format(path: Seq<char>) -> Option<ConfigFormat> {
    match extension(path) {
        Some(e) => format_of_extension(e),
        None => None,
    }
}

/// The format of a configuration file, by its extension.
pub fn infer_format_from_path(path: &str) -> (r: Result<ConfigFormat, ConfigIoError>)
    ensures
        match path_format(path@) {
            Some(f) => r == Ok::<ConfigFormat, ConfigIoError>(f),
            None => r matches Err(ConfigIoError::UnsupportedFormat(p)) && p@ == path@,
        },
{
    let v = chars_of(path);
    match extension_exec(v.as_slice()) {
        Some(e) => {
            let es = string_from(e.as_slice());
            match ConfigFormat::from_extension(es.as_str()) {
                Some(f) => Ok(f),
                None => Err(ConfigIoError::UnsupportedFormat(owned(path))),
            }
        },
        None => Err(ConfigIoError::UnsupportedFormat(owned(path))),
    }
}

/// A YAML document, kept as its raw text.
#[derive(Debug, Clone, PartialEq, Eq)]
pub struct YamlDocument {
    raw: String,
}

impl View for YamlDocument {
    type V = Seq<char>;

    closed spec fn view(&self) -> Seq<char> {
        self.raw@
    }
}

impl YamlDocument {
    pub fn new(raw: &str) -> (r: Self)
        ensures
            r@ == raw@,
    {
        YamlDocument { raw: owned(raw) }
    }

    pub fn raw(&self) -> (r: &str)
        ensures
            r@ == self@,
    {
        self.raw.as_str()
    }

    pub fn replace_raw(&mut self, raw: &str)
        ensures
            final(self)@ == raw@,
    {
        self.raw = owned(raw);
    }
}

/// A plain-text document.
#[derive(Debug, Clone, PartialEq, Eq)]
pub struct TextDocument {
    raw: String,
}

impl View for TextDocument {
    type V = Seq<char>;

    closed spec fn view(&self) -> Seq<char> {
        self.raw@
    }
}

impl TextDocument {
    pub fn new(raw: &str) -> (r: Self)
        ensures
            r@ == raw@,
    {
        TextDocument { raw: owned(raw) }
    }

    pub fn raw(&self) -> (r: &str)
        ensures
            r@ == self@,
    {
        self.raw.as_str()
    }

    pub fn replace_raw(&mut self, raw: &str)
        ensures
            final(self)@ == raw@,
    {
        self.raw = owned(raw);
    }
}

/// One line of a `.properties` file.
#[derive(Debug, Clone, PartialEq, Eq)]
pub enum PropertiesLine {
    Blank,
    Comment(String),
    Entry { key: String, separator: char, value: String },
    Raw(String),
}

/// The abstract content of a [`PropertiesLine`].
pub enum LineView {
    Blank,
    Comment(Seq<char>),
    Entry(Seq<char>, char, Seq<char>),
    Raw(Seq<char>),
}

impl View for PropertiesLine {
    type V = LineView;

    open spec fn view(&self) -> LineView {
        match self {
            PropertiesLine::Blank => LineView::Blank,
            PropertiesLine::Comment(s) => LineView::Comment(s@),
            PropertiesLine::Entry { key, separator, value } => LineView::Entry(key@, *separator, value@),
            PropertiesLine::Raw(s) => LineView::Raw(s@),
        }
    }
}

pub open spec fn line_views(v: Seq<PropertiesLine>) -> Seq<LineView> {
    v.map_values(|l: PropertiesLine| l@)
}

/// Index of the first `=` or `:` of a line, if any.
pub open spec fn first_separator(line: Seq<char>) -> Option<int> {
    if exists|i: int| 0 <= i < line.len() && (line[i] == '=' || line[i] == ':') {
        Some(
            choose|i: int|
                0 <= i < line.len() && (line[i] == '=' || line[i] == ':') && forall|j: int|
                    0 <= j < i ==> line[j] != '=' && line[j] != ':',
        )
    } else {
        None
    }
}

/// How one line of a `.properties` file is read: blank, a `#` or `!` comment, an entry split at
/// its first `=` or `:` (the key trimmed, the value kept as written), or a raw line.
pub open spec fn parse_line(line: Seq<char>) -> LineView {
    let t = trim(line);
    if t.len() == 0 {
        LineView::Blank
    } else if t[0] == '#' || t[0] == '!' {
        LineView::Comment(line)
    } else {
        match first_separator(line) {
            Some(i) => LineView::Entry(trim(line.subrange(0, i)), line[i], line.subrange(i + 1, line.len() as int)),
            None => LineView::Raw(line),
        }
    }
}

/// The lines of a `.properties` text, each read by [`parse_line`].
pub open spec fn parse_properties(content: Seq<char>) -> Seq<LineView> {
    lines(content).map_values(|l: Seq<char>| parse_line(l))
}

/// The line is an entry whose key is `key`.
pub open spec fn has_key(l: LineView, key: Seq<char>) -> bool {
    l matches LineView::Entry(k, _, _) && k == key
}

/// The value of the first entry with `key`.
pub open spec fn prop_get(ls: Seq<LineView>, key: Seq<char>) -> Option<Seq<char>>
    decreases ls.len(),
{
    if ls.len() == 0 {
        None
    } else {
        match ls[0] {
            LineView::Entry(k, _, v) => if k == key {
                Some(v)
            } else {
                prop_get(ls.drop_first(), key)
            },
            _ => prop_get(ls.drop_first(), key),
        }
    }
}

/// The lines after setting `key` to `value`: the first entry with `key` takes the value and
/// keeps its separator; without one, an entry `key=value` is appended.
pub open spec fn prop_set(ls: Seq<LineView>, key: Seq<char>, value: Seq<char>) -> Seq<LineView>
    decreases ls.len(),
{
    if ls.len() == 0 {
        seq![LineView::Entry(key, '=', value)]
    } else {
        match ls[0] {
            LineView::Entry(k, s, _) => if k == key {
                ls.update(0, LineView::Entry(k, s, value))
            } else {
                seq![ls[0]] + prop_set(ls.drop_first(), key, value)
            },
            _ => seq![ls[0]] + prop_set(ls.drop_first(), key, value),
        }
    }
}

/// The text of one line, with its line end.
pub open spec fn render_line(l: LineView) -> Seq<char> {
    match l {
        LineView::Blank => seq!['\n'],
        LineView::Comment(s) => s.push('\n'),
        LineView::Raw(s) => s.push('\n'),
        LineView::Entry(k, sep, v) => (k.push(sep) + v).push('\n'),
    }
}

/// The text of a list of lines.
pub open spec fn render_lines(ls: Seq<LineView>) -> Seq<char>
    decreases ls.len(),
{
    if ls.len() == 0 {
        seq![]
    } else {
        render_lines(ls.drop_last()) + render_line(ls.last())
    }
}

/// A `.properties` document that keeps comments, blank lines and the order of its lines.
#[derive(Debug, Clone, PartialEq, Eq)]
pub struct PropertiesDocument {
    lines: Vec<PropertiesLine>,
}

impl View for PropertiesDocument {
    type V = Seq<LineView>;

    closed spec fn view(&self) -> Seq<LineView> {
        line_views(self.lines@)
    }
}

fn first_separator_exec(line: &[char]) -> (r: Option<usize>)
    ensures
        r matches Some(i) ==> first_separator(line@) == Some(i as int),
        r matches Some(i) ==> i < line@.len(),
        r is None ==> first_separator(line@) is None,
{
    let mut i: usize = 0;
    while i < line.len()
        invariant
            i <= line@.len(),
            forall|j: int| 0 <= j < i ==> line@[j] != '=' && line@[j] != ':',
        decreases line@.len() - i,
    {
        if line[i] == '=' || line[i] == ':' {
            proof {
                let w = choose|k: int|
                    0 <= k < line@.len() && (line@[k] == '=' || line@[k] == ':') && forall|j: int|
                        0 <= j < k ==> line@[j] != '=' && line@[j] != ':';
                assert(0 <= i < line@.len() && (line@[i as int] == '=' || line@[i as int] == ':')
                    && forall|j: int| 0 <= j < i ==> line@[j] != '=' && line@[j] != ':');
                if w < i {
                } else if w > i {
                    assert(line@[i as int] != '=' && line@[i as int] != ':');
                }
            }
            return Some(i);
        }
        i = i + 1;
    }
    None
}

fn parse_line_exec(line: &[char]) -> (r: PropertiesLine)
    ensures
        r@ == parse_line(line@),
{
    let t = trim_chars(line);
    if t.len() == 0 {
        return PropertiesLine::Blank;
    }
    if t[0] == '#' || t[0] == '!' {
        return PropertiesLine::Comment(string_from(line));
    }
    let n = line.len();
    match first_separator_exec(line) {
        Some(i) => {
            let k = sub_vec(line, 0, i);
            let kt = trim_chars(k.as_slice());
            let v = sub_vec(line, i + 1, n);
            PropertiesLine::Entry {
                key: string_from(kt.as_slice()),
                separator: line[i],
                value: string_from(v.as_slice()),
            }
        },
        None => PropertiesLine::Raw(string_from(line)),
    }
}

proof fn lemma_set_step(ls: Seq<LineView>, i: int, key: Seq<char>, value: Seq<char>)
    requires
        0 <= i < ls.len(),
        !has_key(ls[i], key),
    ensures
        ls.subrange(0, i) + prop_set(ls.subrange(i, ls.len() as int), key, value) == ls.subrange(
            0,
            i + 1,
        ) + prop_set(ls.subrange(i + 1, ls.len() as int), key, value),
{
    let s = ls.subrange(i, ls.len() as int);
    assert(s[0] == ls[i]);
    assert(s.drop_first() == ls.subrange(i + 1, ls.len() as int));
    assert(prop_set(s, key, value) == seq![ls[i]] + prop_set(s.drop_first(), key, value));
    assert(ls.subrange(0, i + 1) == ls.subrange(0, i) + seq![ls[i]]);
    assert((ls.subrange(0, i) + seq![ls[i]]) + prop_set(s.drop_first(), key, value) == ls.subrange(
        0,
        i,
    ) + (seq![ls[i]] + prop_set(s.drop_first(), key, value)));
}

proof fn lemma_get_step(ls: Seq<LineView>, i: int, key: Seq<char>)
    requires
        0 <= i < ls.len(),
        !has_key(ls[i], key),
    ensures
        prop_get(ls.subrange(i, ls.len() as int), key) == prop_get(ls.subrange(i + 1, ls.len() as int), key),
{
    let s = ls.subrange(i, ls.len() as int);
    assert(s[0] == ls[i]);
    assert(s.drop_first() == ls.subrange(i + 1, ls.len() as int));
}

impl PropertiesDocument {
    /// Reads a `.properties` text line by line.
    pub fn parse(content: &str) -> (r: Self)
        ensures
            r@ == parse_properties(content@),
    {
        let c = chars_of(content);
        let ls = lines_of(c.as_slice());
        let mut out: Vec<PropertiesLine> = Vec::new();
        let mut i: usize = 0;
        while i < ls.len()
            invariant
                i <= ls@.len(),
                views(ls@) == lines(content@),
                line_views(out@) == lines(content@).subrange(0, i as int).map_values(
                    |l: Seq<char>| parse_line(l),
                ),
            decreases ls@.len() - i,
        {
            let p = parse_line_exec(ls[i].as_slice());
            assert(views(ls@)[i as int] == ls@[i as int]@);
            assert(p@ == parse_line(lines(content@)[i as int]));
            let ghost old_out = out@;
            out.push(p);
            assert(line_views(out@) =~= line_views(old_out).push(p@));
            assert(lines(content@).subrange(0, i + 1).map_values(|l: Seq<char>| parse_line(l))
                =~= lines(content@).subrange(0, i as int).map_values(|l: Seq<char>| parse_line(l)).push(
                parse_line(lines(content@)[i as int]),
            ));
            i = i + 1;
        }
        assert(lines(content@).subrange(0, ls@.len() as int) == lines(content@));
        PropertiesDocument { lines: out }
    }

    /// The value of the first entry with `key`.
    pub fn get(&self, key: &str) -> (r: Option<&str>)
        ensures
            match r {
                Some(v) => prop_get(self@, key@) == Some(v@),
                None => prop_get(self@, key@) is None,
            },
    {
        let ghost ls = self@;
        let n = self.lines.len();
        let mut i: usize = 0;
        assert(ls.subrange(0, n as int) == ls);
        while i < n
            invariant
                n == self.lines@.len(),
                ls == line_views(self.lines@),
                i <= n,
                prop_get(ls, key@) == prop_get(ls.subrange(i as int, n as int), key@),
            decreases n - i,
        {
            assert(ls[i as int] == self.lines@[i as int]@);
            match &self.lines[i] {
                PropertiesLine::Entry { key: k, value: v, .. } => {
                    if str_eq_string(k, key) {
                        let ghost s = ls.subrange(i as int, n as int);
                        assert(s[0] == ls[i as int]);
                        return Some(v.as_str());
                    }
                },
                _ => {},
            }
            proof {
                lemma_get_step(ls, i as int, key@);
            }
            i = i + 1;
        }
        None
    }

    /// Sets `key` to `value`: the first entry with `key` takes the value, else an entry
    /// `key=value` is appended.
    pub fn set(&mut self, key: &str, value: &str)
        ensures
            final(self)@ == prop_set(old(self)@, key@, value@),
    {
        let ghost ls = self@;
        let n = self.lines.len();
        let mut i: usize = 0;
        assert(ls.subrange(0, 0) + ls.subrange(0, n as int) == ls);
        while i < n
            invariant
                n == self.lines@.len(),
                ls == line_views(self.lines@),
                ls == old(self)@,
                i <= n,
                prop_set(ls, key@, value@) == ls.subrange(0, i as int) + prop_set(
                    ls.subrange(i as int, n as int),
                    key@,
                    value@,
                ),
            decreases n - i,
        {
            assert(ls[i as int] == self.lines@[i as int]@);
            let found = match &self.lines[i] {
                PropertiesLine::Entry { key: k, separator, .. } => {
                    if str_eq_string(k, key) {
                        Some((k.clone(), *separator))
                    } else {
                        None
                    }
                },
                _ => None,
            };
            if let Some((k, sep)) = found {
                let ghost s = ls.subrange(i as int, n as int);
                assert(s[0] == ls[i as int]);
                let line = PropertiesLine::Entry { key: k, separator: sep, value: owned(value) };
                let ghost newl = line@;
                self.lines.set(i, line);
                assert(prop_set(s, key@, value@) == s.update(0, newl));
                assert(line_views(self.lines@) =~= ls.subrange(0, i as int) + s.update(0, newl));
                return;
            }
            proof {
                lemma_set_step(ls, i as int, key@, value@);
            }
            i = i + 1;
        }
        let ghost s = ls.subrange(n as int, n as int);
        assert(s.len() == 0);
        let line = PropertiesLine::Entry { key: owned(key), separator: '=', value: owned(value) };
        let ghost newl = line@;
        self.lines.push(line);
        assert(line_views(self.lines@) =~= ls.subrange(0, n as int) + seq![newl]);
    }

    /// The text of the document, each line ended by `\n`.
    pub fn render(&self) -> (r: String)
        ensures
            r@ == render_lines(self@),
    {
        let ghost ls = self@;
        let mut out: Vec<char> = Vec::new();
        let mut i: usize = 0;
        while i < self.lines.len()
            invariant
                ls == line_views(self.lines@),
                i <= self.lines@.len(),
                out@ == render_lines(ls.subrange(0, i as int)),
            decreases self.lines@.len() - i,
        {
            let ghost pre = ls.subrange(0, i + 1);
            assert(pre.drop_last() == ls.subrange(0, i as int));
            assert(pre.last() == self.lines@[i as int]@);
            match &self.lines[i] {
                PropertiesLine::Blank => {
                    out.push('\n');
                },
                PropertiesLine::Comment(s) => {
                    append_str(&mut out, s.as_str());
                    out.push('\n');
                },
                PropertiesLine::Raw(s) => {
                    append_str(&mut out, s.as_str());
                    out.push('\n');
                },
                PropertiesLine::Entry { key, separator, value } => {
                    append_str(&mut out, key.as_str());
                    out.push(*separator);
                    append_str(&mut out, value.as_str());
                    out.push('\n');
                },
            }
            assert(out@ =~= render_lines(pre));
            i = i + 1;
        }
        assert(ls.subrange(0, self.lines@.len() as int) == ls);
        string_from(out.as_slice())
    }
}

fn str_eq_string(a: &String, b: &str) -> (r: bool)
    ensures
        r == (a@ == b@),
{
    let v = chars_of(a.as_str());
    eq_str(v.as_slice(), b)
}

/// Reading a value back after setting it gives that value.
pub proof fn lemma_get_after_set(ls: Seq<LineView>, key: Seq<char>, value: Seq<char>)
    ensures
        prop_get(prop_set(ls, key, value), key) == Some(value),
    decreases ls.len(),
{
    if ls.len() > 0 {
        match ls[0] {
            LineView::Entry(k, s, _) => {
                if k != key {
                    lemma_get_after_set(ls.drop_first(), key, value);
                    let t = seq![ls[0]] + prop_set(ls.drop_first(), key, value);
                    assert(t[0] == ls[0]);
                    assert(t.drop_first() == prop_set(ls.drop_first(), key, value));
                } else {
                    let t = ls.update(0, LineView::Entry(k, s, value));
                    assert(t[0] == LineView::Entry(k, s, value));
                }
            },
            _ => {
                lemma_get_after_set(ls.drop_first(), key, value);
                let t = seq![ls[0]] + prop_set(ls.drop_first(), key, value);
                assert(t[0] == ls[0]);
                assert(t.drop_first() == prop_set(ls.drop_first(), key, value));
            },
        }
    }
}

/// Setting one key leaves the value of every other key as it was.
pub proof fn lemma_set_keeps_other_keys(ls: Seq<LineView>, key: Seq<char>, value: Seq<char>, other: Seq<char>)
    requires
        other != key,
    ensures
        prop_get(prop_set(ls, key, value), other) == prop_get(ls, other),
    decreases ls.len(),
{
    if ls.len() == 0 {
        let t = prop_set(ls, key, value);
        assert(t == seq![LineView::Entry(key, '=', value)]);
        assert(t[0] == LineView::Entry(key, '=', value));
        assert(prop_get(t, other) == prop_get(t.drop_first(), other));
        assert(t.drop_first() =~= Seq::<LineView>::empty());
        assert(prop_get(t.drop_first(), other) is None);
    } else {
        match ls[0] {
            LineView::Entry(k, s, _) => {
                if k != key {
                    lemma_set_keeps_other_keys(ls.drop_first(), key, value, other);
                    let t = seq![ls[0]] + prop_set(ls.drop_first(), key, value);
                    assert(t[0] == ls[0]);
                    assert(t.drop_first() == prop_set(ls.drop_first(), key, value));
                } else {
                    let t = ls.update(0, LineView::Entry(k, s, value));
                    assert(t[0] == LineView::Entry(k, s, value));
                    assert(t.drop_first() == ls.drop_first());
                }
            },
            _ => {
                lemma_set_keeps_other_keys(ls.drop_first(), key, value, other);
                let t = seq![ls[0]] + prop_set(ls.drop_first(), key, value);
                assert(t[0] == ls[0]);
                assert(t.drop_first() == prop_set(ls.drop_first(), key, value));
            },
        }
    }
}

#[verifier::external_type_specification]
#[verifier::external_body]
pub struct ExTomlDocumentMut(toml_edit::DocumentMut);

#[verifier::external_type_specification]
#[verifier::external_body]
pub struct ExTomlError(toml_edit::TomlError);

#[verifier::external_type_specification]
#[verifier::external_body]
pub struct ExJsonValue(serde_json::Value);

#[verifier::external_type_specification]
#[verifier::external_body]
pub struct ExJsonError(serde_json::Error);

/// `Clone` of `toml_edit::DocumentMut` (derived there). Nothing is stated of the copy.
pub assume_specification[ <toml_edit::DocumentMut as Clone>::clone ](document: &toml_edit::DocumentMut) -> toml_edit::DocumentMut;

/// `Clone` of `serde_json::Value` (derived there). Nothing is stated of the copy.
pub assume_specification[ <serde_json::Value as Clone>::clone ](value: &serde_json::Value) -> serde_json::Value;

/// Whether `toml_edit` reads a text as a TOML document.
pub uninterp spec fn toml_accepts(content: Seq<char>) -> bool;

/// The text that `toml_edit` writes back for the document it reads from a text.
pub uninterp spec fn toml_reprint(content: Seq<char>) -> Seq<char>;

/// The message (`Display`) of the error that `toml_edit` gives for a text it refuses.
pub uninterp spec fn toml_failure(content: Seq<char>) -> Seq<char>;

/// The message (`Display`) of a `toml_edit` error.
pub uninterp spec fn toml_error_message(error: toml_edit::TomlError) -> Seq<char>;

/// The text that `toml_edit` writes for a document (its `Display`).
pub uninterp spec fn toml_text(document: toml_edit::DocumentMut) -> Seq<char>;

/// Whether `serde_json` reads a text as a JSON value.
pub uninterp spec fn json_accepts(content: Seq<char>) -> bool;

/// The value that `serde_json` reads from a text it accepts.
pub uninterp spec fn json_value(content: Seq<char>) -> serde_json::Value;

/// The message (`Display`) of the error that `serde_json` gives for a text it refuses.
pub uninterp spec fn json_failure(content: Seq<char>) -> Seq<char>;

/// The message (`Display`) of a `serde_json` error.
pub uninterp spec fn json_error_message(error: serde_json::Error) -> Seq<char>;

/// The text that `serde_json::to_string_pretty` writes for a value.
pub uninterp spec fn json_pretty_text(value: serde_json::Value) -> Seq<char>;

/// `content.parse::<toml_edit::DocumentMut>()`. Trusted: it succeeds exactly on the texts that
/// [`toml_accepts`] names; the document it gives writes back as [`toml_reprint`] of the text
/// (its tables keep their order; the hash seeds inside them vary, so the document itself is
/// not named); the error it gives has the message [`toml_failure`] of the text.
#[verifier::external_body]
fn parse_toml(content: &str) -> (r: Result<toml_edit::DocumentMut, toml_edit::TomlError>)
    ensures
        r is Ok <==> toml_accepts(content@),
        r matches Ok(d) ==> toml_text(d) == toml_reprint(content@),
        r matches Err(e) ==> toml_error_message(e) == toml_failure(content@),
{
    content.parse::<toml_edit::DocumentMut>()
}

/// The message of a `toml_edit::TomlError` (its `Display`). Trusted: it is
/// [`toml_error_message`] of the error.
#[verifier::external_body]
fn toml_error_text(e: &toml_edit::TomlError) -> (r: String)
    ensures
        r@ == toml_error_message(*e),
{
    e.to_string()
}

/// The text of a `toml_edit::DocumentMut` (its `Display`). Trusted: it is [`toml_text`] of the
/// document.
#[verifier::external_body]
fn render_toml(document: &toml_edit::DocumentMut) -> (r: String)
    ensures
        r@ == toml_text(*document),
{
    document.to_string()
}

/// `serde_json::from_str::<serde_json::Value>`. Trusted: it succeeds exactly on the texts that
/// [`json_accepts`] names; the value it gives is [`json_value`] of the text, and the error it
/// gives has the message [`json_failure`] of the text.
#[verifier::external_body]
fn parse_json(content: &str) -> (r: Result<serde_json::Value, serde_json::Error>)
    ensures
        r is Ok <==> json_accepts(content@),
        r matches Ok(v) ==> v == json_value(content@),
        r matches Err(e) ==> json_error_message(e) == json_failure(content@),
{
    serde_json::from_str::<serde_json::Value>(content)
}

/// The message of a `serde_json::Error` (its `Display`). Trusted: it is [`json_error_message`]
/// of the error.
#[verifier::external_body]
fn json_error_text(e: &serde_json::Error) -> (r: String)
    ensures
        r@ == json_error_message(*e),
{
    e.to_string()
}

/// `serde_json::to_string_pretty` of a value. Trusted: a `Value` (string keys only) always
/// serializes, and the text is [`json_pretty_text`] of the value.
#[verifier::external_body]
fn render_json_pretty(value: &serde_json::Value) -> (r: Result<String, serde_json::Error>)
    ensures
        r is Ok,
        r matches Ok(s) ==> s@ == json_pretty_text(*value),
{
    serde_json::to_string_pretty(value)
}

/// A TOML document, edited through `toml_edit`.
#[derive(Debug, Clone)]
pub struct TomlDocument {
    inner: toml_edit::DocumentMut,
}

impl TomlDocument {
    /// The held `toml_edit` document.
    pub closed spec fn document(&self) -> toml_edit::DocumentMut {
        self.inner
    }

    pub fn inner(&self) -> (r: &toml_edit::DocumentMut)
        ensures
            *r == self.document(),
    {
        &self.inner
    }

    pub fn inner_mut(&mut self) -> (r: &mut toml_edit::DocumentMut)
        ensures
            *r == old(self).document(),
            final(self).document() == *final(r),
    {
        &mut self.inner
    }
}

/// A JSON document, held as a `serde_json` value.
#[derive(Debug, Clone, PartialEq, Eq)]
pub struct JsonDocument {
    value: serde_json::Value,
}

impl JsonDocument {
    /// The held `serde_json` value.
    pub closed spec fn json(&self) -> serde_json::Value {
        self.value
    }

    pub fn value(&self) -> (r: &serde_json::Value)
        ensures
            *r == self.json(),
    {
        &self.value
    }

    pub fn value_mut(&mut self) -> (r: &mut serde_json::Value)
        ensures
            *r == old(self).json(),
            final(self).json() == *final(r),
    {
        &mut self.value
    }
}

/// A configuration document of any supported format.
#[derive(Debug, Clone)]
pub enum ConfigDocument {
    Yaml(YamlDocument),
    Toml(TomlDocument),
    Json(JsonDocument),
    Properties(PropertiesDocument),
    Text(TextDocument),
}

/// Reads the text of a configuration file in the given format.
pub fn read_config_document(format: ConfigFormat, content: &str) -> (r: Result<ConfigDocument, ConfigIoError>)
    ensures
        match format {
            ConfigFormat::Yaml => r matches Ok(ConfigDocument::Yaml(d)) && d@ == content@,
            ConfigFormat::Text => r matches Ok(ConfigDocument::Text(d)) && d@ == content@,
            ConfigFormat::Properties => r matches Ok(ConfigDocument::Properties(d)) && d@
                == parse_properties(content@),
            ConfigFormat::Toml => (toml_accepts(content@) ==> (r matches Ok(ConfigDocument::Toml(d)) && toml_text(
                d.document(),
            ) == toml_reprint(content@))) && (!toml_accepts(content@) ==> (r matches Err(
                ConfigIoError::ParseFailed(m),
            ) && m@ == toml_failure(content@))),
            ConfigFormat::Json => (json_accepts(content@) ==> (r matches Ok(ConfigDocument::Json(d)) && d.json()
                == json_value(content@))) && (!json_accepts(content@) ==> (r matches Err(
                ConfigIoError::ParseFailed(m),
            ) && m@ == json_failure(content@))),
        },
{
    match format {
        ConfigFormat::Yaml => Ok(ConfigDocument::Yaml(YamlDocument::new(content))),
        ConfigFormat::Toml => match parse_toml(content) {
            Ok(document) => Ok(ConfigDocument::Toml(TomlDocument { inner: document })),
            Err(e) => Err(ConfigIoError::ParseFailed(toml_error_text(&e))),
        },
        ConfigFormat::Json => match parse_json(content) {
            Ok(value) => Ok(ConfigDocument::Json(JsonDocument { value })),
            Err(e) => Err(ConfigIoError::ParseFailed(json_error_text(&e))),
        },
        ConfigFormat::Properties => Ok(ConfigDocument::Properties(PropertiesDocument::parse(content))),
        ConfigFormat::Text => Ok(ConfigDocument::Text(TextDocument::new(content))),
    }
}

/// The text of a configuration document.
pub fn write_config_document(document: &ConfigDocument) -> (r: Result<String, ConfigIoError>)
    ensures
        match document {
            ConfigDocument::Yaml(d) => r matches Ok(s) && s@ == d@,
            ConfigDocument::Text(d) => r matches Ok(s) && s@ == d@,
            ConfigDocument::Properties(d) => r matches Ok(s) && s@ == render_lines(d@),
            ConfigDocument::Toml(d) => r matches Ok(s) && s@ == toml_text(d.document()),
            ConfigDocument::Json(d) => r matches Ok(s) && s@ == json_pretty_text(d.json()),
        },
{
    match document {
        ConfigDocument::Yaml(d) => Ok(owned(d.raw())),
        ConfigDocument::Toml(d) => Ok(render_toml(&d.inner)),
        ConfigDocument::Json(d) => match render_json_pretty(&d.value) {
            Ok(s) => Ok(s),
            Err(e) => Err(ConfigIoError::WriteFailed(json_error_text(&e))),
        },
        ConfigDocument::Properties(d) => Ok(d.render()),
        ConfigDocument::Text(d) => Ok(owned(d.raw())),
    }
}

/// The text of one line, without its line end.
pub open spec fn line_text(l: LineView) -> Seq<char> {
    match l {
        LineView::Blank => seq![],
        LineView::Comment(s) => s,
        LineView::Raw(s) => s,
        LineView::Entry(k, sep, v) => k.push(sep) + v,
    }
}

pub open spec fn line_texts(ls: Seq<LineView>) -> Seq<Seq<char>> {
    ls.map_values(|l: LineView| line_text(l))
}

/// A line that `str::lines` gives back as it is: no `\n` in it and no `\r` at its end.
pub open spec fn plain_line(s: Seq<char>) -> bool {
    &&& forall|j: int| 0 <= j < s.len() ==> s[j] != '\n'
    &&& (s.len() > 0 ==> s.last() != '\r')
}

proof fn lemma_render_line_text(l: LineView)
    ensures
        render_line(l) == line_text(l).push('\n'),
{
    match l {
        LineView::Blank => {
            assert(seq!['\n'] =~= Seq::<char>::empty().push('\n'));
        },
        _ => {},
    }
}

/// A line with a `=` or `:` at `k` has a first one.
proof fn lemma_first_separator_exists(x: Seq<char>, k: int)
    requires
        0 <= k < x.len(),
        x[k] == '=' || x[k] == ':',
    ensures
        exists|i: int|
            0 <= i < x.len() && (x[i] == '=' || x[i] == ':') && forall|j: int|
                0 <= j < i ==> x[j] != '=' && x[j] != ':',
    decreases k,
{
    if exists|j: int| 0 <= j < k && (x[j] == '=' || x[j] == ':') {
        let j = choose|j: int| 0 <= j < k && (x[j] == '=' || x[j] == ':');
        lemma_first_separator_exists(x, j);
    } else {
        assert(0 <= k < x.len() && (x[k] == '=' || x[k] == ':') && forall|j: int|
            0 <= j < k ==> x[j] != '=' && x[j] != ':');
    }
}

/// The first separator of a line that has one, with nothing but other characters before it.
proof fn lemma_first_separator_is(x: Seq<char>, k: int)
    requires
        0 <= k < x.len(),
        x[k] == '=' || x[k] == ':',
        forall|j: int| 0 <= j < k ==> x[j] != '=' && x[j] != ':',
    ensures
        first_separator(x) == Some(k),
{
    lemma_first_separator_exists(x, k);
    let c = choose|i: int|
        0 <= i < x.len() && (x[i] == '=' || x[i] == ':') && forall|j: int|
            0 <= j < i ==> x[j] != '=' && x[j] != ':';
    if c < k {
        assert(x[c] != '=' && x[c] != ':');
    } else if c > k {
        assert(x[k] != '=' && x[k] != ':');
    }
}

/// A line written out from what it was read as is read as the same thing again.
proof fn lemma_reread_line(x: Seq<char>)
    requires
        plain_line(x),
    ensures
        plain_line(line_text(parse_line(x))),
        parse_line(line_text(parse_line(x))) == parse_line(x),
{
    let (a, b) = lemma_trim_shape(x);
    let tx = trim(x);
    if tx.len() == 0 {
        let e = Seq::<char>::empty();
        let (a0, b0) = lemma_trim_shape(e);
        assert(trim(e).len() == 0);
    } else if tx[0] == '#' || tx[0] == '!' {
    } else if let Some(i) = first_separator(x) {
        lemma_first_separator_exists(x, choose|k: int| 0 <= k < x.len() && (x[k] == '=' || x[k] == ':'));
        assert(0 <= i < x.len() && (x[i] == '=' || x[i] == ':') && forall|j: int|
            0 <= j < i ==> x[j] != '=' && x[j] != ':');
        let y = x.subrange(0, i);
        let (a1, b1) = lemma_trim_shape(y);
        let k = trim(y);
        let sep = x[i];
        let v = x.subrange(i + 1, x.len() as int);
        let text = k.push(sep) + v;
        let m = k.len() as int;
        assert(parse_line(x) == LineView::Entry(k, sep, v));
        assert(line_text(parse_line(x)) == text);
        assert forall|j: int| 0 <= j < m implies #[trigger] text[j] == x[a1 + j] && a1 + j < i by {
            assert(text[j] == k[j]);
            assert(k[j] == y[a1 + j]);
        }
        assert(text[m] == sep);
        assert forall|j: int| m < j < text.len() implies #[trigger] text[j] == x[i + j - m] by {
            assert(text[j] == v[j - m - 1]);
        }
        // the text is plain
        assert forall|j: int| 0 <= j < text.len() implies text[j] != '\n' by {
            if j < m {
                assert(text[j] == x[a1 + j]);
            } else if j > m {
                assert(text[j] == x[i + j - m]);
            }
        }
        if v.len() > 0 {
            assert(text.last() == x.last());
        } else {
            assert(text.last() == sep);
        }
        // its key holds no separator, so the separator after it comes first
        assert forall|j: int| 0 <= j < m implies text[j] != '=' && text[j] != ':' by {
            assert(text[j] == x[a1 + j]);
        }
        lemma_first_separator_is(text, m);
        assert(text.subrange(0, m) =~= k);
        assert(text.subrange(m + 1, text.len() as int) =~= v);
        lemma_trim_idempotent(y);
        // the text starts with its key (or the separator), which is neither blank nor a comment mark
        if m > 0 {
            assert(k[0] == y[a1]);
            assert(y[a1] == x[a1]);
            assert(!is_ws(x[a1]));
            if a1 < a {
                assert(is_ws(x[a1]));
            } else if a < a1 {
                assert(y[a] == x[a]);
                assert(is_ws(y[a]));
                assert(!is_ws(x[a]));
            }
            assert(tx[0] == x[a]);
            assert(text[0] == tx[0]);
        } else {
            assert(text[0] == sep);
        }
        assert(!is_ws(text[0]));
        let (a2, b2) = lemma_trim_shape(text);
        if a2 > 0 {
            assert(is_ws(text[0]));
        }
        if b2 <= m {
            assert(is_ws(text[m]));
        }
        assert(trim(text)[0] == text[0]);
    }
}

/// Splitting written lines at `\n` gives their texts and an empty piece after the last line end.
proof fn lemma_split_rendered(ls: Seq<LineView>)
    requires
        forall|i: int| 0 <= i < ls.len() ==> plain_line(#[trigger] line_text(ls[i])),
    ensures
        split(render_lines(ls), '\n') == line_texts(ls).push(seq![]),
    decreases ls.len(),
{
    if ls.len() == 0 {
        assert(line_texts(ls) =~= Seq::<Seq<char>>::empty());
        assert(split(render_lines(ls), '\n') == seq![Seq::<char>::empty()]);
        assert(line_texts(ls).push(seq![]) =~= seq![Seq::<char>::empty()]);
    } else {
        let pre = ls.drop_last();
        assert forall|i: int| 0 <= i < pre.len() implies plain_line(#[trigger] line_text(pre[i])) by {
            assert(pre[i] == ls[i]);
            assert(plain_line(line_text(ls[i])));
        }
        lemma_split_rendered(pre);
        let r = render_lines(pre);
        let t = line_text(ls.last());
        assert(plain_line(line_text(ls[ls.len() - 1])));
        lemma_render_line_text(ls.last());
        assert(render_lines(ls) == r + render_line(ls.last()));
        lemma_split_append_piece(r, t, '\n');
        let q = (r + t).push('\n');
        assert(render_lines(ls) =~= q);
        assert(q.drop_last() =~= r + t);
        assert(split(q, '\n') == split(r + t, '\n').push(seq![]));
        let pp = line_texts(pre).push(seq![]);
        assert(pp.last() + t =~= t);
        assert(pp.update(pp.len() - 1, pp.last() + t) =~= line_texts(pre).push(t));
        assert(line_texts(pre).push(t) =~= line_texts(ls));
    }
}

/// The lines of written lines are their texts.
proof fn lemma_lines_of_rendered(ls: Seq<LineView>)
    requires
        forall|i: int| 0 <= i < ls.len() ==> plain_line(#[trigger] line_text(ls[i])),
    ensures
        lines(render_lines(ls)) == line_texts(ls),
{
    lemma_split_rendered(ls);
    let p = split(render_lines(ls), '\n');
    assert(p.last().len() == 0);
    assert(p.drop_last() =~= line_texts(ls));
    assert forall|i: int| 0 <= i < ls.len() implies #[trigger] lines(render_lines(ls))[i] == line_texts(ls)[i] by {
        assert(plain_line(line_text(ls[i])));
        assert(line_texts(ls)[i] == line_text(ls[i]));
    }
    assert(lines(render_lines(ls)) =~= line_texts(ls));
}

/// Writing a `.properties` text that was read and reading it again gives the same lines, as
/// long as no line keeps a `\r` at its end (which `str::lines` leaves only on an unterminated
/// last line).
pub proof fn lemma_render_then_parse(content: Seq<char>)
    requires
        forall|i: int|
            0 <= i < lines(content).len() && #[trigger] lines(content)[i].len() > 0 ==> lines(content)[i].last()
                != '\r',
    ensures
        parse_properties(render_lines(parse_properties(content))) == parse_properties(content),
{
    let xs = lines(content);
    let ls = parse_properties(content);
    lemma_lines_lack_newline(content);
    assert forall|i: int| 0 <= i < ls.len() implies plain_line(#[trigger] line_text(ls[i])) && parse_line(
        line_text(ls[i]),
    ) == ls[i] by {
        assert(ls[i] == parse_line(xs[i]));
        assert forall|j: int| 0 <= j < xs[i].len() implies xs[i][j] != '\n' by {
            assert(lines(content)[i][j] != '\n');
        }
        if xs[i].len() > 0 {
            assert(lines(content)[i].len() > 0);
        }
        lemma_reread_line(xs[i]);
    }
    lemma_lines_of_rendered(ls);
    assert(parse_properties(render_lines(ls)) =~= ls);
}

/// Setting a key keeps every other line where it was (comments, blank lines, raw lines and
/// other entries), and adds at most one line.
pub proof fn lemma_set_keeps_other_lines(ls: Seq<LineView>, key: Seq<char>, value: Seq<char>)
    ensures
        prop_set(ls, key, value).len() == ls.len() || prop_set(ls, key, value).len() == ls.len() + 1,
        forall|i: int| 0 <= i < ls.len() && !has_key(ls[i], key) ==> #[trigger] prop_set(ls, key, value)[i] == ls[i],
    decreases ls.len(),
{
    if ls.len() > 0 {
        lemma_set_keeps_other_lines(ls.drop_first(), key, value);
        let r = prop_set(ls, key, value);
        match ls[0] {
            LineView::Entry(k, s, _) => {
                if k == key {
                    assert forall|i: int| 0 <= i < ls.len() && !has_key(ls[i], key) implies #[trigger] r[i] == ls[i] by {
                        assert(i != 0);
                    }
                } else {
                    assert forall|i: int| 0 <= i < ls.len() && !has_key(ls[i], key) implies #[trigger] r[i] == ls[i] by {
                        if i > 0 {
                            assert(r[i] == prop_set(ls.drop_first(), key, value)[i - 1]);
                            assert(ls.drop_first()[i - 1] == ls[i]);
                        }
                    }
                }
            },
            _ => {
                assert forall|i: int| 0 <= i < ls.len() && !has_key(ls[i], key) implies #[trigger] r[i] == ls[i] by {
                    if i > 0 {
                        assert(r[i] == prop_set(ls.drop_first(), key, value)[i - 1]);
                        assert(ls.drop_first()[i - 1] == ls[i]);
                    }
                }
            },
        }
    }
}

} // verus!
