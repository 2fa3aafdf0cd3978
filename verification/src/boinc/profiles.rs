//! Preset runtime profiles for common BOINC onboarding flows.
//!
//! A preset profile bundles which projects to attach and the desired
//! CPU/network/GPU run modes. Profiles are persisted as a small `key = value`
//! text format; `#` starts a comment. Unknown keys are rejected so typos do
//! not silently disable a preference, and every invalid input yields a
//! [`ProfileError`] with a reason.
use vstd::prelude::*;

use crate::boinc::models::RunMode;
use crate::error::io_error_text;
use crate::boinc::templates::{
    looks_like_url, resolve_spec, resolve_template, validate_url_spec, TemplateError, TemplateErrorView,
};
use crate::text::{
    cat, decimal, decimal_string, string_of, ascii_lower, is_ws, lemma_find_char_is, lemma_find_char_none, lemma_trim_ends, lemma_trim_noop,
    lemma_trim_no_ws, lemma_trim_padded, starts_with, chars_eq, debug_quoted, debug_str, find_char_exec, find_char_from, from_chars, lemma_find_char_props,
    lower, lower_exec, slice_of, split_once, split_once_exec, to_chars, trim, trim_chars,
};

verus! {

/// A single attach request within a profile.
#[derive(Debug, Clone, PartialEq, Eq)]
pub struct AttachEntry {
    /// Canonical master URL (already resolved from a slug if applicable).
    pub url: String,
    /// Project authenticator / account key.
    pub account_key: String,
}

/// A persistent preset the user can re-apply at startup.
#[derive(Debug, Clone, PartialEq, Eq)]
pub struct PresetProfile {
    /// User-chosen label, e.g. `desktop-workstation`.
    pub name: String,
    /// Optional CPU run-mode override applied after attach.
    pub run_mode: Option<RunMode>,
    /// Optional network activity mode override.
    pub network_mode: Option<RunMode>,
    /// Optional GPU run-mode override.
    pub gpu_mode: Option<RunMode>,
    /// Ordered list of projects to attach.
    pub attach: Vec<AttachEntry>,
}

/// The mathematical content of a [`PresetProfile`]: attach entries are
/// `(url, account_key)` pairs.
#[verifier::ext_equal]
pub struct ProfileView {
    pub name: Seq<char>,
    pub run_mode: Option<RunMode>,
    pub network_mode: Option<RunMode>,
    pub gpu_mode: Option<RunMode>,
    pub attach: Seq<(Seq<char>, Seq<char>)>,
}

impl View for AttachEntry {
    type V = (Seq<char>, Seq<char>);

    open spec fn view(&self) -> (Seq<char>, Seq<char>) {
        (self.url@, self.account_key@)
    }
}

impl View for PresetProfile {
    type V = ProfileView;

    open spec fn view(&self) -> ProfileView {
        ProfileView {
            name: self.name@,
            run_mode: self.run_mode,
            network_mode: self.network_mode,
            gpu_mode: self.gpu_mode,
            attach: self.attach@.map_values(|e: AttachEntry| e@),
        }
    }
}

/// Errors reported when loading or validating a profile.
#[derive(Debug)]
#[allow(inconsistent_fields)]
pub enum ProfileError {
    /// Profile name was missing or empty after trimming.
    MissingName,
    /// Profile name contained characters outside ASCII letters, digits, `-`, `_`.
    InvalidName(String),
    /// A line could not be parsed as `key = value` (1-based line, raw text).
    MalformedLine { line: usize, raw: String },
    /// Key was recognized but value was invalid for that key.
    InvalidValue { line: usize, key: String, reason: String },
    /// Attach entry was missing either the project reference or account key.
    MalformedAttach { line: usize },
    /// Attach entry referenced a template slug / URL that could not be resolved.
    UnknownTemplate { line: usize, source: TemplateError },
    /// An unknown configuration key was supplied (lower-cased).
    UnknownKey { line: usize, key: String },
    /// The profile parsed, but had neither attach entries nor mode overrides.
    EmptyProfile(String),
    /// I/O failure while reading or writing a profile file.
    Io { path: String, source: std::io::Error },
}

/// The mathematical content of a [`ProfileError`] (the I/O error itself is
/// opaque and left out).
pub enum ProfileErrorView {
    MissingName,
    InvalidName(Seq<char>),
    MalformedLine { line: nat, raw: Seq<char> },
    InvalidValue { line: nat, key: Seq<char>, reason: Seq<char> },
    MalformedAttach { line: nat },
    UnknownTemplate { line: nat, source: TemplateErrorView },
    UnknownKey { line: nat, key: Seq<char> },
    EmptyProfile(Seq<char>),
    Io { path: Seq<char> },
}

impl View for ProfileError {
    type V = ProfileErrorView;

    open spec fn view(&self) -> ProfileErrorView {
        match self {
            ProfileError::MissingName => ProfileErrorView::MissingName,
            ProfileError::InvalidName(n) => ProfileErrorView::InvalidName(n@),
            ProfileError::MalformedLine { line, raw } => ProfileErrorView::MalformedLine {
                line: *line as nat,
                raw: raw@,
            },
            ProfileError::InvalidValue { line, key, reason } => ProfileErrorView::InvalidValue {
                line: *line as nat,
                key: key@,
                reason: reason@,
            },
            ProfileError::MalformedAttach { line } => ProfileErrorView::MalformedAttach {
                line: *line as nat,
            },
            ProfileError::UnknownTemplate { line, source } => ProfileErrorView::UnknownTemplate {
                line: *line as nat,
                source: source@,
            },
            ProfileError::UnknownKey { line, key } => ProfileErrorView::UnknownKey {
                line: *line as nat,
                key: key@,
            },
            ProfileError::EmptyProfile(n) => ProfileErrorView::EmptyProfile(n@),
            ProfileError::Io { path, .. } => ProfileErrorView::Io { path: path@ },
        }
    }
}

// ---------------------------------------------------------------------------
// Specification of the text format
// ---------------------------------------------------------------------------

/// A character allowed in a profile name.
pub open spec fn is_name_char(c: char) -> bool {
    ('a' <= c && c <= 'z') || ('A' <= c && c <= 'Z') || ('0' <= c && c <= '9') || c == '-' || c
        == '_'
}

/// A profile name as the parser stores it: non-empty, name characters only.
pub open spec fn valid_name(n: Seq<char>) -> bool {
    n.len() > 0 && forall|k: int| 0 <= k < n.len() ==> is_name_char(#[trigger] n[k])
}

/// What `validate_profile_name` decides: the trimmed name must be non-empty
/// and made of ASCII letters, digits, `-` and `_`.
pub open spec fn check_name(name: Seq<char>) -> Result<(), ProfileErrorView> {
    let t = trim(name);
    if t.len() == 0 {
        Err(ProfileErrorView::MissingName)
    } else if !valid_name(t) {
        Err(ProfileErrorView::InvalidName(t))
    } else {
        Ok(())
    }
}

/// `line` with everything from the first `#` removed.
pub open spec fn strip_comment(line: Seq<char>) -> Seq<char> {
    match find_char_from(line, '#', 0) {
        Some(i) => line.take(i),
        None => line,
    }
}

/// What `parse_run_mode` returns for a value on line `line` under `key`.
pub open spec fn run_mode_spec(value: Seq<char>, line: nat, key: Seq<char>) -> Result<
    RunMode,
    ProfileErrorView,
> {
    let v = lower(value);
    if v == "always"@ {
        Ok(RunMode::Always)
    } else if v == "auto"@ {
        Ok(RunMode::Auto)
    } else if v == "never"@ {
        Ok(RunMode::Never)
    } else {
        Err(
            ProfileErrorView::InvalidValue {
                line,
                key,
                reason: "expected always|auto|never, got "@ + debug_str(v),
            },
        )
    }
}

/// What `parse_attach` returns for an `attach = ...` value on line `line`.
pub open spec fn attach_spec(value: Seq<char>, line: nat) -> Result<
    (Seq<char>, Seq<char>),
    ProfileErrorView,
> {
    match split_once(value, '|') {
        None => Err(ProfileErrorView::MalformedAttach { line }),
        Some((l, r)) => {
            let su = trim(l);
            let k = trim(r);
            if su.len() == 0 || k.len() == 0 {
                Err(ProfileErrorView::MalformedAttach { line })
            } else {
                match resolve_spec(su) {
                    Ok(url) => Ok((url, k)),
                    Err(e) => Err(ProfileErrorView::UnknownTemplate { line, source: e }),
                }
            }
        },
    }
}

/// The profile before any line has been read.
pub open spec fn empty_profile() -> ProfileView {
    ProfileView {
        name: Seq::empty(),
        run_mode: None,
        network_mode: None,
        gpu_mode: None,
        attach: Seq::empty(),
    }
}

/// The effect of one raw line (1-based number `line_no`) on the profile read so far.
pub open spec fn profile_step(acc: ProfileView, line_no: nat, raw: Seq<char>) -> Result<
    ProfileView,
    ProfileErrorView,
> {
    let line = trim(strip_comment(raw));
    if line.len() == 0 {
        Ok(acc)
    } else {
        match split_once(line, '=') {
            None => Err(ProfileErrorView::MalformedLine { line: line_no, raw }),
            Some((k, v)) => {
                let key = lower(trim(k));
                let value = trim(v);
                if key == "name"@ {
                    match check_name(value) {
                        Ok(_) => Ok(ProfileView { name: value, ..acc }),
                        Err(e) => Err(e),
                    }
                } else if key == "run_mode"@ {
                    match run_mode_spec(value, line_no, key) {
                        Ok(m) => Ok(ProfileView { run_mode: Some(m), ..acc }),
                        Err(e) => Err(e),
                    }
                } else if key == "network_mode"@ {
                    match run_mode_spec(value, line_no, key) {
                        Ok(m) => Ok(ProfileView { network_mode: Some(m), ..acc }),
                        Err(e) => Err(e),
                    }
                } else if key == "gpu_mode"@ {
                    match run_mode_spec(value, line_no, key) {
                        Ok(m) => Ok(ProfileView { gpu_mode: Some(m), ..acc }),
                        Err(e) => Err(e),
                    }
                } else if key == "attach"@ {
                    match attach_spec(value, line_no) {
                        Ok(e) => Ok(ProfileView { attach: acc.attach.push(e), ..acc }),
                        Err(e) => Err(e),
                    }
                } else {
                    Err(ProfileErrorView::UnknownKey { line: line_no, key })
                }
            }
        }
    }
}

/// The lines of `t` as `str::lines` yields them: split at `\n`, a `\r`
/// right before a `\n` dropped, no empty line after a final `\n`.
pub open spec fn lines(t: Seq<char>) -> Seq<Seq<char>>
    decreases t.len(),
{
    if t.len() == 0 {
        Seq::empty()
    } else {
        match find_char_from(t, '\n', 0) {
            None => seq![t],
            Some(i) => {
                if 0 <= i < t.len() {
                    seq![strip_cr(t.take(i))] + lines(t.skip(i + 1))
                } else {
                    Seq::empty()
                }
            }
        }
    }
}

/// `l` without one trailing `\r`.
pub open spec fn strip_cr(l: Seq<char>) -> Seq<char> {
    if l.len() > 0 && l.last() == '\r' {
        l.drop_last()
    } else {
        l
    }
}

/// Applies the lines `ls` in order; `n` lines have been read before them.
pub open spec fn fold_lines(ls: Seq<Seq<char>>, n: nat, acc: ProfileView) -> Result<
    ProfileView,
    ProfileErrorView,
>
    decreases ls.len(),
{
    if ls.len() == 0 {
        Ok(acc)
    } else {
        match profile_step(acc, n + 1, ls[0]) {
            Ok(a) => fold_lines(ls.drop_first(), n + 1, a),
            Err(e) => Err(e),
        }
    }
}

/// What `parse_profile` returns for `text`.
pub open spec fn parse_profile_spec(text: Seq<char>) -> Result<ProfileView, ProfileErrorView> {
    match fold_lines(lines(text), 0, empty_profile()) {
        Err(e) => Err(e),
        Ok(p) => {
            if p.name.len() == 0 {
                Err(ProfileErrorView::MissingName)
            } else if p.attach.len() == 0 && p.run_mode is None && p.network_mode is None
                && p.gpu_mode is None {
                Err(ProfileErrorView::EmptyProfile(p.name))
            } else {
                Ok(p)
            }
        },
    }
}

// ---------------------------------------------------------------------------
// Parser
// ---------------------------------------------------------------------------

/// Validates a profile name against the accepted character set: non-empty
/// after trimming, ASCII letters, digits, `-` and `_` only.
fn validate_profile_name(name: &[char]) -> (r: Result<(), ProfileError>)
    ensures
        match check_name(name@) {
            Ok(_) => r is Ok,
            Err(e) => r matches Err(x) && x@ == e,
        },
{
    let t = trim_chars(name);
    if t.len() == 0 {
        return Err(ProfileError::MissingName);
    }
    let mut i: usize = 0;
    while i < t.len()
        invariant
            i <= t@.len(),
            t@ == trim(name@),
            t@.len() > 0,
            forall|k: int| 0 <= k < i ==> is_name_char(#[trigger] t@[k]),
        decreases t@.len() - i,
    {
        let c = t[i];
        let ok = ('a' <= c && c <= 'z') || ('A' <= c && c <= 'Z') || ('0' <= c && c <= '9') || c
            == '-' || c == '_';
        if !ok {
            assert(!is_name_char(t@[i as int]));
            return Err(ProfileError::InvalidName(from_chars(&t)));
        }
        i = i + 1;
    }
    Ok(())
}

/// Validates a profile name before it is saved (see [`check_name`]).
pub fn check_profile_name(name: &str) -> (r: Result<(), ProfileError>)
    ensures
        match check_name(name@) {
            Ok(_) => r is Ok,
            Err(e) => r matches Err(x) && x@ == e,
        },
{
    validate_profile_name(&to_chars(name))
}

/// Parses a run-mode string (`always` / `auto` / `never`) case-insensitively.
fn parse_run_mode(value: &[char], line: usize, key: &[char]) -> (r: Result<RunMode, ProfileError>)
    ensures
        match run_mode_spec(value@, line as nat, key@) {
            Ok(m) => r == Ok::<RunMode, ProfileError>(m),
            Err(e) => r matches Err(x) && x@ == e,
        },
{
    let v = lower_exec(value);
    if chars_eq(&v, &to_chars("always")) {
        Ok(RunMode::Always)
    } else if chars_eq(&v, &to_chars("auto")) {
        Ok(RunMode::Auto)
    } else if chars_eq(&v, &to_chars("never")) {
        Ok(RunMode::Never)
    } else {
        let vs = from_chars(&v);
        let mut reason = String::from_str("expected always|auto|never, got ");
        let quoted = debug_quoted(vs.as_str());
        reason.append(quoted.as_str());
        Err(ProfileError::InvalidValue { line, key: from_chars(key), reason })
    }
}

/// Parses an `attach = slug_or_url|account_key` value into an [`AttachEntry`].
fn parse_attach(value: &[char], line: usize) -> (r: Result<AttachEntry, ProfileError>)
    ensures
        match attach_spec(value@, line as nat) {
            Ok(e) => r matches Ok(x) && x@ == e,
            Err(e) => r matches Err(x) && x@ == e,
        },
{
    let (left, right) = match split_once_exec(value, '|') {
        Some(p) => p,
        None => return Err(ProfileError::MalformedAttach { line }),
    };
    let su = trim_chars(&left);
    let k = trim_chars(&right);
    if su.len() == 0 || k.len() == 0 {
        return Err(ProfileError::MalformedAttach { line });
    }
    let sus = from_chars(&su);
    match resolve_template(sus.as_str()) {
        Ok(url) => Ok(AttachEntry { url, account_key: from_chars(&k) }),
        Err(e) => Err(ProfileError::UnknownTemplate { line, source: e }),
    }
}

/// Returns `line` with any trailing `# comment` removed.
fn strip_comment_exec(line: &[char]) -> (r: Vec<char>)
    ensures
        r@ == strip_comment(line@),
{
    match find_char_exec(line, '#', 0) {
        Some(i) => {
            proof {
                lemma_find_char_props(line@, '#', 0);
            }
            slice_of(line, 0, i)
        },
        None => slice_of(line, 0, line.len()),
    }
}

/// Applies one raw line to `acc`.
fn apply_line(acc: &mut PresetProfile, line_no: usize, raw: &[char]) -> (r: Result<(), ProfileError>)
    ensures
        match profile_step(old(acc)@, line_no as nat, raw@) {
            Ok(p) => r is Ok && final(acc)@ == p,
            Err(e) => r matches Err(x) && x@ == e,
        },
{
    let stripped = strip_comment_exec(raw);
    let line = trim_chars(&stripped);
    if line.len() == 0 {
        return Ok(());
    }
    let (k, v) = match split_once_exec(&line, '=') {
        Some(p) => p,
        None => return Err(ProfileError::MalformedLine { line: line_no, raw: from_chars(raw) }),
    };
    let tk = trim_chars(&k);
    let key = lower_exec(&tk);
    let value = trim_chars(&v);
    if chars_eq(&key, &to_chars("name")) {
        match validate_profile_name(&value) {
            Ok(()) => {
                acc.name = from_chars(&value);
                Ok(())
            },
            Err(e) => Err(e),
        }
    } else if chars_eq(&key, &to_chars("run_mode")) {
        match parse_run_mode(&value, line_no, &key) {
            Ok(m) => {
                acc.run_mode = Some(m);
                Ok(())
            },
            Err(e) => Err(e),
        }
    } else if chars_eq(&key, &to_chars("network_mode")) {
        match parse_run_mode(&value, line_no, &key) {
            Ok(m) => {
                acc.network_mode = Some(m);
                Ok(())
            },
            Err(e) => Err(e),
        }
    } else if chars_eq(&key, &to_chars("gpu_mode")) {
        match parse_run_mode(&value, line_no, &key) {
            Ok(m) => {
                acc.gpu_mode = Some(m);
                Ok(())
            },
            Err(e) => Err(e),
        }
    } else if chars_eq(&key, &to_chars("attach")) {
        match parse_attach(&value, line_no) {
            Ok(e) => {
                let ghost before = acc.attach@;
                acc.attach.push(e);
                proof {
                    assert(acc.attach@.map_values(|e: AttachEntry| e@) =~= before.map_values(
                        |e: AttachEntry| e@,
                    ).push(e@));
                }
                Ok(())
            },
            Err(e) => Err(e),
        }
    } else {
        Err(ProfileError::UnknownKey { line: line_no, key: from_chars(&key) })
    }
}

/// Searching `t` from `p` is searching its suffix `t.skip(p)` from 0, shifted.
pub proof fn lemma_find_char_skip(t: Seq<char>, c: char, p: int)
    requires
        0 <= p <= t.len(),
    ensures
        match find_char_from(t, c, p) {
            Some(k) => find_char_from(t.skip(p), c, 0) == Some(k - p),
            None => find_char_from(t.skip(p), c, 0) is None,
        },
{
    lemma_find_char_props(t, c, p);
    match find_char_from(t, c, p) {
        Some(k) => {
            crate::text::lemma_find_char_is(t.skip(p), c, 0, k - p);
        },
        None => {
            crate::text::lemma_find_char_none(t.skip(p), c, 0);
        },
    }
}

/// Parses a preset profile from text.
///
/// Recognized keys: `name` (required, letters/digits/`-`/`_`); `run_mode`,
/// `network_mode`, `gpu_mode` (`always`, `auto` or `never`, any case);
/// `attach` (repeated, `slug_or_url|account_key`). Text from `#` to the end
/// of a line is a comment; blank lines are skipped; later `name` and mode
/// lines override earlier ones. A profile without a name, or with neither
/// attach entries nor mode overrides, is rejected.
pub fn parse_profile(text: &str) -> (r: Result<PresetProfile, ProfileError>)
    ensures
        match parse_profile_spec(text@) {
            Ok(p) => r matches Ok(x) && x@ == p,
            Err(e) => r matches Err(x) && x@ == e,
        },
{
    let t = to_chars(text);
    let mut acc = PresetProfile {
        name: String::new(),
        run_mode: None,
        network_mode: None,
        gpu_mode: None,
        attach: Vec::new(),
    };
    proof {
        assert(acc@ =~= empty_profile());
        assert(t@.skip(0) =~= t@);
    }
    let mut pos: usize = 0;
    let mut line_no: usize = 0;
    while pos < t.len()
        invariant
            line_no <= pos <= t@.len(),
            t@ == text@,
            fold_lines(lines(t@.skip(pos as int)), line_no as nat, acc@) == fold_lines(
                lines(t@),
                0,
                empty_profile(),
            ),
        decreases t@.len() - pos,
    {
        let ghost u = t@.skip(pos as int);
        proof {
            lemma_find_char_skip(t@, '\n', pos as int);
        }
        let (raw, next) = match find_char_exec(&t, '\n', pos) {
            Some(k) => {
                proof {
                    lemma_find_char_props(t@, '\n', pos as int);
                    assert(u.take(k - pos) =~= t@.subrange(pos as int, k as int));
                    assert(u.skip(k - pos + 1) =~= t@.skip(k + 1));
                }
                let body = slice_of(&t, pos, k);
                let n = body.len();
                let raw = if n > 0 && body[n - 1] == '\r' {
                    let r = slice_of(&body, 0, n - 1);
                    proof {
                        assert(r@ =~= body@.drop_last());
                    }
                    r
                } else {
                    body
                };
                (raw, k + 1)
            },
            None => {
                let n = t.len();
                proof {
                    assert(u =~= t@.subrange(pos as int, n as int));
                    assert(t@.skip(n as int) =~= Seq::<char>::empty());
                }
                (slice_of(&t, pos, n), n)
            },
        };
        proof {
            assert(lines(u) =~= seq![raw@] + lines(t@.skip(next as int)));
            assert((seq![raw@] + lines(t@.skip(next as int))).drop_first() =~= lines(
                t@.skip(next as int),
            ));
        }
        line_no = line_no + 1;
        match apply_line(&mut acc, line_no, &raw) {
            Ok(()) => {},
            Err(e) => return Err(e),
        }
        pos = next;
    }
    proof {
        assert(t@.skip(pos as int) =~= Seq::<char>::empty());
    }
    if acc.name.as_str().is_empty() {
        return Err(ProfileError::MissingName);
    }
    if acc.attach.len() == 0 && acc.run_mode.is_none() && acc.network_mode.is_none()
        && acc.gpu_mode.is_none() {
        return Err(ProfileError::EmptyProfile(acc.name));
    }
    Ok(acc)
}


// ---------------------------------------------------------------------------
// Construction and serialization
// ---------------------------------------------------------------------------

impl PresetProfile {
    /// Builds an empty profile with just a validated name; the name is stored
    /// as given.
    pub fn new(name: &str) -> (r: Result<Self, ProfileError>)
        ensures
            match check_name(name@) {
                Ok(_) => r matches Ok(p) && p@ == ProfileView { name: name@, ..empty_profile() },
                Err(e) => r matches Err(x) && x@ == e,
            },
    {
        let chars = to_chars(name);
        match validate_profile_name(&chars) {
            Ok(()) => {
                let p = PresetProfile {
                    name: String::from_str(name),
                    run_mode: None,
                    network_mode: None,
                    gpu_mode: None,
                    attach: Vec::new(),
                };
                proof {
                    assert(p@ =~= ProfileView { name: name@, ..empty_profile() });
                }
                Ok(p)
            },
            Err(e) => Err(e),
        }
    }

    /// Serializes the profile back to the `key = value` text format: a
    /// comment with the name, the name, each present mode, then one
    /// `attach = url|key` line per entry, every line ending in `\n`.
    pub fn to_text(&self) -> (r: String)
        ensures
            r@ == unlines(text_lines(self@)),
    {
        let ghost ls = text_lines(self@);
        let mut out = String::new();
        let ghost mut done: Seq<Seq<char>> = Seq::empty();
        let mut header = String::from_str("# boincrs profile: ");
        header.append(self.name.as_str());
        push_line(&mut out, header, Ghost(done));
        proof {
            done = done.push(header_line(self.name@));
        }
        let mut name_line = String::from_str("name = ");
        name_line.append(self.name.as_str());
        push_line(&mut out, name_line, Ghost(done));
        proof {
            done = done.push(name_line_of(self.name@));
            assert(done =~= seq![header_line(self.name@), name_line_of(self.name@)]);
        }
        if let Some(mode) = self.run_mode {
            let mut l = String::from_str("run_mode = ");
            l.append(mode.as_boinc_tag());
            push_line(&mut out, l, Ghost(done));
            proof {
                done = done.push(mode_line_of("run_mode = "@, mode));
            }
        }
        proof {
            assert(done =~= seq![header_line(self.name@), name_line_of(self.name@)] + opt_line(
                "run_mode = "@,
                self.run_mode,
            ));
        }
        if let Some(mode) = self.network_mode {
            let mut l = String::from_str("network_mode = ");
            l.append(mode.as_boinc_tag());
            push_line(&mut out, l, Ghost(done));
            proof {
                done = done.push(mode_line_of("network_mode = "@, mode));
            }
        }
        proof {
            assert(done =~= seq![header_line(self.name@), name_line_of(self.name@)] + opt_line(
                "run_mode = "@,
                self.run_mode,
            ) + opt_line("network_mode = "@, self.network_mode));
        }
        if let Some(mode) = self.gpu_mode {
            let mut l = String::from_str("gpu_mode = ");
            l.append(mode.as_boinc_tag());
            push_line(&mut out, l, Ghost(done));
            proof {
                done = done.push(mode_line_of("gpu_mode = "@, mode));
            }
        }
        let ghost head = done;
        proof {
            assert(head =~= seq![header_line(self.name@), name_line_of(self.name@)] + opt_line(
                "run_mode = "@,
                self.run_mode,
            ) + opt_line("network_mode = "@, self.network_mode) + opt_line(
                "gpu_mode = "@,
                self.gpu_mode,
            ));
        }
        let ghost entries = self@.attach;
        let mut i: usize = 0;
        while i < self.attach.len()
            invariant
                entries == self@.attach,
                entries.len() == self.attach@.len(),
                i <= self.attach@.len(),
                done == head + entries.take(i as int).map_values(|e: (Seq<char>, Seq<char>)| attach_line_of(e)),
                out@ == unlines(done),
            decreases self.attach@.len() - i,
        {
            let e = &self.attach[i];
            let mut l = String::from_str("attach = ");
            l.append(e.url.as_str());
            l.append("|");
            l.append(e.account_key.as_str());
            proof {
                assert(entries[i as int] == e@);
            }
            push_line(&mut out, l, Ghost(done));
            proof {
                done = done.push(attach_line_of(e@));
                assert(entries.take(i + 1).map_values(|e: (Seq<char>, Seq<char>)| attach_line_of(e))
                    =~= entries.take(i as int).map_values(|e: (Seq<char>, Seq<char>)| attach_line_of(e)).push(
                    attach_line_of(e@)));
            }
            i = i + 1;
        }
        proof {
            assert(entries.take(i as int) =~= entries);
        }
        out
    }
}

/// Appends `l` and a newline to `out`.
fn push_line(out: &mut String, l: String, Ghost(done): Ghost<Seq<Seq<char>>>)
    requires
        old(out)@ == unlines(done),
    ensures
        final(out)@ == unlines(done.push(l@)),
{
    proof {
        lemma_unlines_push(done, l@);
    }
    out.append(l.as_str());
    out.append("\n");
}

/// Each line followed by a newline, concatenated.
pub open spec fn unlines(ls: Seq<Seq<char>>) -> Seq<char>
    decreases ls.len(),
{
    if ls.len() == 0 {
        Seq::empty()
    } else {
        ls[0] + "\n"@ + unlines(ls.drop_first())
    }
}

pub proof fn lemma_unlines_push(ls: Seq<Seq<char>>, l: Seq<char>)
    ensures
        unlines(ls.push(l)) == unlines(ls) + l + "\n"@,
    decreases ls.len(),
{
    if ls.len() == 0 {
        let e = Seq::<Seq<char>>::empty();
        assert(ls.push(l).drop_first() =~= e);
        assert(unlines(e) == Seq::<char>::empty());
        assert(ls.push(l)[0] == l);
        assert(unlines(ls.push(l)) == l + "\n"@ + unlines(e));
        assert(unlines(ls.push(l)) =~= unlines(ls) + l + "\n"@);
    } else {
        lemma_unlines_push(ls.drop_first(), l);
        assert(ls.push(l).drop_first() =~= ls.drop_first().push(l));
        assert(ls.push(l)[0] == ls[0]);
        let a = ls[0] + "\n"@;
        assert(unlines(ls.push(l)) == a + unlines(ls.drop_first().push(l)));
        assert(unlines(ls.push(l)) == a + (unlines(ls.drop_first()) + l + "\n"@));
        assert(unlines(ls) == a + unlines(ls.drop_first()));
        assert(a + (unlines(ls.drop_first()) + l + "\n"@) =~= a + unlines(ls.drop_first()) + l
            + "\n"@);
    }
}

/// The comment line opening a serialized profile.
pub open spec fn header_line(name: Seq<char>) -> Seq<char> {
    "# boincrs profile: "@ + name
}

/// The `name = ...` line.
pub open spec fn name_line_of(name: Seq<char>) -> Seq<char> {
    "name = "@ + name
}

/// The `key = mode` line for a present mode; `key_eq` is the key followed by ` = `.
pub open spec fn mode_line_of(key_eq: Seq<char>, m: RunMode) -> Seq<char> {
    key_eq + m.tag()
}

/// The line for an optional mode: none when it is absent.
pub open spec fn opt_line(key_eq: Seq<char>, m: Option<RunMode>) -> Seq<Seq<char>> {
    match m {
        Some(x) => seq![mode_line_of(key_eq, x)],
        None => Seq::empty(),
    }
}

/// The `attach = url|key` line of an entry.
pub open spec fn attach_line_of(e: (Seq<char>, Seq<char>)) -> Seq<char> {
    "attach = "@ + e.0 + "|"@ + e.1
}

/// The lines `to_text` writes for `p`, without their newlines.
pub open spec fn text_lines(p: ProfileView) -> Seq<Seq<char>> {
    seq![header_line(p.name), name_line_of(p.name)] + opt_line("run_mode = "@, p.run_mode) + opt_line(
        "network_mode = "@,
        p.network_mode,
    ) + opt_line("gpu_mode = "@, p.gpu_mode) + p.attach.map_values(
        |e: (Seq<char>, Seq<char>)| attach_line_of(e),
    )
}


// ---------------------------------------------------------------------------
// Round trip: parsing what `to_text` writes gives the profile back
// ---------------------------------------------------------------------------

/// `c` does not occur in `s`.
pub open spec fn lacks(s: Seq<char>, c: char) -> bool {
    forall|k: int| 0 <= k < s.len() ==> #[trigger] s[k] != c
}

/// An attach entry that survives serialization: the URL is a trimmed,
/// valid master URL without `|`, `#` or newline; the key is non-empty,
/// trimmed, without `#` or newline.
pub open spec fn entry_round_trips(e: (Seq<char>, Seq<char>)) -> bool {
    &&& e.0 == trim(e.0)
    &&& looks_like_url(e.0)
    &&& validate_url_spec(e.0) is Ok
    &&& lacks(e.0, '|')
    &&& lacks(e.0, '#')
    &&& lacks(e.0, '\n')
    &&& e.1.len() > 0
    &&& e.1 == trim(e.1)
    &&& lacks(e.1, '#')
    &&& lacks(e.1, '\n')
}

/// A profile that `parse_profile` accepts back from its own text: a valid
/// stored name, at least one attach entry or mode, and entries that
/// survive serialization.
pub open spec fn profile_round_trips(p: ProfileView) -> bool {
    &&& valid_name(p.name)
    &&& (p.attach.len() > 0 || p.run_mode is Some || p.network_mode is Some || p.gpu_mode is Some)
    &&& forall|i: int| 0 <= i < p.attach.len() ==> entry_round_trips(#[trigger] p.attach[i])
}

/// A line that `lines` gives back unchanged: no newline, no final `\r`.
pub open spec fn line_ok(l: Seq<char>) -> bool {
    lacks(l, '\n') && (l.len() == 0 || l.last() != '\r')
}

/// Splitting the newline-terminated concatenation of `ls` gives `ls` back.
pub proof fn lemma_lines_unlines(ls: Seq<Seq<char>>)
    requires
        forall|i: int| 0 <= i < ls.len() ==> line_ok(#[trigger] ls[i]),
    ensures
        lines(unlines(ls)) == ls,
    decreases ls.len(),
{
    reveal_strlit("\n");
    if ls.len() == 0 {
        assert(unlines(ls).len() == 0);
        assert(lines(unlines(ls)) =~= ls);
    } else {
        let rest = ls.drop_first();
        assert forall|i: int| 0 <= i < rest.len() implies line_ok(#[trigger] rest[i]) by {
            assert(rest[i] == ls[i + 1]);
        }
        lemma_lines_unlines(rest);
        let l = ls[0];
        assert(line_ok(l));
        let t = unlines(ls);
        assert(t == l + "\n"@ + unlines(rest));
        assert(t[l.len() as int] == '\n');
        lemma_find_char_is(t, '\n', 0, l.len() as int);
        assert(t.take(l.len() as int) =~= l);
        assert(t.skip(l.len() as int + 1) =~= unlines(rest));
        assert(strip_cr(l) == l);
        assert(lines(t) =~= ls);
    }
}

/// Folding over a concatenation folds the first part, then the second.
pub proof fn lemma_fold_append(a: Seq<Seq<char>>, b: Seq<Seq<char>>, n: nat, acc: ProfileView)
    ensures
        fold_lines(a + b, n, acc) == match fold_lines(a, n, acc) {
            Ok(x) => fold_lines(b, n + a.len(), x),
            Err(e) => Err(e),
        },
    decreases a.len(),
{
    if a.len() == 0 {
        assert(a + b =~= b);
    } else {
        assert((a + b)[0] == a[0]);
        assert((a + b).drop_first() =~= a.drop_first() + b);
        match profile_step(acc, n + 1, a[0]) {
            Ok(x) => {
                lemma_fold_append(a.drop_first(), b, n + 1, x);
            },
            Err(_) => {},
        }
    }
}

/// A key as the parser compares it: lowercase letters and `_`.
pub open spec fn key_like(k: Seq<char>) -> bool {
    k.len() > 0 && forall|i: int| 0 <= i < k.len() ==> ('a' <= #[trigger] k[i] && k[i] <= 'z')
        || k[i] == '_'
}

/// How a `key = value` line is taken apart.
pub proof fn lemma_kv_line(key: Seq<char>, value: Seq<char>)
    requires
        key_like(key),
        value.len() > 0,
        !is_ws(value[0]),
        !is_ws(value.last()),
        lacks(value, '#'),
    ensures
        trim(strip_comment(key + " = "@ + value)) == key + " = "@ + value,
        split_once(key + " = "@ + value, '=') == Some((key + seq![' '], seq![' '] + value)),
        lower(trim(key + seq![' '])) == key,
        trim(seq![' '] + value) == value,
{
    reveal_strlit(" = ");
    let raw = key + " = "@ + value;
    let kl = key.len() as int;
    assert(raw.len() == kl + 3 + value.len());
    assert forall|j: int| 0 <= j < raw.len() implies raw[j] != '#' by {
        if j >= kl + 3 {
            assert(raw[j] == value[j - kl - 3]);
        }
    }
    lemma_find_char_none(raw, '#', 0);
    assert(strip_comment(raw) == raw);
    assert(raw[0] == key[0]);
    assert(raw.last() == value.last());
    lemma_trim_noop(raw);
    assert(raw[kl + 1] == '=');
    lemma_find_char_is(raw, '=', 0, kl + 1);
    assert(raw.take(kl + 1) =~= key + seq![' ']);
    assert(raw.skip(kl + 2) =~= seq![' '] + value);
    let e: Seq<char> = Seq::empty();
    assert(key + seq![' '] =~= e + key + seq![' ']);
    lemma_trim_padded(e, key, seq![' ']);
    assert(lower(key) =~= key);
    assert(seq![' '] + value =~= seq![' '] + value + e);
    lemma_trim_padded(seq![' '], value, e);
}

proof fn lemma_keys_distinct()
    ensures
        key_like("name"@),
        key_like("run_mode"@),
        key_like("network_mode"@),
        key_like("gpu_mode"@),
        key_like("attach"@),
        "name = "@ == "name"@ + " = "@,
        "run_mode = "@ == "run_mode"@ + " = "@,
        "network_mode = "@ == "network_mode"@ + " = "@,
        "gpu_mode = "@ == "gpu_mode"@ + " = "@,
        "attach = "@ == "attach"@ + " = "@,
        "run_mode"@ != "name"@,
        "network_mode"@ != "name"@,
        "network_mode"@ != "run_mode"@,
        "gpu_mode"@ != "name"@,
        "gpu_mode"@ != "run_mode"@,
        "gpu_mode"@ != "network_mode"@,
        "attach"@ != "name"@,
        "attach"@ != "run_mode"@,
        "attach"@ != "network_mode"@,
        "attach"@ != "gpu_mode"@,
{
    reveal_strlit("name");
    reveal_strlit("run_mode");
    reveal_strlit("network_mode");
    reveal_strlit("gpu_mode");
    reveal_strlit("attach");
    reveal_strlit("name = ");
    reveal_strlit("run_mode = ");
    reveal_strlit("network_mode = ");
    reveal_strlit("gpu_mode = ");
    reveal_strlit("attach = ");
    reveal_strlit(" = ");
    assert("name = "@ =~= "name"@ + " = "@);
    assert("run_mode = "@ =~= "run_mode"@ + " = "@);
    assert("network_mode = "@ =~= "network_mode"@ + " = "@);
    assert("gpu_mode = "@ =~= "gpu_mode"@ + " = "@);
    assert("attach = "@ =~= "attach"@ + " = "@);
    assert("run_mode"@[0] != "name"@[0]);
    assert("network_mode"@.len() != "name"@.len());
    assert("network_mode"@[0] != "run_mode"@[0]);
    assert("gpu_mode"@[0] != "name"@[0]);
    assert("gpu_mode"@[0] != "run_mode"@[0]);
    assert("gpu_mode"@[0] != "network_mode"@[0]);
    assert("attach"@[0] != "name"@[0]);
    assert("attach"@[0] != "run_mode"@[0]);
    assert("attach"@[0] != "network_mode"@[0]);
    assert("attach"@[0] != "gpu_mode"@[0]);
}

/// Facts about the mode tags: lowercase, distinct, and read back as their mode.
proof fn lemma_tag_facts(m: RunMode, n: nat, key: Seq<char>)
    ensures
        run_mode_spec(m.tag(), n, key) == Ok::<RunMode, ProfileErrorView>(m),
        m.tag().len() > 0,
        lacks(m.tag(), '#'),
        lacks(m.tag(), '\n'),
        !is_ws(m.tag()[0]),
        !is_ws(m.tag().last()),
        m.tag().last() != '\r',
{
    reveal_strlit("always");
    reveal_strlit("auto");
    reveal_strlit("never");
    let t = m.tag();
    assert(lower(t) =~= t);
    assert("auto"@ != "always"@) by {
        assert("auto"@.len() != "always"@.len());
    }
    assert("never"@ != "always"@) by {
        assert("never"@[0] != "always"@[0]);
    }
    assert("never"@ != "auto"@) by {
        assert("never"@[0] != "auto"@[0]);
    }
}

/// A name character is never whitespace, `#`, newline or carriage return.
proof fn lemma_name_chars(name: Seq<char>)
    requires
        valid_name(name),
    ensures
        forall|k: int| 0 <= k < name.len() ==> !is_ws(#[trigger] name[k]),
        lacks(name, '#'),
        lacks(name, '\n'),
        check_name(name) == Ok::<(), ProfileErrorView>(()),
        !is_ws(name[0]),
        !is_ws(name.last()),
{
    assert forall|k: int| 0 <= k < name.len() implies !is_ws(#[trigger] name[k]) by {
        assert(is_name_char(name[k]));
    }
    assert forall|k: int| 0 <= k < name.len() implies #[trigger] name[k] != '#' by {
        assert(is_name_char(name[k]));
    }
    assert forall|k: int| 0 <= k < name.len() implies #[trigger] name[k] != '\n' by {
        assert(is_name_char(name[k]));
    }
    lemma_trim_no_ws(name);
    assert(!is_ws(name[name.len() - 1]));
}

proof fn lemma_step_header(acc: ProfileView, n: nat, name: Seq<char>)
    ensures
        profile_step(acc, n, header_line(name)) == Ok::<ProfileView, ProfileErrorView>(acc),
{
    reveal_strlit("# boincrs profile: ");
    let h = header_line(name);
    assert(h[0] == '#');
    lemma_find_char_is(h, '#', 0, 0);
    assert(strip_comment(h) =~= Seq::<char>::empty());
    lemma_trim_noop(Seq::<char>::empty());
}

proof fn lemma_step_name(acc: ProfileView, n: nat, name: Seq<char>)
    requires
        valid_name(name),
    ensures
        profile_step(acc, n, name_line_of(name)) == Ok::<ProfileView, ProfileErrorView>(
            ProfileView { name, ..acc },
        ),
{
    lemma_keys_distinct();
    lemma_name_chars(name);
    lemma_kv_line("name"@, name);
}

proof fn lemma_step_mode(acc: ProfileView, n: nat, key: Seq<char>, key_eq: Seq<char>, m: RunMode)
    requires
        key == "run_mode"@ || key == "network_mode"@ || key == "gpu_mode"@,
        key_eq == key + " = "@,
    ensures
        profile_step(acc, n, mode_line_of(key_eq, m)) == Ok::<ProfileView, ProfileErrorView>(
            if key == "run_mode"@ {
                ProfileView { run_mode: Some(m), ..acc }
            } else if key == "network_mode"@ {
                ProfileView { network_mode: Some(m), ..acc }
            } else {
                ProfileView { gpu_mode: Some(m), ..acc }
            },
        ),
{
    lemma_keys_distinct();
    lemma_tag_facts(m, n, key);
    assert(mode_line_of(key_eq, m) == key + " = "@ + m.tag());
    lemma_kv_line(key, m.tag());
}

proof fn lemma_step_attach(acc: ProfileView, n: nat, e: (Seq<char>, Seq<char>))
    requires
        entry_round_trips(e),
    ensures
        profile_step(acc, n, attach_line_of(e)) == Ok::<ProfileView, ProfileErrorView>(
            ProfileView { attach: acc.attach.push(e), ..acc },
        ),
{
    reveal_strlit("|");
    reveal_strlit("http://");
    reveal_strlit("https://");
    lemma_keys_distinct();
    let (url, key) = e;
    let value = url + "|"@ + key;
    assert(url.len() >= 7) by {
        assert(starts_with(url, "http://"@) || starts_with(url, "https://"@));
    }
    lemma_trim_ends(url);
    lemma_trim_ends(key);
    assert(value[0] == url[0]);
    assert(value.last() == key.last());
    assert forall|j: int| 0 <= j < value.len() implies value[j] != '#' by {
        if j < url.len() {
            assert(value[j] == url[j]);
        } else if j > url.len() {
            assert(value[j] == key[j - url.len() - 1]);
        }
    }
    assert(attach_line_of(e) =~= "attach"@ + " = "@ + value);
    lemma_kv_line("attach"@, value);
    assert(value[url.len() as int] == '|');
    assert forall|j: int| 0 <= j < url.len() implies value[j] != '|' by {
        assert(value[j] == url[j]);
    }
    lemma_find_char_is(value, '|', 0, url.len() as int);
    assert(value.take(url.len() as int) =~= url);
    assert(value.skip(url.len() as int + 1) =~= key);
    assert(resolve_spec(url) == Ok::<Seq<char>, TemplateErrorView>(url));
}

/// Folding the attach lines of `a` appends `a` to the attach list.
proof fn lemma_fold_attach(a: Seq<(Seq<char>, Seq<char>)>, n: nat, acc: ProfileView)
    requires
        forall|i: int| 0 <= i < a.len() ==> entry_round_trips(#[trigger] a[i]),
    ensures
        fold_lines(a.map_values(|e: (Seq<char>, Seq<char>)| attach_line_of(e)), n, acc) == Ok::<
            ProfileView,
            ProfileErrorView,
        >(ProfileView { attach: acc.attach + a, ..acc }),
    decreases a.len(),
{
    let ls = a.map_values(|e: (Seq<char>, Seq<char>)| attach_line_of(e));
    if a.len() == 0 {
        assert(acc.attach + a =~= acc.attach);
        assert(ProfileView { attach: acc.attach + a, ..acc } =~= acc);
    } else {
        assert(entry_round_trips(a[0]));
        lemma_step_attach(acc, n + 1, a[0]);
        let next = ProfileView { attach: acc.attach.push(a[0]), ..acc };
        let rest = a.drop_first();
        assert forall|i: int| 0 <= i < rest.len() implies entry_round_trips(#[trigger] rest[i]) by {
            assert(rest[i] == a[i + 1]);
        }
        lemma_fold_attach(rest, n + 1, next);
        assert(ls.drop_first() =~= rest.map_values(|e: (Seq<char>, Seq<char>)| attach_line_of(e)));
        assert(next.attach + rest =~= acc.attach + a);
    }
}

/// Folding an optional mode line sets that mode.
proof fn lemma_fold_opt(acc: ProfileView, n: nat, key: Seq<char>, key_eq: Seq<char>, m: Option<RunMode>)
    requires
        key == "run_mode"@ || key == "network_mode"@ || key == "gpu_mode"@,
        key_eq == key + " = "@,
    ensures
        m is None ==> fold_lines(opt_line(key_eq, m), n, acc) == Ok::<ProfileView, ProfileErrorView>(acc),
        m is Some && key == "run_mode"@ ==> fold_lines(opt_line(key_eq, m), n, acc) == Ok::<
            ProfileView,
            ProfileErrorView,
        >(ProfileView { run_mode: m, ..acc }),
        m is Some && key == "network_mode"@ ==> fold_lines(opt_line(key_eq, m), n, acc) == Ok::<
            ProfileView,
            ProfileErrorView,
        >(ProfileView { network_mode: m, ..acc }),
        m is Some && key == "gpu_mode"@ ==> fold_lines(opt_line(key_eq, m), n, acc) == Ok::<
            ProfileView,
            ProfileErrorView,
        >(ProfileView { gpu_mode: m, ..acc }),
{
    match m {
        None => {
            let ls = opt_line(key_eq, m);
            assert(ls =~= Seq::<Seq<char>>::empty());
            assert(fold_lines(ls, n, acc) == Ok::<ProfileView, ProfileErrorView>(acc));
        },
        Some(x) => {
            lemma_keys_distinct();
            lemma_step_mode(acc, n + 1, key, key_eq, x);
            let ls = opt_line(key_eq, m);
            assert(ls[0] == mode_line_of(key_eq, x));
            assert(ls.drop_first() =~= Seq::<Seq<char>>::empty());
            let a = if key == "run_mode"@ {
                ProfileView { run_mode: Some(x), ..acc }
            } else if key == "network_mode"@ {
                ProfileView { network_mode: Some(x), ..acc }
            } else {
                ProfileView { gpu_mode: Some(x), ..acc }
            };
            assert(fold_lines(ls.drop_first(), n + 1, a) == Ok::<ProfileView, ProfileErrorView>(a));
            assert(fold_lines(ls, n, acc) == Ok::<ProfileView, ProfileErrorView>(a));
        },
    }
}

/// Every line `to_text` writes is split back out unchanged.
proof fn lemma_text_lines_ok(p: ProfileView)
    requires
        profile_round_trips(p),
    ensures
        forall|i: int| 0 <= i < text_lines(p).len() ==> line_ok(#[trigger] text_lines(p)[i]),
{
    reveal_strlit("# boincrs profile: ");
    reveal_strlit("|");
    reveal_strlit("name = ");
    reveal_strlit("attach = ");
    lemma_keys_distinct();
    lemma_name_chars(p.name);
    let ls = text_lines(p);
    assert forall|i: int| 0 <= i < ls.len() implies line_ok(#[trigger] ls[i]) by {
        let h = header_line(p.name);
        let nl = name_line_of(p.name);
        assert(lacks(h, '\n')) by {
            assert forall|k: int| 0 <= k < h.len() implies #[trigger] h[k] != '\n' by {
                if k >= "# boincrs profile: "@.len() {
                    assert(h[k] == p.name[k - "# boincrs profile: "@.len()]);
                }
            }
        }
        assert(h.last() == p.name.last());
        assert(lacks(nl, '\n')) by {
            assert forall|k: int| 0 <= k < nl.len() implies #[trigger] nl[k] != '\n' by {
                if k >= "name = "@.len() {
                    assert(nl[k] == p.name[k - "name = "@.len()]);
                }
            }
        }
        assert(nl.last() == p.name.last());
        let r1 = opt_line("run_mode = "@, p.run_mode);
        let r2 = opt_line("network_mode = "@, p.network_mode);
        let r3 = opt_line("gpu_mode = "@, p.gpu_mode);
        let att = p.attach.map_values(|e: (Seq<char>, Seq<char>)| attach_line_of(e));
        let l = ls[i];
        if i < 2 {
        } else if i < 2 + r1.len() {
            lemma_mode_line_ok("run_mode"@, p.run_mode->0);
            assert(l == r1[i - 2]);
        } else if i < 2 + r1.len() + r2.len() {
            lemma_mode_line_ok("network_mode"@, p.network_mode->0);
            assert(l == r2[i - 2 - r1.len()]);
        } else if i < 2 + r1.len() + r2.len() + r3.len() {
            lemma_mode_line_ok("gpu_mode"@, p.gpu_mode->0);
            assert(l == r3[i - 2 - r1.len() - r2.len()]);
        } else {
            let j = i - 2 - r1.len() - r2.len() - r3.len();
            assert(l == att[j]);
            let e = p.attach[j];
            assert(entry_round_trips(e));
            lemma_trim_ends(e.1);
            assert(l == "attach = "@ + e.0 + "|"@ + e.1);
            assert(l.last() == e.1.last());
            assert forall|k: int| 0 <= k < l.len() implies #[trigger] l[k] != '\n' by {
                let a = "attach = "@.len();
                if k >= a && k < a + e.0.len() {
                    assert(l[k] == e.0[k - a]);
                } else if k > a + e.0.len() {
                    assert(l[k] == e.1[k - a - e.0.len() - 1]);
                }
            }
        }
    }
}

proof fn lemma_mode_line_ok(key: Seq<char>, m: RunMode)
    requires
        key_like(key),
    ensures
        line_ok(mode_line_of(key + " = "@, m)),
{
    reveal_strlit(" = ");
    lemma_tag_facts(m, 0, key);
    let l = mode_line_of(key + " = "@, m);
    assert(l == key + " = "@ + m.tag());
    assert(l.last() == m.tag().last());
    assert forall|k: int| 0 <= k < l.len() implies #[trigger] l[k] != '\n' by {
        if k >= key.len() + 3 {
            assert(l[k] == m.tag()[k - key.len() - 3]);
        } else if k < key.len() {
            assert(l[k] == key[k]);
        }
    }
}

/// Law: a profile with a valid name, at least one attach entry or mode,
/// and attach entries whose URL and key survive serialization is parsed
/// back unchanged from the text that `to_text` writes for it.
pub proof fn lemma_profile_text_round_trip(p: ProfileView)
    requires
        profile_round_trips(p),
    ensures
        parse_profile_spec(unlines(text_lines(p))) == Ok::<ProfileView, ProfileErrorView>(p),
{
    lemma_text_lines_ok(p);
    lemma_lines_unlines(text_lines(p));
    lemma_keys_distinct();
    let hn = seq![header_line(p.name), name_line_of(p.name)];
    let r1 = opt_line("run_mode = "@, p.run_mode);
    let r2 = opt_line("network_mode = "@, p.network_mode);
    let r3 = opt_line("gpu_mode = "@, p.gpu_mode);
    let att = p.attach.map_values(|e: (Seq<char>, Seq<char>)| attach_line_of(e));
    assert(text_lines(p) == hn + r1 + r2 + r3 + att);
    let e0 = empty_profile();
    lemma_step_header(e0, 1, p.name);
    lemma_step_name(e0, 2, p.name);
    let a0 = ProfileView { name: p.name, ..e0 };
    assert(hn.drop_first() =~= seq![name_line_of(p.name)]);
    assert(seq![name_line_of(p.name)].drop_first() =~= Seq::<Seq<char>>::empty());
    assert(hn[0] == header_line(p.name));
    assert(fold_lines(hn, 0, e0) == fold_lines(hn.drop_first(), 1, e0));
    assert(hn.drop_first()[0] == name_line_of(p.name));
    assert(fold_lines(hn.drop_first(), 1, e0) == fold_lines(
        hn.drop_first().drop_first(),
        2,
        a0,
    ));
    assert(hn.drop_first().drop_first() =~= Seq::<Seq<char>>::empty());
    assert(fold_lines(hn, 0, e0) == Ok::<ProfileView, ProfileErrorView>(a0));
    lemma_fold_append(hn, r1, 0, e0);
    lemma_fold_opt(a0, 2, "run_mode"@, "run_mode = "@, p.run_mode);
    let a1 = ProfileView { run_mode: p.run_mode, ..a0 };
    lemma_fold_append(hn + r1, r2, 0, e0);
    lemma_fold_opt(a1, 2 + r1.len(), "network_mode"@, "network_mode = "@, p.network_mode);
    let a2 = ProfileView { network_mode: p.network_mode, ..a1 };
    lemma_fold_append(hn + r1 + r2, r3, 0, e0);
    lemma_fold_opt(a2, 2 + r1.len() + r2.len(), "gpu_mode"@, "gpu_mode = "@, p.gpu_mode);
    let a3 = ProfileView { gpu_mode: p.gpu_mode, ..a2 };
    lemma_fold_append(hn + r1 + r2 + r3, att, 0, e0);
    lemma_fold_attach(p.attach, 2 + r1.len() + r2.len() + r3.len(), a3);
    let a4 = ProfileView { attach: a3.attach + p.attach, ..a3 };
    assert(a3.attach + p.attach =~= p.attach);
    assert(a4 =~= p);
}


// ---------------------------------------------------------------------------
// Messages
// ---------------------------------------------------------------------------

/// `line {n}: ` prefix of line-related messages.
pub open spec fn line_prefix(n: nat) -> Seq<char> {
    "line "@ + decimal(n) + ": "@
}

impl ProfileErrorView {
    /// The human-readable message of the error; for an I/O error, the part
    /// before the underlying error's own text.
    pub open spec fn message(self) -> Seq<char> {
        match self {
            ProfileErrorView::MissingName => "profile name must not be empty"@,
            ProfileErrorView::InvalidName(n) => "invalid profile name "@ + debug_str(n)
                + ": only ASCII letters, digits, '-', '_' allowed"@,
            ProfileErrorView::MalformedLine { line, raw } => line_prefix(line)
                + "expected 'key = value', got "@ + debug_str(raw),
            ProfileErrorView::InvalidValue { line, key, reason } => line_prefix(line)
                + "invalid value for "@ + key + ": "@ + reason,
            ProfileErrorView::MalformedAttach { line } => line_prefix(line)
                + "attach entry must be 'slug_or_url|account_key'"@,
            ProfileErrorView::UnknownTemplate { line, source } => line_prefix(line)
                + source.message(),
            ProfileErrorView::UnknownKey { line, key } => line_prefix(line)
                + "unknown profile key "@ + debug_str(key),
            ProfileErrorView::EmptyProfile(n) => "profile "@ + debug_str(n)
                + " is empty: no attach entries or mode overrides"@,
            ProfileErrorView::Io { path } => "profile I/O error at "@ + debug_str(path) + ": "@,
        }
    }
}

/// Renders `line {n}: `.
fn line_prefix_exec(n: usize) -> (r: String)
    ensures
        r@ == line_prefix(n as nat),
{
    let d = decimal_string(n as u64);
    let r = cat(string_of("line "), d.as_str());
    cat(r, ": ")
}

impl ProfileError {
    /// Renders the error message (what `Display` shows). For an I/O error the
    /// message is the stated prefix followed by the underlying error's text.
    pub fn to_string(&self) -> (r: String)
        ensures
            !(self is Io) ==> r@ == self@.message(),
            self is Io ==> r@.len() >= self@.message().len() && r@.take(self@.message().len() as int)
                == self@.message(),
    {
        match self {
            ProfileError::MissingName => string_of("profile name must not be empty"),
            ProfileError::InvalidName(n) => {
                let r = cat(string_of("invalid profile name "), debug_quoted(n.as_str()).as_str());
                cat(r, ": only ASCII letters, digits, '-', '_' allowed")
            },
            ProfileError::MalformedLine { line, raw } => {
                let r = cat(line_prefix_exec(*line), "expected 'key = value', got ");
                cat(r, debug_quoted(raw.as_str()).as_str())
            },
            ProfileError::InvalidValue { line, key, reason } => {
                let r = cat(line_prefix_exec(*line), "invalid value for ");
                let r = cat(r, key.as_str());
                let r = cat(r, ": ");
                cat(r, reason.as_str())
            },
            ProfileError::MalformedAttach { line } => {
                cat(line_prefix_exec(*line), "attach entry must be 'slug_or_url|account_key'")
            },
            ProfileError::UnknownTemplate { line, source } => {
                cat(line_prefix_exec(*line), source.to_string().as_str())
            },
            ProfileError::UnknownKey { line, key } => {
                let r = cat(line_prefix_exec(*line), "unknown profile key ");
                cat(r, debug_quoted(key.as_str()).as_str())
            },
            ProfileError::EmptyProfile(n) => {
                let r = cat(string_of("profile "), debug_quoted(n.as_str()).as_str());
                cat(r, " is empty: no attach entries or mode overrides")
            },
            ProfileError::Io { path, source } => {
                let r = cat(string_of("profile I/O error at "), debug_quoted(path.as_str()).as_str());
                let r = cat(r, ": ");
                let ghost head = r@;
                let r = cat(r, io_error_text(source).as_str());
                proof {
                    assert(r@.take(head.len() as int) =~= head);
                }
                r
            },
        }
    }
}

// ---------------------------------------------------------------------------
// Mode values are case-insensitive
// ---------------------------------------------------------------------------

/// ASCII lowercasing twice is lowercasing once.
proof fn lemma_lower_idempotent(v: Seq<char>)
    ensures
        lower(lower(v)) == lower(v),
{
    assert forall|i: int| 0 <= i < v.len() implies #[trigger] lower(lower(v))[i] == lower(v)[i] by {
        let c = v[i];
        if 'A' <= c <= 'Z' {
            assert(ascii_lower(c) == ((c as u32) + 32) as char);
        }
    }
    assert(lower(lower(v)) =~= lower(v));
}

/// Mode values are read regardless of ASCII case: any spelling of
/// `always`, `auto` or `never` gives that mode, and a value gives a mode
/// exactly when its lowercase form does, the same mode.
pub proof fn lemma_run_mode_case_insensitive(v: Seq<char>, line: nat, key: Seq<char>)
    ensures
        lower(v) == "always"@ ==> run_mode_spec(v, line, key) == Ok::<RunMode, ProfileErrorView>(
            RunMode::Always,
        ),
        lower(v) == "auto"@ ==> run_mode_spec(v, line, key) == Ok::<RunMode, ProfileErrorView>(
            RunMode::Auto,
        ),
        lower(v) == "never"@ ==> run_mode_spec(v, line, key) == Ok::<RunMode, ProfileErrorView>(
            RunMode::Never,
        ),
        run_mode_spec(v, line, key) is Ok <==> run_mode_spec(lower(v), line, key) is Ok,
        run_mode_spec(v, line, key) is Ok ==> run_mode_spec(v, line, key) == run_mode_spec(
            lower(v),
            line,
            key,
        ),
{
    lemma_lower_idempotent(v);
    reveal_strlit("always");
    reveal_strlit("auto");
    reveal_strlit("never");
    assert("auto"@ != "always"@) by {
        assert("auto"@[1] != "always"@[1]);
    }
    assert("never"@ != "always"@) by {
        assert("never"@[0] != "always"@[0]);
    }
    assert("never"@ != "auto"@) by {
        assert("never"@[0] != "auto"@[0]);
    }
}

} // verus!
