//! Startup-time project attach and preset profile planning.
//!
//! The bootstrap layer takes user configuration (environment values and an
//! optional preset profile) and decides which BOINC RPC requests to send.
//! It is intentionally tolerant: malformed entries in a multi-attach list are
//! skipped with a reason, so one bad entry does not stop the rest.
use vstd::prelude::*;

use crate::boinc::api::write::{element, mode_request, project_request, BoincWriteApi, RpcRequest};
use crate::boinc::models::RunMode;
use crate::boinc::profiles::{PresetProfile, ProfileError, ProfileView};
use crate::error::AppError;
use crate::boinc::templates::{
    resolve_spec, resolve_template, validate_project_url, validate_url_spec, TemplateError,
    TemplateErrorView,
};
use crate::text::{
    cat, decimal, decimal_string, starts_with, starts_with_exec, strip_both, strip_both_exec,
    debug_quoted, debug_str, find_char_exec, find_char_from, from_chars, lemma_find_char_props,
    slice_of, split_once, split_once_exec, string_of, to_chars, trim, trim_chars,
};

verus! {

/// One concrete attach request resolved against the templates registry.
#[derive(Debug, Clone, PartialEq, Eq)]
pub struct AttachProject {
    /// Canonical BOINC master URL to pass to `project_attach`.
    pub url: String,
    /// Project authenticator / account key.
    pub account_key: String,
}

impl View for AttachProject {
    type V = (Seq<char>, Seq<char>);

    open spec fn view(&self) -> (Seq<char>, Seq<char>) {
        (self.url@, self.account_key@)
    }
}

/// Summary of what the bootstrap step did.
#[derive(Debug, Default, Clone, PartialEq, Eq)]
pub struct BootstrapReport {
    /// URLs sent through `project_attach` + `project_update`.
    pub attached: Vec<String>,
    /// Skipped entries as `(input, reason)`; skips are non-fatal by design.
    pub skipped: Vec<(String, String)>,
    /// Name of the loaded preset profile, if any.
    pub profile_name: Option<String>,
    /// `true` if the CPU run-mode override from the profile was applied.
    pub applied_run_mode: bool,
    /// `true` if the network-mode override from the profile was applied.
    pub applied_network_mode: bool,
    /// `true` if the GPU-mode override from the profile was applied.
    pub applied_gpu_mode: bool,
}

/// The mathematical content of a [`BootstrapReport`].
#[verifier::ext_equal]
pub struct ReportView {
    pub attached: Seq<Seq<char>>,
    pub skipped: Seq<(Seq<char>, Seq<char>)>,
    pub profile_name: Option<Seq<char>>,
    pub applied_run_mode: bool,
    pub applied_network_mode: bool,
    pub applied_gpu_mode: bool,
}

pub open spec fn opt_view(o: Option<String>) -> Option<Seq<char>> {
    match o {
        Some(s) => Some(s@),
        None => None,
    }
}

impl View for BootstrapReport {
    type V = ReportView;

    open spec fn view(&self) -> ReportView {
        ReportView {
            attached: self.attached@.map_values(|s: String| s@),
            skipped: self.skipped@.map_values(|p: (String, String)| (p.0@, p.1@)),
            profile_name: opt_view(self.profile_name),
            applied_run_mode: self.applied_run_mode,
            applied_network_mode: self.applied_network_mode,
            applied_gpu_mode: self.applied_gpu_mode,
        }
    }
}

/// Configuration discovered from the environment: the sole structured input
/// to bootstrap planning.
#[derive(Debug, Default, Clone, PartialEq, Eq)]
pub struct EnvInputs {
    /// Path to a preset profile to load, if any.
    pub profile_path: Option<String>,
    /// `(slug, account_key)` from dedicated env vars.
    pub well_known: Vec<(String, String)>,
    /// Raw `slug|key` entries from the attach-templates variable.
    pub template_pairs: Vec<String>,
    /// Raw `url|key` entries from the legacy attach-projects variable.
    pub legacy_url_pairs: Vec<String>,
}

/// The mathematical content of [`EnvInputs`].
pub struct EnvInputsView {
    pub profile_path: Option<Seq<char>>,
    pub well_known: Seq<(Seq<char>, Seq<char>)>,
    pub template_pairs: Seq<Seq<char>>,
    pub legacy_url_pairs: Seq<Seq<char>>,
}

impl View for EnvInputs {
    type V = EnvInputsView;

    open spec fn view(&self) -> EnvInputsView {
        EnvInputsView {
            profile_path: opt_view(self.profile_path),
            well_known: self.well_known@.map_values(|p: (String, String)| (p.0@, p.1@)),
            template_pairs: self.template_pairs@.map_values(|s: String| s@),
            legacy_url_pairs: self.legacy_url_pairs@.map_values(|s: String| s@),
        }
    }
}

// ---------------------------------------------------------------------------
// Entry parsing
// ---------------------------------------------------------------------------

/// `x` as a one-element list when it is non-empty, else nothing.
pub open spec fn keep_nonempty(x: Seq<char>) -> Seq<Seq<char>> {
    if x.len() > 0 {
        seq![x]
    } else {
        Seq::empty()
    }
}

/// The `;`-separated segments of `s`, trimmed, empty ones dropped.
pub open spec fn split_pairs_spec(s: Seq<char>) -> Seq<Seq<char>>
    decreases s.len(),
{
    match find_char_from(s, ';', 0) {
        None => keep_nonempty(trim(s)),
        Some(i) => if 0 <= i < s.len() {
            keep_nonempty(trim(s.take(i))) + split_pairs_spec(s.skip(i + 1))
        } else {
            Seq::empty()
        },
    }
}

/// Splits a `a|1;b|2; ;c|3` style specification into trimmed, non-empty entries.
pub fn split_pairs(spec: &str) -> (r: Vec<String>)
    ensures
        r@.map_values(|s: String| s@) == split_pairs_spec(spec@),
{
    let s = to_chars(spec);
    let mut out: Vec<String> = Vec::new();
    let mut pos: usize = 0;
    proof {
        assert(s@.skip(0) =~= s@);
    }
    loop
        invariant
            pos <= s@.len(),
            s@ == spec@,
            out@.map_values(|x: String| x@) + split_pairs_spec(s@.skip(pos as int))
                == split_pairs_spec(spec@),
        decreases s@.len() - pos,
    {
        let ghost u = s@.skip(pos as int);
        proof {
            crate::boinc::profiles::lemma_find_char_skip(s@, ';', pos as int);
        }
        match find_char_exec(&s, ';', pos) {
            Some(k) => {
                proof {
                    lemma_find_char_props(s@, ';', pos as int);
                    assert(u.take(k - pos) =~= s@.subrange(pos as int, k as int));
                    assert(u.skip(k - pos + 1) =~= s@.skip(k + 1));
                }
                let n = s.len();
                assert(k < n);
                let seg = slice_of(&s, pos, k);
                let t = trim_chars(&seg);
                let ghost before = out@.map_values(|x: String| x@);
                if t.len() > 0 {
                    out.push(from_chars(&t));
                    proof {
                        assert(out@.map_values(|x: String| x@) =~= before + seq![t@]);
                    }
                }
                proof {
                    assert(out@.map_values(|x: String| x@) =~= before + keep_nonempty(t@));
                    assert(before + (keep_nonempty(t@) + split_pairs_spec(s@.skip(k + 1))) =~= (
                    before + keep_nonempty(t@)) + split_pairs_spec(s@.skip(k + 1)));
                }
                pos = k + 1;
            },
            None => {
                let n = s.len();
                proof {
                    assert(u =~= s@.subrange(pos as int, n as int));
                }
                let seg = slice_of(&s, pos, n);
                let t = trim_chars(&seg);
                let ghost before = out@.map_values(|x: String| x@);
                if t.len() > 0 {
                    out.push(from_chars(&t));
                    proof {
                        assert(out@.map_values(|x: String| x@) =~= before + seq![t@]);
                    }
                }
                proof {
                    assert(out@.map_values(|x: String| x@) =~= before + keep_nonempty(t@));
                }
                return out;
            },
        }
    }
}

/// What `parse_template_pair` returns for `pair`.
pub open spec fn template_pair_spec(pair: Seq<char>) -> Result<(Seq<char>, Seq<char>), Seq<char>> {
    match split_once(pair, '|') {
        None => Err("expected 'slug|account_key'"@),
        Some((l, r)) => {
            let slug = trim(l);
            let key = trim(r);
            if slug.len() == 0 || key.len() == 0 {
                Err("slug and account_key must be non-empty"@)
            } else {
                match resolve_spec(slug) {
                    Ok(url) => Ok((url, key)),
                    Err(TemplateErrorView::UnknownSlug(_, known)) => Err(
                        "unknown template "@ + debug_str(slug) + ". Known: "@ + known,
                    ),
                    Err(e) => Err(e.message()),
                }
            }
        },
    }
}

/// Parses `slug_or_url|account_key` against the template registry.
pub fn parse_template_pair(pair: &str) -> (r: Result<AttachProject, String>)
    ensures
        match template_pair_spec(pair@) {
            Ok(v) => r matches Ok(x) && x@ == v,
            Err(m) => r matches Err(x) && x@ == m,
        },
{
    let chars = to_chars(pair);
    let (left, right) = match split_once_exec(&chars, '|') {
        Some(p) => p,
        None => return Err(string_of("expected 'slug|account_key'")),
    };
    let slug = trim_chars(&left);
    let key = trim_chars(&right);
    if slug.len() == 0 || key.len() == 0 {
        return Err(string_of("slug and account_key must be non-empty"));
    }
    let slug_s = from_chars(&slug);
    match resolve_template(slug_s.as_str()) {
        Ok(url) => Ok(AttachProject { url, account_key: from_chars(&key) }),
        Err(TemplateError::UnknownSlug(_, known)) => {
            let m = cat(string_of("unknown template "), debug_quoted(slug_s.as_str()).as_str());
            let m = cat(m, ". Known: ");
            Err(cat(m, known.as_str()))
        },
        Err(other) => Err(other.to_string()),
    }
}

/// What `parse_url_pair` returns for `pair`.
pub open spec fn url_pair_spec(pair: Seq<char>) -> Result<(Seq<char>, Seq<char>), Seq<char>> {
    match split_once(pair, '|') {
        None => Err("expected 'url|account_key'"@),
        Some((l, r)) => {
            let url = trim(l);
            let key = trim(r);
            match validate_url_spec(url) {
                Err(e) => Err(e.message()),
                Ok(_) => if key.len() == 0 {
                    Err("account_key must be non-empty"@)
                } else {
                    Ok((url, key))
                },
            }
        },
    }
}

/// Parses `url|account_key` without template resolution (legacy).
pub fn parse_url_pair(pair: &str) -> (r: Result<AttachProject, String>)
    ensures
        match url_pair_spec(pair@) {
            Ok(v) => r matches Ok(x) && x@ == v,
            Err(m) => r matches Err(x) && x@ == m,
        },
{
    let chars = to_chars(pair);
    let (left, right) = match split_once_exec(&chars, '|') {
        Some(p) => p,
        None => return Err(string_of("expected 'url|account_key'")),
    };
    let url = trim_chars(&left);
    let key = trim_chars(&right);
    let url_s = from_chars(&url);
    match validate_project_url(url_s.as_str()) {
        Ok(()) => {},
        Err(e) => return Err(e.to_string()),
    }
    if key.len() == 0 {
        return Err(string_of("account_key must be non-empty"));
    }
    Ok(AttachProject { url: url_s, account_key: from_chars(&key) })
}

// ---------------------------------------------------------------------------
// De-duplication
// ---------------------------------------------------------------------------

/// Some entry of `s` has URL `url`.
pub open spec fn has_url(s: Seq<(Seq<char>, Seq<char>)>, url: Seq<char>) -> bool {
    exists|j: int| 0 <= j < s.len() && #[trigger] s[j].0 == url
}

/// `s` with every entry whose URL already occurred earlier removed.
pub open spec fn dedupe(s: Seq<(Seq<char>, Seq<char>)>) -> Seq<(Seq<char>, Seq<char>)>
    decreases s.len(),
{
    if s.len() == 0 {
        s
    } else if has_url(s.drop_last(), s.last().0) {
        dedupe(s.drop_last())
    } else {
        dedupe(s.drop_last()).push(s.last())
    }
}

pub open spec fn attach_views(v: Seq<AttachProject>) -> Seq<(Seq<char>, Seq<char>)> {
    v.map_values(|a: AttachProject| a@)
}

fn clone_attach(a: &AttachProject) -> (r: AttachProject)
    ensures
        r@ == a@,
{
    AttachProject { url: a.url.clone(), account_key: a.account_key.clone() }
}

/// Removes duplicate attach entries, keeping the first occurrence of each URL,
/// in list order.
pub fn dedupe_by_url(list: &mut Vec<AttachProject>)
    ensures
        attach_views(final(list)@) == dedupe(attach_views(old(list)@)),
{
    let ghost s = attach_views(list@);
    let mut out: Vec<AttachProject> = Vec::new();
    let mut i: usize = 0;
    while i < list.len()
        invariant
            s == attach_views(list@),
            i <= list@.len(),
            attach_views(out@) == dedupe(s.take(i as int)),
        decreases list@.len() - i,
    {
        let mut dup = false;
        let mut j: usize = 0;
        while j < i
            invariant
                s == attach_views(list@),
                j <= i < list@.len(),
                dup == has_url(s.take(j as int), s[i as int].0),
            decreases i - j,
        {
            if list[j].url == list[i].url {
                dup = true;
            }
            proof {
                assert(s.take(j + 1).drop_last() =~= s.take(j as int));
                if has_url(s.take(j + 1), s[i as int].0) {
                    let w = choose|w: int| 0 <= w < j + 1 && #[trigger] s.take(j + 1)[w].0 == s[i as int].0;
                    if w < j {
                        assert(s.take(j as int)[w].0 == s[i as int].0);
                    }
                }
                if has_url(s.take(j as int), s[i as int].0) {
                    let w = choose|w: int| 0 <= w < j && #[trigger] s.take(j as int)[w].0 == s[i as int].0;
                    assert(s.take(j + 1)[w].0 == s[i as int].0);
                }
                if list@[j as int].url@ == list@[i as int].url@ {
                    assert(s.take(j + 1)[j as int].0 == s[i as int].0);
                }
            }
            j = j + 1;
        }
        let ghost before = attach_views(out@);
        proof {
            assert(s.take(i + 1).drop_last() =~= s.take(i as int));
            assert(s.take(i + 1).last() == s[i as int]);
        }
        if !dup {
            out.push(clone_attach(&list[i]));
            proof {
                assert(attach_views(out@) =~= before.push(s[i as int]));
            }
        }
        i = i + 1;
    }
    proof {
        assert(s.take(list@.len() as int) =~= s);
    }
    *list = out;
}

/// Law: after de-duplication no two entries share a URL, every URL of the
/// input is still present, and each kept entry is the first entry of the
/// input with its URL.
pub proof fn lemma_dedupe_keeps_first(s: Seq<(Seq<char>, Seq<char>)>)
    ensures
        forall|a: int, b: int|
            0 <= a < b < dedupe(s).len() ==> dedupe(s)[a].0 != dedupe(s)[b].0,
        forall|i: int| 0 <= i < s.len() ==> has_url(dedupe(s), #[trigger] s[i].0),
        forall|k: int|
            0 <= k < dedupe(s).len() ==> exists|i: int|
                0 <= i < s.len() && s[i] == #[trigger] dedupe(s)[k] && !has_url(s.take(i), s[i].0),
    decreases s.len(),
{
    if s.len() > 0 {
        let p = s.drop_last();
        lemma_dedupe_keeps_first(p);
        let d = dedupe(p);
        assert forall|i: int| 0 <= i < s.len() implies has_url(dedupe(s), #[trigger] s[i].0) by {
            if i < p.len() {
                assert(p[i] == s[i]);
                assert(has_url(d, p[i].0));
                let w = choose|w: int| 0 <= w < d.len() && #[trigger] d[w].0 == p[i].0;
                if has_url(p, s.last().0) {
                } else {
                    assert(dedupe(s)[w] == d[w]);
                }
            } else {
                if has_url(p, s.last().0) {
                    let w = choose|w: int| 0 <= w < p.len() && #[trigger] p[w].0 == s.last().0;
                    assert(has_url(d, p[w].0));
                } else {
                    assert(dedupe(s)[d.len() as int] == s.last());
                }
            }
        }
        if !has_url(p, s.last().0) {
            assert forall|a: int, b: int|
                0 <= a < b < dedupe(s).len() implies dedupe(s)[a].0 != dedupe(s)[b].0 by {
                if b == d.len() {
                    assert(dedupe(s)[a] == d[a]);
                    if d[a].0 == s.last().0 {
                        let i = choose|i: int|
                            0 <= i < p.len() && p[i] == #[trigger] d[a] && !has_url(p.take(i), p[i].0);
                        assert(p[i].0 == s.last().0);
                    }
                } else {
                    assert(dedupe(s)[a] == d[a]);
                    assert(dedupe(s)[b] == d[b]);
                }
            }
            assert forall|k: int| 0 <= k < dedupe(s).len() implies exists|i: int|
                0 <= i < s.len() && s[i] == #[trigger] dedupe(s)[k] && !has_url(s.take(i), s[i].0) by {
                if k == d.len() {
                    let i = s.len() - 1;
                    assert(s.take(i) =~= p);
                    assert(s[i] == dedupe(s)[k]);
                } else {
                    assert(dedupe(s)[k] == d[k]);
                    let i = choose|i: int|
                        0 <= i < p.len() && p[i] == #[trigger] d[k] && !has_url(p.take(i), p[i].0);
                    assert(s.take(i) =~= p.take(i));
                    assert(s[i] == p[i]);
                }
            }
        } else {
            assert forall|k: int| 0 <= k < dedupe(s).len() implies exists|i: int|
                0 <= i < s.len() && s[i] == #[trigger] dedupe(s)[k] && !has_url(s.take(i), s[i].0) by {
                let i = choose|i: int|
                    0 <= i < p.len() && p[i] == #[trigger] d[k] && !has_url(p.take(i), p[i].0);
                assert(s.take(i) =~= p.take(i));
                assert(s[i] == p[i]);
            }
        }
    }
}


// ---------------------------------------------------------------------------
// Planning
// ---------------------------------------------------------------------------

/// What one configured entry turned into: an attach target `(url, key)`, or
/// the reason it was skipped.
pub type Outcome = Result<(Seq<char>, Seq<char>), Seq<char>>;

/// The attach targets among labelled outcomes, in order.
pub open spec fn ok_entries(rs: Seq<(Seq<char>, Outcome)>) -> Seq<(Seq<char>, Seq<char>)>
    decreases rs.len(),
{
    if rs.len() == 0 {
        Seq::empty()
    } else {
        match rs.last().1 {
            Ok(v) => ok_entries(rs.drop_last()).push(v),
            Err(_) => ok_entries(rs.drop_last()),
        }
    }
}

/// The `(input, reason)` pairs of skipped entries, in order.
pub open spec fn err_entries(rs: Seq<(Seq<char>, Outcome)>) -> Seq<(Seq<char>, Seq<char>)>
    decreases rs.len(),
{
    if rs.len() == 0 {
        Seq::empty()
    } else {
        match rs.last().1 {
            Ok(_) => err_entries(rs.drop_last()),
            Err(m) => err_entries(rs.drop_last()).push((rs.last().0, m)),
        }
    }
}

/// A `(slug, key)` from a dedicated variable, resolved against the registry.
pub open spec fn well_known_outcome(e: (Seq<char>, Seq<char>)) -> (Seq<char>, Outcome) {
    (
        e.0,
        match resolve_spec(e.0) {
            Ok(u) => Ok((u, e.1)),
            Err(x) => Err(x.message()),
        },
    )
}

pub open spec fn template_outcome(raw: Seq<char>) -> (Seq<char>, Outcome) {
    (raw, template_pair_spec(raw))
}

pub open spec fn legacy_outcome(raw: Seq<char>) -> (Seq<char>, Outcome) {
    (raw, url_pair_spec(raw))
}

/// The outcomes of all configured entries: dedicated variables, then
/// template pairs, then legacy URL pairs.
pub open spec fn outcomes(inputs: EnvInputsView) -> Seq<(Seq<char>, Outcome)> {
    inputs.well_known.map_values(|e: (Seq<char>, Seq<char>)| well_known_outcome(e))
        + inputs.template_pairs.map_values(|r: Seq<char>| template_outcome(r))
        + inputs.legacy_url_pairs.map_values(|r: Seq<char>| legacy_outcome(r))
}

/// Attach targets before de-duplication: profile entries first.
pub open spec fn candidates(p: Option<ProfileView>, inputs: EnvInputsView) -> Seq<
    (Seq<char>, Seq<char>),
> {
    match p {
        Some(p) => p.attach + ok_entries(outcomes(inputs)),
        None => ok_entries(outcomes(inputs)),
    }
}

/// The `project_attach` request for an entry.
pub open spec fn attach_request(e: (Seq<char>, Seq<char>)) -> (Seq<char>, Seq<char>) {
    ("project_attach"@, element("project_url"@, e.0) + element("authenticator"@, e.1))
}

/// For each target in order: attach, then update.
pub open spec fn attach_requests(list: Seq<(Seq<char>, Seq<char>)>) -> Seq<(Seq<char>, Seq<char>)>
    decreases list.len(),
{
    if list.len() == 0 {
        Seq::empty()
    } else {
        attach_requests(list.drop_last()) + seq![
            attach_request(list.last()),
            project_request("project_update"@, list.last().0),
        ]
    }
}

pub open spec fn opt_mode_request(command: Seq<char>, m: Option<RunMode>) -> Seq<(Seq<char>, Seq<char>)> {
    match m {
        Some(x) => seq![mode_request(command, x, 0)],
        None => Seq::empty(),
    }
}

/// Permanent (`duration 0`) mode requests for the modes the profile sets.
pub open spec fn mode_requests(p: Option<ProfileView>) -> Seq<(Seq<char>, Seq<char>)> {
    match p {
        Some(p) => opt_mode_request("set_run_mode"@, p.run_mode) + opt_mode_request(
            "set_network_mode"@,
            p.network_mode,
        ) + opt_mode_request("set_gpu_mode"@, p.gpu_mode),
        None => Seq::empty(),
    }
}

/// The requests bootstrap sends, in order.
pub open spec fn plan_requests(p: Option<ProfileView>, inputs: EnvInputsView) -> Seq<
    (Seq<char>, Seq<char>),
> {
    attach_requests(dedupe(candidates(p, inputs))) + mode_requests(p)
}

/// The report bootstrap gives once every request has succeeded.
pub open spec fn plan_report(p: Option<ProfileView>, inputs: EnvInputsView) -> ReportView {
    ReportView {
        attached: dedupe(candidates(p, inputs)).map_values(|e: (Seq<char>, Seq<char>)| e.0),
        skipped: err_entries(outcomes(inputs)),
        profile_name: match p {
            Some(p) => Some(p.name),
            None => None,
        },
        applied_run_mode: p matches Some(q) && q.run_mode is Some,
        applied_network_mode: p matches Some(q) && q.network_mode is Some,
        applied_gpu_mode: p matches Some(q) && q.gpu_mode is Some,
    }
}

/// The requests to send and the report to give when they all succeed.
pub struct BootstrapPlan {
    /// Requests in the order they must be sent; stop at the first failure.
    pub requests: Vec<RpcRequest>,
    /// The report once every request succeeded.
    pub report: BootstrapReport,
}

pub open spec fn request_views(v: Seq<RpcRequest>) -> Seq<(Seq<char>, Seq<char>)> {
    v.map_values(|r: RpcRequest| r@)
}

pub open spec fn opt_profile_view(p: Option<&PresetProfile>) -> Option<ProfileView> {
    match p {
        Some(q) => Some(q@),
        None => None,
    }
}

fn skip_entry(
    skipped: &mut Vec<(String, String)>,
    label: String,
    reason: String,
)
    ensures
        final(skipped)@.map_values(|p: (String, String)| (p.0@, p.1@)) == old(skipped)@.map_values(
            |p: (String, String)| (p.0@, p.1@),
        ).push((label@, reason@)),
{
    skipped.push((label, reason));
    proof {
        assert(skipped@.map_values(|p: (String, String)| (p.0@, p.1@)) =~= old(skipped)@.map_values(
            |p: (String, String)| (p.0@, p.1@),
        ).push((label@, reason@)));
    }
}

fn take_entry(attach: &mut Vec<AttachProject>, a: AttachProject)
    ensures
        attach_views(final(attach)@) == attach_views(old(attach)@).push(a@),
{
    attach.push(a);
    proof {
        assert(attach_views(attach@) =~= attach_views(old(attach)@).push(a@));
    }
}

/// Decides what bootstrap does for a loaded profile (if any) and the
/// environment inputs: the profile's attach entries, then resolved
/// dedicated-variable slugs, template pairs and legacy URL pairs are
/// collected (unusable entries are skipped with a reason), de-duplicated by
/// URL keeping the first, attached and updated in order, and finally the
/// profile's mode overrides are applied permanently.
pub fn plan_bootstrap(profile: Option<&PresetProfile>, inputs: &EnvInputs) -> (r: BootstrapPlan)
    ensures
        request_views(r.requests@) == plan_requests(opt_profile_view(profile), inputs@),
        r.report@ == plan_report(opt_profile_view(profile), inputs@),
{
    let ghost pv = opt_profile_view(profile);
    let ghost iv = inputs@;
    let mut attach: Vec<AttachProject> = Vec::new();
    let mut skipped: Vec<(String, String)> = Vec::new();
    let ghost prof_entries: Seq<(Seq<char>, Seq<char>)> = match pv {
        Some(p) => p.attach,
        None => Seq::empty(),
    };
    if let Some(p) = profile {
        let mut i: usize = 0;
        while i < p.attach.len()
            invariant
                i <= p.attach@.len(),
                pv == Some(p@),
                prof_entries == p@.attach,
                attach_views(attach@) == prof_entries.take(i as int),
            decreases p.attach@.len() - i,
        {
            let e = &p.attach[i];
            take_entry(&mut attach, AttachProject { url: e.url.clone(), account_key: e.account_key.clone() });
            proof {
                assert(prof_entries.take(i + 1) =~= prof_entries.take(i as int).push(p@.attach[i as int]));
            }
            i = i + 1;
        }
        proof {
            assert(prof_entries.take(p.attach@.len() as int) =~= prof_entries);
        }
    } else {
        proof {
            assert(attach_views(attach@) =~= prof_entries);
        }
    }
    let ghost mut done: Seq<(Seq<char>, Outcome)> = Seq::empty();
    let ghost wk = iv.well_known.map_values(|e: (Seq<char>, Seq<char>)| well_known_outcome(e));
    let ghost tp = iv.template_pairs.map_values(|r: Seq<char>| template_outcome(r));
    let ghost lp = iv.legacy_url_pairs.map_values(|r: Seq<char>| legacy_outcome(r));
    let mut i: usize = 0;
    while i < inputs.well_known.len()
        invariant
            i <= inputs.well_known@.len(),
            iv == inputs@,
            wk == iv.well_known.map_values(|e: (Seq<char>, Seq<char>)| well_known_outcome(e)),
            done == wk.take(i as int),
            attach_views(attach@) == prof_entries + ok_entries(done),
            skipped@.map_values(|p: (String, String)| (p.0@, p.1@)) == err_entries(done),
        decreases inputs.well_known@.len() - i,
    {
        let (slug, key) = &inputs.well_known[i];
        let ghost o = well_known_outcome((slug@, key@));
        proof {
            assert(iv.well_known[i as int] == (slug@, key@));
            assert(wk[i as int] == o);
        }
        match resolve_template(slug.as_str()) {
            Ok(url) => {
                take_entry(&mut attach, AttachProject { url, account_key: key.clone() });
            },
            Err(e) => {
                skip_entry(&mut skipped, slug.clone(), e.to_string());
            },
        }
        proof {
            let nd = done.push(o);
            assert(nd.drop_last() =~= done);
            assert(prof_entries + ok_entries(done).push(o.1->Ok_0) =~= (prof_entries + ok_entries(done)).push(o.1->Ok_0));
            done = nd;
            assert(done =~= wk.take(i + 1));
        }
        i = i + 1;
    }
    proof {
        assert(wk.take(inputs.well_known@.len() as int) =~= wk);
    }
    let mut i: usize = 0;
    while i < inputs.template_pairs.len()
        invariant
            i <= inputs.template_pairs@.len(),
            iv == inputs@,
            tp == iv.template_pairs.map_values(|r: Seq<char>| template_outcome(r)),
            done == wk + tp.take(i as int),
            attach_views(attach@) == prof_entries + ok_entries(done),
            skipped@.map_values(|p: (String, String)| (p.0@, p.1@)) == err_entries(done),
        decreases inputs.template_pairs@.len() - i,
    {
        let raw = &inputs.template_pairs[i];
        let ghost o = template_outcome(raw@);
        proof {
            assert(iv.template_pairs[i as int] == raw@);
            assert(tp[i as int] == o);
        }
        match parse_template_pair(raw.as_str()) {
            Ok(ap) => {
                take_entry(&mut attach, ap);
            },
            Err(m) => {
                skip_entry(&mut skipped, raw.clone(), m);
            },
        }
        proof {
            let nd = done.push(o);
            assert(nd.drop_last() =~= done);
            assert(prof_entries + ok_entries(done).push(o.1->Ok_0) =~= (prof_entries + ok_entries(done)).push(o.1->Ok_0));
            done = nd;
            assert(done =~= wk + tp.take(i + 1));
        }
        i = i + 1;
    }
    proof {
        assert(tp.take(inputs.template_pairs@.len() as int) =~= tp);
    }
    let mut i: usize = 0;
    while i < inputs.legacy_url_pairs.len()
        invariant
            i <= inputs.legacy_url_pairs@.len(),
            iv == inputs@,
            lp == iv.legacy_url_pairs.map_values(|r: Seq<char>| legacy_outcome(r)),
            done == wk + tp + lp.take(i as int),
            attach_views(attach@) == prof_entries + ok_entries(done),
            skipped@.map_values(|p: (String, String)| (p.0@, p.1@)) == err_entries(done),
        decreases inputs.legacy_url_pairs@.len() - i,
    {
        let raw = &inputs.legacy_url_pairs[i];
        let ghost o = legacy_outcome(raw@);
        proof {
            assert(iv.legacy_url_pairs[i as int] == raw@);
            assert(lp[i as int] == o);
        }
        match parse_url_pair(raw.as_str()) {
            Ok(ap) => {
                take_entry(&mut attach, ap);
            },
            Err(m) => {
                skip_entry(&mut skipped, raw.clone(), m);
            },
        }
        proof {
            let nd = done.push(o);
            assert(nd.drop_last() =~= done);
            assert(prof_entries + ok_entries(done).push(o.1->Ok_0) =~= (prof_entries + ok_entries(done)).push(o.1->Ok_0));
            done = nd;
            assert(done =~= wk + tp + lp.take(i + 1));
        }
        i = i + 1;
    }
    proof {
        assert(lp.take(inputs.legacy_url_pairs@.len() as int) =~= lp);
        assert(done =~= outcomes(iv));
        assert(prof_entries + ok_entries(done) =~= candidates(pv, iv));
    }
    dedupe_by_url(&mut attach);
    let ghost list = dedupe(candidates(pv, iv));
    let mut requests: Vec<RpcRequest> = Vec::new();
    let mut attached: Vec<String> = Vec::new();
    let mut i: usize = 0;
    while i < attach.len()
        invariant
            i <= attach@.len(),
            attach_views(attach@) == list,
            request_views(requests@) == attach_requests(list.take(i as int)),
            attached@.map_values(|s: String| s@) == list.take(i as int).map_values(
                |e: (Seq<char>, Seq<char>)| e.0,
            ),
        decreases attach@.len() - i,
    {
        let a = &attach[i];
        let ghost before = request_views(requests@);
        requests.push(BoincWriteApi::project_attach(a.url.as_str(), a.account_key.as_str()));
        requests.push(BoincWriteApi::project_update(a.url.as_str()));
        let ghost abefore = attached@.map_values(|s: String| s@);
        attached.push(a.url.clone());
        proof {
            assert(list[i as int] == a@);
            let t = list.take(i + 1);
            assert(t.drop_last() =~= list.take(i as int));
            assert(t.last() == a@);
            assert(request_views(requests@) =~= before + seq![
                attach_request(a@),
                project_request("project_update"@, a@.0),
            ]);
            assert(attached@.map_values(|s: String| s@) =~= abefore.push(a@.0));
            assert(t.map_values(|e: (Seq<char>, Seq<char>)| e.0) =~= list.take(i as int).map_values(
                |e: (Seq<char>, Seq<char>)| e.0,
            ).push(a@.0));
        }
        i = i + 1;
    }
    proof {
        assert(list.take(attach@.len() as int) =~= list);
    }
    let ghost head = request_views(requests@);
    let mut applied_run_mode = false;
    let mut applied_network_mode = false;
    let mut applied_gpu_mode = false;
    let mut profile_name: Option<String> = None;
    if let Some(p) = profile {
        profile_name = Some(p.name.clone());
        if let Some(m) = p.run_mode {
            requests.push(BoincWriteApi::set_run_mode(m, 0));
            applied_run_mode = true;
        }
        proof {
            assert(request_views(requests@) =~= head + opt_mode_request("set_run_mode"@, p.run_mode));
        }
        if let Some(m) = p.network_mode {
            requests.push(BoincWriteApi::set_network_mode(m, 0));
            applied_network_mode = true;
        }
        proof {
            assert(request_views(requests@) =~= head + opt_mode_request("set_run_mode"@, p.run_mode)
                + opt_mode_request("set_network_mode"@, p.network_mode));
        }
        if let Some(m) = p.gpu_mode {
            requests.push(BoincWriteApi::set_gpu_mode(m, 0));
            applied_gpu_mode = true;
        }
        proof {
            assert(request_views(requests@) =~= head + mode_requests(pv));
        }
    } else {
        proof {
            assert(request_views(requests@) =~= head + mode_requests(pv));
        }
    }
    let report = BootstrapReport {
        attached,
        skipped,
        profile_name,
        applied_run_mode,
        applied_network_mode,
        applied_gpu_mode,
    };
    proof {
        assert(report@ =~= plan_report(pv, iv));
    }
    BootstrapPlan { requests, report }
}

/// Reads a configured value: `Some(trimmed)` when it is non-empty after
/// trimming whitespace, `None` otherwise.
pub fn nonempty_trimmed(value: &str) -> (r: Option<String>)
    ensures
        trim(value@).len() > 0 ==> (r matches Some(s) && s@ == trim(value@)),
        trim(value@).len() == 0 ==> r is None,
{
    let chars = to_chars(value);
    let t = trim_chars(&chars);
    if t.len() == 0 {
        None
    } else {
        Some(from_chars(&t))
    }
}

/// A configured value: the trimmed text when it is non-empty.
pub open spec fn configured(v: Option<Seq<char>>) -> Option<Seq<char>> {
    match v {
        Some(s) => if trim(s).len() > 0 {
            Some(trim(s))
        } else {
            None
        },
        None => None,
    }
}

pub open spec fn opt_str(v: Option<&str>) -> Option<Seq<char>> {
    match v {
        Some(s) => Some(s@),
        None => None,
    }
}

/// The inputs the configuration variables describe.
pub open spec fn env_inputs_of(
    profile_file: Option<Seq<char>>,
    primegrid_key: Option<Seq<char>>,
    asteroids_key: Option<Seq<char>>,
    attach_templates: Option<Seq<char>>,
    attach_projects: Option<Seq<char>>,
) -> EnvInputsView {
    EnvInputsView {
        profile_path: configured(profile_file),
        well_known: match configured(primegrid_key) {
            Some(k) => seq![("primegrid"@, k)],
            None => Seq::empty(),
        } + match configured(asteroids_key) {
            Some(k) => seq![("asteroids"@, k)],
            None => Seq::empty(),
        },
        template_pairs: match configured(attach_templates) {
            Some(v) => split_pairs_spec(v),
            None => Seq::empty(),
        },
        legacy_url_pairs: match configured(attach_projects) {
            Some(v) => split_pairs_spec(v),
            None => Seq::empty(),
        },
    }
}

fn configured_exec(v: Option<&str>) -> (r: Option<String>)
    ensures
        opt_view(r) == configured(opt_str(v)),
{
    match v {
        Some(s) => nonempty_trimmed(s),
        None => None,
    }
}

impl EnvInputs {
    /// Builds the inputs from the raw values of the documented variables
    /// (`None` where a variable is unset): the profile file, the PrimeGrid
    /// and Asteroids account keys, the `slug|key` template pairs and the
    /// legacy `url|key` pairs. Values blank after trimming count as unset.
    pub fn from_env(
        profile_file: Option<&str>,
        primegrid_key: Option<&str>,
        asteroids_key: Option<&str>,
        attach_templates: Option<&str>,
        attach_projects: Option<&str>,
    ) -> (r: EnvInputs)
        ensures
            r@ == env_inputs_of(
                opt_str(profile_file),
                opt_str(primegrid_key),
                opt_str(asteroids_key),
                opt_str(attach_templates),
                opt_str(attach_projects),
            ),
    {
        let mut well_known: Vec<(String, String)> = Vec::new();
        if let Some(k) = configured_exec(primegrid_key) {
            well_known.push((string_of("primegrid"), k));
        }
        let ghost first = well_known@.map_values(|p: (String, String)| (p.0@, p.1@));
        if let Some(k) = configured_exec(asteroids_key) {
            well_known.push((string_of("asteroids"), k));
        }
        proof {
            let pg = match configured(opt_str(primegrid_key)) {
                Some(k) => seq![("primegrid"@, k)],
                None => Seq::<(Seq<char>, Seq<char>)>::empty(),
            };
            let ast = match configured(opt_str(asteroids_key)) {
                Some(k) => seq![("asteroids"@, k)],
                None => Seq::<(Seq<char>, Seq<char>)>::empty(),
            };
            assert(first =~= pg);
            assert(well_known@.map_values(|p: (String, String)| (p.0@, p.1@)) =~= pg + ast);
        }
        let template_pairs = match configured_exec(attach_templates) {
            Some(v) => split_pairs(v.as_str()),
            None => Vec::new(),
        };
        let legacy_url_pairs = match configured_exec(attach_projects) {
            Some(v) => split_pairs(v.as_str()),
            None => Vec::new(),
        };
        let r = EnvInputs {
            profile_path: configured_exec(profile_file),
            well_known,
            template_pairs,
            legacy_url_pairs,
        };
        proof {
            assert(r@.template_pairs =~= env_inputs_of(
                opt_str(profile_file),
                opt_str(primegrid_key),
                opt_str(asteroids_key),
                opt_str(attach_templates),
                opt_str(attach_projects),
            ).template_pairs);
            assert(r@.legacy_url_pairs =~= env_inputs_of(
                opt_str(profile_file),
                opt_str(primegrid_key),
                opt_str(asteroids_key),
                opt_str(attach_templates),
                opt_str(attach_projects),
            ).legacy_url_pairs);
        }
        r
    }
}

/// The status line after bootstrap, when it attached something or loaded a
/// profile: `Bootstrap: attached {n}`, then ` profile:{name}` and
/// ` skipped:{count}` when they apply.
pub open spec fn bootstrap_line(r: ReportView) -> Option<Seq<char>> {
    if r.attached.len() > 0 || r.profile_name is Some {
        Some(
            "Bootstrap: attached "@ + decimal(r.attached.len()) + match r.profile_name {
                Some(n) => " profile:"@ + n,
                None => Seq::empty(),
            } + if r.skipped.len() == 0 {
                Seq::empty()
            } else {
                " skipped:"@ + decimal(r.skipped.len())
            },
        )
    } else {
        None
    }
}

impl BootstrapReport {
    /// Returns `bootstrap_line` of this report.
    pub fn status_line(&self) -> (r: Option<String>)
        ensures
            opt_view(r) == bootstrap_line(self@),
    {
        if self.attached.len() == 0 && self.profile_name.is_none() {
            return None;
        }
        let r = cat(string_of("Bootstrap: attached "), decimal_string(self.attached.len() as u64).as_str());
        let r = match &self.profile_name {
            Some(n) => {
                let r = cat(r, " profile:");
                cat(r, n.as_str())
            },
            None => r,
        };
        let r = if self.skipped.len() == 0 {
            r
        } else {
            let r = cat(r, " skipped:");
            cat(r, decimal_string(self.skipped.len() as u64).as_str())
        };
        Some(r)
    }
}

/// The configuration error for a profile file that could not be loaded:
/// `failed to load profile {path}: {error}`.
pub fn profile_load_error(path: &str, e: &ProfileError) -> (r: AppError)
    ensures
        r matches AppError::Config(m) && ({
            let head = "failed to load profile "@ + path@ + ": "@;
            &&& m@.len() >= head.len() + e@.message().len()
            &&& m@.take((head.len() + e@.message().len()) as int) == head + e@.message()
            &&& !(e is Io) ==> m@ == head + e@.message()
        }),
{
    let head = cat(string_of("failed to load profile "), path);
    let head = cat(head, ": ");
    let text = e.to_string();
    let m = cat(head, text.as_str());
    proof {
        let h = "failed to load profile "@ + path@ + ": "@;
        assert(m@.take((h.len() + e@.message().len()) as int) =~= h + e@.message());
    }
    AppError::Config(m)
}

/// One `KEY=value` line of a `.env` file: blank lines and `#` comments
/// give nothing; otherwise the trimmed key and the trimmed value with
/// surrounding double, then single, quotes stripped.
pub open spec fn dotenv_entry_of(line: Seq<char>) -> Option<(Seq<char>, Seq<char>)> {
    let l = trim(line);
    if l.len() == 0 || starts_with(l, "#"@) {
        None
    } else {
        match split_once(l, '=') {
            Some((k, v)) => Some((trim(k), strip_both(strip_both(trim(v), '"'), '\''))),
            None => None,
        }
    }
}

/// Returns `dotenv_entry_of(line)`.
pub fn dotenv_entry(line: &str) -> (r: Option<(String, String)>)
    ensures
        match dotenv_entry_of(line@) {
            Some((k, v)) => r matches Some(p) && p.0@ == k && p.1@ == v,
            None => r is None,
        },
{
    let l = trim_chars(&to_chars(line));
    if l.len() == 0 || starts_with_exec(&l, &to_chars("#")) {
        return None;
    }
    match split_once_exec(&l, '=') {
        Some((k, v)) => {
            let key = trim_chars(&k);
            let value = strip_both_exec(&strip_both_exec(&trim_chars(&v), '"'), '\'');
            Some((from_chars(&key), from_chars(&value)))
        },
        None => None,
    }
}

// ---------------------------------------------------------------------------
// Each mode override goes to its own command
// ---------------------------------------------------------------------------

/// The list holds the request `(command, payload)`.
pub open spec fn has_request(reqs: Seq<(Seq<char>, Seq<char>)>, command: Seq<char>, payload: Seq<char>) -> bool {
    exists|k: int| 0 <= k < reqs.len() && #[trigger] reqs[k] == (command, payload)
}

/// The list holds some request with `command`.
pub open spec fn has_command(reqs: Seq<(Seq<char>, Seq<char>)>, command: Seq<char>) -> bool {
    exists|k: int| 0 <= k < reqs.len() && (#[trigger] reqs[k]).0 == command
}

/// The payload that sets a mode permanently: `<mode/><duration>0</duration>`.
pub open spec fn permanent_mode_payload(m: RunMode) -> Seq<char> {
    "<"@ + m.tag() + "/><duration>0</duration>"@
}

/// The attach phase sends only `project_attach` and `project_update`.
proof fn lemma_attach_requests_commands(list: Seq<(Seq<char>, Seq<char>)>)
    ensures
        forall|k: int|
            0 <= k < attach_requests(list).len() ==> (#[trigger] attach_requests(list)[k]).0
                == "project_attach"@ || attach_requests(list)[k].0 == "project_update"@,
    decreases list.len(),
{
    if list.len() > 0 {
        lemma_attach_requests_commands(list.drop_last());
        let a = attach_requests(list.drop_last());
        assert forall|k: int| 0 <= k < attach_requests(list).len() implies (
        #[trigger] attach_requests(list)[k]).0 == "project_attach"@ || attach_requests(list)[k].0
            == "project_update"@ by {
            if k < a.len() {
                assert(attach_requests(list)[k] == a[k]);
            }
        }
    }
}

/// A permanent mode request carries `<mode/><duration>0</duration>`.
proof fn lemma_mode_request_payload(command: Seq<char>, m: RunMode)
    ensures
        mode_request(command, m, 0) == (command, permanent_mode_payload(m)),
{
    reveal_strlit("0");
    reveal_strlit("<duration>");
    reveal_strlit("</duration>");
    reveal_strlit("/>");
    reveal_strlit("/><duration>0</duration>");
    assert(decimal(0) =~= "0"@);
    assert(element("duration"@, decimal(0)) == "<"@ + "duration"@ + ">"@ + "0"@ + "</"@
        + "duration"@ + ">"@);
    reveal_strlit("<");
    reveal_strlit(">");
    reveal_strlit("</");
    reveal_strlit("duration");
    assert("/>"@ + ("<"@ + "duration"@ + ">"@ + "0"@ + "</"@ + "duration"@ + ">"@)
        =~= "/><duration>0</duration>"@);
    assert(mode_request(command, m, 0).1 =~= permanent_mode_payload(m));
}

/// Bootstrap applies each mode override of the profile with its own command
/// and the profile's value for that key: `set_run_mode`, `set_network_mode`
/// and `set_gpu_mode` are sent, permanently, exactly for the modes the
/// profile sets.
pub proof fn lemma_plan_applies_each_mode(p: ProfileView, inputs: EnvInputsView)
    ensures
        ({
            let reqs = plan_requests(Some(p), inputs);
            &&& match p.run_mode {
                Some(m) => has_request(reqs, "set_run_mode"@, permanent_mode_payload(m)),
                None => !has_command(reqs, "set_run_mode"@),
            }
            &&& match p.network_mode {
                Some(m) => has_request(reqs, "set_network_mode"@, permanent_mode_payload(m)),
                None => !has_command(reqs, "set_network_mode"@),
            }
            &&& match p.gpu_mode {
                Some(m) => has_request(reqs, "set_gpu_mode"@, permanent_mode_payload(m)),
                None => !has_command(reqs, "set_gpu_mode"@),
            }
        }),
{
    let a = attach_requests(dedupe(candidates(Some(p), inputs)));
    let r = opt_mode_request("set_run_mode"@, p.run_mode);
    let n = opt_mode_request("set_network_mode"@, p.network_mode);
    let g = opt_mode_request("set_gpu_mode"@, p.gpu_mode);
    let reqs = plan_requests(Some(p), inputs);
    assert(reqs =~= a + r + n + g);
    lemma_attach_requests_commands(dedupe(candidates(Some(p), inputs)));
    reveal_strlit("set_run_mode");
    reveal_strlit("set_network_mode");
    reveal_strlit("set_gpu_mode");
    reveal_strlit("project_attach");
    reveal_strlit("project_update");
    let cmds = seq!["set_run_mode"@, "set_network_mode"@, "set_gpu_mode"@];
    assert("set_run_mode"@ != "set_gpu_mode"@) by {
        assert("set_run_mode"@[4] != "set_gpu_mode"@[4]);
    }
    assert("set_run_mode"@ != "set_network_mode"@) by {
        assert("set_run_mode"@.len() != "set_network_mode"@.len());
    }
    assert("set_gpu_mode"@ != "set_network_mode"@) by {
        assert("set_gpu_mode"@.len() != "set_network_mode"@.len());
    }
    assert forall|c: Seq<char>| #[trigger] cmds.contains(c) implies c != "project_attach"@ && c
        != "project_update"@ by {
        assert(c.len() != 14 || c[4] != "project_attach"@[4]);
        assert(c.len() != 14 || c[4] != "project_update"@[4]);
    }
    assert(cmds[0] == "set_run_mode"@ && cmds[1] == "set_network_mode"@ && cmds[2] == "set_gpu_mode"@);
    assert(cmds.contains("set_run_mode"@) && cmds.contains("set_network_mode"@) && cmds.contains("set_gpu_mode"@));
    if let Some(m) = p.run_mode {
        lemma_mode_request_payload("set_run_mode"@, m);
        assert(reqs[a.len() as int] == r[0]);
    }
    if let Some(m) = p.network_mode {
        lemma_mode_request_payload("set_network_mode"@, m);
        assert(reqs[(a.len() + r.len()) as int] == n[0]);
    }
    if let Some(m) = p.gpu_mode {
        lemma_mode_request_payload("set_gpu_mode"@, m);
        assert(reqs[(a.len() + r.len() + n.len()) as int] == g[0]);
    }
    assert forall|k: int| 0 <= k < reqs.len() implies ({
        let c = (#[trigger] reqs[k]).0;
        &&& c == "set_run_mode"@ ==> p.run_mode is Some
        &&& c == "set_network_mode"@ ==> p.network_mode is Some
        &&& c == "set_gpu_mode"@ ==> p.gpu_mode is Some
    }) by {
        if k < a.len() {
            assert(reqs[k] == a[k]);
        } else if k < a.len() + r.len() {
            assert(reqs[k] == r[k - a.len()]);
        } else if k < a.len() + r.len() + n.len() {
            assert(reqs[k] == n[k - a.len() - r.len()]);
        } else {
            assert(reqs[k] == g[k - a.len() - r.len() - n.len()]);
        }
    }
}

} // verus!
