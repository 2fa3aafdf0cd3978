//! Curated project attach templates.
//!
//! A small registry of well-known BOINC projects with their canonical master
//! URLs. Callers supply a slug (e.g. `primegrid`) together with an account
//! key, and the bootstrap layer uses [`resolve_template`] to recover the URL.
use vstd::prelude::*;

use crate::text::{
    cat, chars_eq, debug_quoted, debug_str, find_char_exec, find_char_from, find_exec, find_from,
    from_chars, is_ws, join, lemma_find_char_props, lemma_trim_idempotent, lower, lower_exec,
    starts_with, starts_with_exec, string_of, to_chars, trim, trim_chars,
};

verus! {

/// A documented BOINC project that users can attach by slug.
#[derive(Debug, Clone, Copy)]
pub struct ProjectTemplate {
    /// Short kebab-case identifier used in config (`primegrid`).
    pub slug: &'static str,
    /// Display name shown to the user (`PrimeGrid`).
    pub name: &'static str,
    /// Canonical BOINC master URL used in `project_attach`.
    pub url: &'static str,
    /// One-line description.
    pub summary: &'static str,
    /// Category tags (`math`, `biology`, ...).
    pub categories: &'static [&'static str],
}

/// The mathematical content of a [`ProjectTemplate`].
pub struct TemplateView {
    pub slug: Seq<char>,
    pub name: Seq<char>,
    pub url: Seq<char>,
    pub summary: Seq<char>,
    pub categories: Seq<Seq<char>>,
}

impl View for ProjectTemplate {
    type V = TemplateView;

    open spec fn view(&self) -> TemplateView {
        TemplateView {
            slug: self.slug@,
            name: self.name@,
            url: self.url@,
            summary: self.summary@,
            categories: self.categories@.map_values(|c: &str| c@),
        }
    }
}

/// Errors produced when resolving or validating a template input.
#[derive(Debug)]
pub enum TemplateError {
    /// The provided slug / URL does not match any well-known template:
    /// the input, and the comma-separated list of known slugs.
    UnknownSlug(String, String),
    /// The input string was empty after trimming.
    EmptyInput,
    /// A free-form URL was supplied but it is not a valid BOINC master URL:
    /// the URL, and the rule it violated.
    InvalidUrl(String, &'static str),
}

/// The mathematical content of a [`TemplateError`].
pub enum TemplateErrorView {
    UnknownSlug(Seq<char>, Seq<char>),
    EmptyInput,
    InvalidUrl(Seq<char>, Seq<char>),
}

impl View for TemplateError {
    type V = TemplateErrorView;

    open spec fn view(&self) -> TemplateErrorView {
        match self {
            TemplateError::UnknownSlug(a, b) => TemplateErrorView::UnknownSlug(a@, b@),
            TemplateError::EmptyInput => TemplateErrorView::EmptyInput,
            TemplateError::InvalidUrl(a, b) => TemplateErrorView::InvalidUrl(a@, b@),
        }
    }
}

/// The view of a template with the given fields.
pub open spec fn tv(
    slug: &str,
    name: &str,
    url: &str,
    summary: &str,
    categories: Seq<&str>,
) -> TemplateView {
    TemplateView {
        slug: slug@,
        name: name@,
        url: url@,
        summary: summary@,
        categories: categories.map_values(|c: &str| c@),
    }
}

/// The curated registry, alphabetical by slug.
pub open spec fn registry() -> Seq<TemplateView> {
    seq![
        tv("asteroids", "Asteroids@home", "https://asteroidsathome.net/boinc/",
            "Determines shapes and spin states of asteroids.", seq!["astronomy", "physics"]),
        tv("einstein", "Einstein@Home", "https://einsteinathome.org/",
            "Searches for neutron stars using gravitational-wave and radio data.",
            seq!["astronomy", "physics"]),
        tv("gpugrid", "GPUGRID", "https://www.gpugrid.net/",
            "Molecular dynamics simulations accelerated on GPUs.", seq!["biology", "gpu"]),
        tv("lhc", "LHC@home", "https://lhcathome.cern.ch/lhcathome/",
            "Simulations in support of CERN's Large Hadron Collider.", seq!["physics"]),
        tv("milkyway", "Milkyway@Home", "https://milkyway.cs.rpi.edu/milkyway/",
            "Models the 3D structure of the Milky Way galaxy.", seq!["astronomy"]),
        tv("primegrid", "PrimeGrid", "https://www.primegrid.com/",
            "Searches for large prime numbers of mathematical interest.",
            seq!["math", "prime-numbers"]),
        tv("rosetta", "Rosetta@home", "https://boinc.bakerlab.org/rosetta/",
            "Protein structure prediction for disease research.", seq!["biology", "medicine"]),
        tv("seti", "SETI-like (Cosmology@Home)", "https://www.cosmologyathome.org/",
            "Cosmological model parameter estimation.", seq!["astronomy", "cosmology"]),
        tv("worldcommunitygrid", "World Community Grid", "https://www.worldcommunitygrid.org/",
            "Humanitarian research spanning climate, health, and disease.",
            seq!["biology", "climate", "medicine"]),
        tv("yoyo", "yoyo@home", "https://www.rechenkraft.net/yoyo/",
            "Umbrella project hosting several scientific subprojects.", seq!["umbrella"]),
    ]
}

fn template(
    slug: &'static str,
    name: &'static str,
    url: &'static str,
    summary: &'static str,
    categories: &'static [&'static str],
) -> (r: ProjectTemplate)
    ensures
        r@ == tv(slug, name, url, summary, categories@),
{
    ProjectTemplate { slug, name, url, summary, categories }
}

/// Returns the curated registry of well-known BOINC projects, alphabetical by slug.
pub fn all_templates() -> (r: Vec<ProjectTemplate>)
    ensures
        r@.len() == registry().len(),
        forall|i: int| 0 <= i < r@.len() ==> #[trigger] r@[i]@ == registry()[i],
{
    let c0: &'static [&'static str] = &["astronomy", "physics"];
    assert(c0@ =~= seq!["astronomy", "physics"]);
    let c1: &'static [&'static str] = &["astronomy", "physics"];
    assert(c1@ =~= seq!["astronomy", "physics"]);
    let c2: &'static [&'static str] = &["biology", "gpu"];
    assert(c2@ =~= seq!["biology", "gpu"]);
    let c3: &'static [&'static str] = &["physics"];
    assert(c3@ =~= seq!["physics"]);
    let c4: &'static [&'static str] = &["astronomy"];
    assert(c4@ =~= seq!["astronomy"]);
    let c5: &'static [&'static str] = &["math", "prime-numbers"];
    assert(c5@ =~= seq!["math", "prime-numbers"]);
    let c6: &'static [&'static str] = &["biology", "medicine"];
    assert(c6@ =~= seq!["biology", "medicine"]);
    let c7: &'static [&'static str] = &["astronomy", "cosmology"];
    assert(c7@ =~= seq!["astronomy", "cosmology"]);
    let c8: &'static [&'static str] = &["biology", "climate", "medicine"];
    assert(c8@ =~= seq!["biology", "climate", "medicine"]);
    let c9: &'static [&'static str] = &["umbrella"];
    assert(c9@ =~= seq!["umbrella"]);
    let mut v: Vec<ProjectTemplate> = Vec::new();
    v.push(template("asteroids", "Asteroids@home", "https://asteroidsathome.net/boinc/",
        "Determines shapes and spin states of asteroids.", c0));
    v.push(template("einstein", "Einstein@Home", "https://einsteinathome.org/",
        "Searches for neutron stars using gravitational-wave and radio data.",
        c1));
    v.push(template("gpugrid", "GPUGRID", "https://www.gpugrid.net/",
        "Molecular dynamics simulations accelerated on GPUs.", c2));
    v.push(template("lhc", "LHC@home", "https://lhcathome.cern.ch/lhcathome/",
        "Simulations in support of CERN's Large Hadron Collider.", c3));
    v.push(template("milkyway", "Milkyway@Home", "https://milkyway.cs.rpi.edu/milkyway/",
        "Models the 3D structure of the Milky Way galaxy.", c4));
    v.push(template("primegrid", "PrimeGrid", "https://www.primegrid.com/",
        "Searches for large prime numbers of mathematical interest.",
        c5));
    v.push(template("rosetta", "Rosetta@home", "https://boinc.bakerlab.org/rosetta/",
        "Protein structure prediction for disease research.", c6));
    v.push(template("seti", "SETI-like (Cosmology@Home)", "https://www.cosmologyathome.org/",
        "Cosmological model parameter estimation.", c7));
    v.push(template("worldcommunitygrid", "World Community Grid",
        "https://www.worldcommunitygrid.org/",
        "Humanitarian research spanning climate, health, and disease.",
        c8));
    v.push(template("yoyo", "yoyo@home", "https://www.rechenkraft.net/yoyo/",
        "Umbrella project hosting several scientific subprojects.", c9));
    v
}


/// Index of the first registry entry whose slug is `needle`.
pub open spec fn find_slug(reg: Seq<TemplateView>, needle: Seq<char>, i: int) -> Option<int>
    decreases reg.len() - i,
{
    if i < 0 || i >= reg.len() {
        None
    } else if reg[i].slug == needle {
        Some(i)
    } else {
        find_slug(reg, needle, i + 1)
    }
}

/// The template that `find_template(slug)` returns: the registry entry whose
/// slug equals the trimmed, ASCII-lowercased input.
pub open spec fn template_for(slug: Seq<char>) -> Option<TemplateView> {
    match find_slug(registry(), lower(trim(slug)), 0) {
        Some(i) => Some(registry()[i]),
        None => None,
    }
}

/// Looks up a template by exact slug match (case-insensitive, surrounding
/// whitespace ignored).
pub fn find_template(slug: &str) -> (r: Option<ProjectTemplate>)
    ensures
        match template_for(slug@) {
            Some(t) => r matches Some(x) && x@ == t,
            None => r is None,
        },
{
    let raw = to_chars(slug);
    let trimmed = trim_chars(&raw);
    let needle = lower_exec(&trimmed);
    let all = all_templates();
    let mut i: usize = 0;
    while i < all.len()
        invariant
            all@.len() == registry().len(),
            forall|k: int| 0 <= k < all@.len() ==> #[trigger] all@[k]@ == registry()[k],
            needle@ == lower(trim(slug@)),
            i <= all@.len(),
            find_slug(registry(), needle@, i as int) == find_slug(registry(), needle@, 0),
        decreases all@.len() - i,
    {
        let t = all[i];
        let cand = to_chars(t.slug);
        assert(t@ == registry()[i as int]);
        assert(cand@ == registry()[i as int].slug);
        if chars_eq(&needle, &cand) {
            return Some(t);
        }
        i = i + 1;
    }
    None
}

/// The input names a URL rather than a slug.
pub open spec fn looks_like_url(s: Seq<char>) -> bool {
    starts_with(s, "http://"@) || starts_with(s, "https://"@)
}

/// Returns `true` when `s` starts with `http://` or `https://`.
fn looks_like_url_exec(s: &[char]) -> (r: bool)
    ensures
        r == looks_like_url(s@),
{
    let http = to_chars("http://");
    let https = to_chars("https://");
    starts_with_exec(s, &http) || starts_with_exec(s, &https)
}

/// The host part of a URL: what follows the first `://`, up to the first `/`.
pub open spec fn url_host(t: Seq<char>) -> Seq<char> {
    let after = match find_from(t, "://"@, 0) {
        Some(k) => t.skip(k + "://"@.len()),
        None => Seq::empty(),
    };
    match find_char_from(after, '/', 0) {
        Some(j) => after.take(j),
        None => after,
    }
}

/// `c` occurs in `s`.
pub open spec fn holds(s: Seq<char>, c: char) -> bool {
    find_char_from(s, c, 0) is Some
}

/// What `validate_project_url` decides for `url`.
pub open spec fn validate_url_spec(url: Seq<char>) -> Result<(), TemplateErrorView> {
    let t = trim(url);
    if t.len() == 0 {
        Err(TemplateErrorView::EmptyInput)
    } else if !looks_like_url(t) {
        Err(TemplateErrorView::InvalidUrl(t, "must start with http:// or https://"@))
    } else if holds(t, ' ') || holds(t, '\t') {
        Err(TemplateErrorView::InvalidUrl(t, "must not contain whitespace"@))
    } else if url_host(t).len() == 0 || !holds(url_host(t), '.') {
        Err(TemplateErrorView::InvalidUrl(t, "host must contain a dot (e.g. example.org)"@))
    } else {
        Ok(())
    }
}

/// Validates that `url` looks like a reasonable BOINC project master URL:
/// after trimming it is non-empty, starts with `http://` or `https://`, has
/// no space or tab, and its host contains a dot.
pub fn validate_project_url(url: &str) -> (r: Result<(), TemplateError>)
    ensures
        match validate_url_spec(url@) {
            Ok(_) => r is Ok,
            Err(e) => r matches Err(x) && x@ == e,
        },
{
    let raw = to_chars(url);
    let t = trim_chars(&raw);
    if t.len() == 0 {
        return Err(TemplateError::EmptyInput);
    }
    if !looks_like_url_exec(&t) {
        return Err(TemplateError::InvalidUrl(from_chars(&t), "must start with http:// or https://"));
    }
    if find_char_exec(&t, ' ', 0).is_some() || find_char_exec(&t, '\t', 0).is_some() {
        return Err(TemplateError::InvalidUrl(from_chars(&t), "must not contain whitespace"));
    }
    let sep = to_chars("://");
    let after: Vec<char> = match find_exec(&t, &sep, 0) {
        Some(k) => {
            proof {
                crate::text::lemma_find_from_props(t@, sep@, 0);
            }
            crate::text::slice_of(&t, k + sep.len(), t.len())
        },
        None => Vec::new(),
    };
    let host: Vec<char> = match find_char_exec(&after, '/', 0) {
        Some(j) => {
            proof {
                lemma_find_char_props(after@, '/', 0);
            }
            crate::text::slice_of(&after, 0, j)
        },
        None => after,
    };
    if host.len() == 0 || find_char_exec(&host, '.', 0).is_none() {
        return Err(TemplateError::InvalidUrl(from_chars(&t), "host must contain a dot (e.g. example.org)"));
    }
    Ok(())
}

/// The comma-separated list of known slugs used in error hints.
pub open spec fn known_slugs() -> Seq<char> {
    join(registry().map_values(|t: TemplateView| t.slug), ", "@)
}

/// Returns `known_slugs()`.
fn known_slugs_exec() -> (r: String)
    ensures
        r@ == known_slugs(),
{
    let all = all_templates();
    let ghost slugs = registry().map_values(|t: TemplateView| t.slug);
    let mut out = String::new();
    let mut i: usize = 0;
    while i < all.len()
        invariant
            all@.len() == registry().len(),
            forall|k: int| 0 <= k < all@.len() ==> #[trigger] all@[k]@ == registry()[k],
            slugs == registry().map_values(|t: TemplateView| t.slug),
            i <= all@.len(),
            out@ == join(slugs.take(i as int), ", "@),
        decreases all@.len() - i,
    {
        if i > 0 {
            out = cat(out, ", ");
        }
        out = cat(out, all[i].slug);
        i = i + 1;
        assert(slugs.take(i as int).drop_last() =~= slugs.take((i - 1) as int));
        assert(slugs.take(i as int).last() == all@[i - 1]@.slug);
        assert(i == 1 ==> out@ == slugs.take(i as int)[0]);
    }
    assert(slugs.take(all@.len() as int) =~= slugs);
    out
}

/// What `resolve_template` returns for `input`.
pub open spec fn resolve_spec(input: Seq<char>) -> Result<Seq<char>, TemplateErrorView> {
    let t = trim(input);
    if t.len() == 0 {
        Err(TemplateErrorView::EmptyInput)
    } else if looks_like_url(t) {
        match validate_url_spec(t) {
            Ok(_) => Ok(t),
            Err(e) => Err(e),
        }
    } else {
        match template_for(t) {
            Some(x) => Ok(x.url),
            None => Err(TemplateErrorView::UnknownSlug(t, known_slugs())),
        }
    }
}

/// Resolves a user-supplied project reference to a canonical master URL.
///
/// Accepts either a slug from [`all_templates`] or a fully qualified master
/// URL, which is validated with [`validate_project_url`] and passed through.
pub fn resolve_template(input: &str) -> (r: Result<String, TemplateError>)
    ensures
        match resolve_spec(input@) {
            Ok(u) => r matches Ok(x) && x@ == u,
            Err(e) => r matches Err(x) && x@ == e,
        },
{
    let raw = to_chars(input);
    let t = trim_chars(&raw);
    if t.len() == 0 {
        return Err(TemplateError::EmptyInput);
    }
    let ts = from_chars(&t);
    if looks_like_url_exec(&t) {
        proof {
            lemma_trim_idempotent(input@);
        }
        match validate_project_url(ts.as_str()) {
            Ok(()) => return Ok(ts),
            Err(e) => return Err(e),
        }
    }
    proof {
        lemma_trim_idempotent(input@);
    }
    match find_template(ts.as_str()) {
        Some(x) => Ok(string_of(x.url)),
        None => Err(TemplateError::UnknownSlug(ts, known_slugs_exec())),
    }
}


/// A character allowed in a slug: lowercase ASCII letter or `-`.
pub open spec fn is_kebab_char(c: char) -> bool {
    ('a' <= c && c <= 'z') || c == '-'
}

/// Registry invariant: slugs are non-empty kebab-case ASCII and pairwise
/// distinct, so a slug names at most one template; every master URL is an
/// `http://` or `https://` URL.
pub proof fn lemma_registry_slugs_unique_and_kebab()
    ensures
        forall|i: int| 0 <= i < registry().len() ==> looks_like_url(#[trigger] registry()[i].url),
        registry().len() >= 8,
        forall|i: int, j: int|
            0 <= i < j < registry().len() ==> registry()[i].slug != registry()[j].slug,
        forall|i: int, k: int|
            0 <= i < registry().len() && 0 <= k < registry()[i].slug.len() ==> is_kebab_char(
                #[trigger] registry()[i].slug[k],
            ),
        forall|i: int| 0 <= i < registry().len() ==> registry()[i].slug.len() > 0,
{
    {
        reveal_strlit("asteroids");
        reveal_strlit("einstein");
        reveal_strlit("gpugrid");
        reveal_strlit("lhc");
        reveal_strlit("milkyway");
        reveal_strlit("primegrid");
        reveal_strlit("rosetta");
        reveal_strlit("seti");
        reveal_strlit("worldcommunitygrid");
        reveal_strlit("yoyo");
    }
    assert forall|i: int| 0 <= i < registry().len() implies looks_like_url(
        #[trigger] registry()[i].url,
    ) by {
        reveal_strlit("https://");
        reveal_strlit("https://asteroidsathome.net/boinc/");
        reveal_strlit("https://einsteinathome.org/");
        reveal_strlit("https://www.gpugrid.net/");
        reveal_strlit("https://lhcathome.cern.ch/lhcathome/");
        reveal_strlit("https://milkyway.cs.rpi.edu/milkyway/");
        reveal_strlit("https://www.primegrid.com/");
        reveal_strlit("https://boinc.bakerlab.org/rosetta/");
        reveal_strlit("https://www.cosmologyathome.org/");
        reveal_strlit("https://www.worldcommunitygrid.org/");
        reveal_strlit("https://www.rechenkraft.net/yoyo/");
        assert(registry()[i].url.take(8) =~= "https://"@);
    }
    assert forall|i: int, j: int|
        0 <= i < j < registry().len() implies registry()[i].slug != registry()[j].slug by {
        if registry()[i].slug == registry()[j].slug {
            assert(registry()[i].slug.len() == registry()[j].slug.len());
            assert(registry()[i].slug[0] == registry()[j].slug[0]);
            assert(registry()[i].slug[1] == registry()[j].slug[1]);
        }
    }
}


impl TemplateErrorView {
    /// The human-readable message of the error.
    pub open spec fn message(self) -> Seq<char> {
        match self {
            TemplateErrorView::UnknownSlug(input, known) => "unknown project template: "@
                + debug_str(input) + ". Known slugs: "@ + known,
            TemplateErrorView::EmptyInput => "project template reference was empty"@,
            TemplateErrorView::InvalidUrl(url, reason) => "invalid project URL "@ + debug_str(url)
                + ": "@ + reason,
        }
    }
}

impl TemplateError {
    /// Renders the error message (what `Display` shows).
    pub fn to_string(&self) -> (r: String)
        ensures
            r@ == self@.message(),
    {
        match self {
            TemplateError::UnknownSlug(input, known) => {
                let r = cat(string_of("unknown project template: "), debug_quoted(input.as_str()).as_str());
                let r = cat(r, ". Known slugs: ");
                cat(r, known.as_str())
            },
            TemplateError::EmptyInput => string_of("project template reference was empty"),
            TemplateError::InvalidUrl(url, reason) => {
                let r = cat(string_of("invalid project URL "), debug_quoted(url.as_str()).as_str());
                let r = cat(r, ": ");
                cat(r, reason)
            },
        }
    }
}

// ---------------------------------------------------------------------------
// Resolving is idempotent
// ---------------------------------------------------------------------------

/// An `https://` URL without whitespace whose host (up to the `/` at
/// `host_end`) holds a dot at `dot` is a valid master URL, and trimming
/// leaves it as it is.
proof fn lemma_master_url_valid(u: Seq<char>, dot: int, host_end: int)
    requires
        u.len() > 8,
        u.take(8) == "https://"@,
        forall|j: int| 0 <= j < u.len() ==> !is_ws(#[trigger] u[j]),
        8 < dot < host_end < u.len(),
        u[dot] == '.',
        u[host_end] == '/',
        forall|j: int| 8 <= j < host_end ==> #[trigger] u[j] != '/',
    ensures
        trim(u) == u,
        validate_url_spec(u) == Ok::<(), TemplateErrorView>(()),
{
    reveal_strlit("https://");
    reveal_strlit("http://");
    reveal_strlit("://");
    crate::text::lemma_trim_noop(u);
    assert(u[0] == 'h' && u[1] == 't' && u[2] == 't' && u[3] == 'p' && u[4] == 's');
    assert(u[5] == ':' && u[6] == '/' && u[7] == '/');
    assert(starts_with(u, "https://"@));
    crate::text::lemma_find_char_props(u, ' ', 0);
    crate::text::lemma_find_char_props(u, '\t', 0);
    assert(!holds(u, ' ')) by {
        if holds(u, ' ') {
            let k = find_char_from(u, ' ', 0)->0;
            assert(is_ws(u[k]));
        }
    }
    assert(!holds(u, '\t')) by {
        if holds(u, '\t') {
            let k = find_char_from(u, '\t', 0)->0;
            assert(is_ws(u[k]));
        }
    }
    assert forall|j: int| 0 <= j < 5 implies !crate::text::matches_at(u, "://"@, j) by {
        if crate::text::matches_at(u, "://"@, j) {
            assert(u.subrange(j, j + 3)[0] == u[j]);
        }
    }
    assert(crate::text::matches_at(u, "://"@, 5)) by {
        assert(u.subrange(5, 8) =~= "://"@);
    }
    crate::text::lemma_find_from_skip(u, "://"@, 0, 5);
    assert(find_from(u, "://"@, 0) == Some(5int));
    let after = u.skip(8);
    crate::text::lemma_find_char_is(after, '/', 0, host_end - 8);
    let host = after.take(host_end - 8);
    assert(url_host(u) == host);
    crate::text::lemma_find_char_props(host, '.', 0);
    assert(host[dot - 8] == '.');
    assert(holds(host, '.'));
}

/// Every master URL of the registry is valid and unchanged by trimming.
proof fn lemma_registry_urls_valid(i: int)
    requires
        0 <= i < registry().len(),
    ensures
        trim(registry()[i].url) == registry()[i].url,
        validate_url_spec(registry()[i].url) == Ok::<(), TemplateErrorView>(()),
{
    reveal_strlit("https://");
    let u = registry()[i].url;
    if i == 0 {
        reveal_strlit("https://asteroidsathome.net/boinc/");
        assert(u.take(8) =~= "https://"@);
        lemma_master_url_valid(u, 23, 27);
    } else if i == 1 {
        reveal_strlit("https://einsteinathome.org/");
        assert(u.take(8) =~= "https://"@);
        lemma_master_url_valid(u, 22, 26);
    } else if i == 2 {
        reveal_strlit("https://www.gpugrid.net/");
        assert(u.take(8) =~= "https://"@);
        lemma_master_url_valid(u, 11, 23);
    } else if i == 3 {
        reveal_strlit("https://lhcathome.cern.ch/lhcathome/");
        assert(u.take(8) =~= "https://"@);
        lemma_master_url_valid(u, 17, 25);
    } else if i == 4 {
        reveal_strlit("https://milkyway.cs.rpi.edu/milkyway/");
        assert(u.take(8) =~= "https://"@);
        lemma_master_url_valid(u, 16, 27);
    } else if i == 5 {
        reveal_strlit("https://www.primegrid.com/");
        assert(u.take(8) =~= "https://"@);
        lemma_master_url_valid(u, 11, 25);
    } else if i == 6 {
        reveal_strlit("https://boinc.bakerlab.org/rosetta/");
        assert(u.take(8) =~= "https://"@);
        lemma_master_url_valid(u, 13, 26);
    } else if i == 7 {
        reveal_strlit("https://www.cosmologyathome.org/");
        assert(u.take(8) =~= "https://"@);
        lemma_master_url_valid(u, 11, 31);
    } else if i == 8 {
        reveal_strlit("https://www.worldcommunitygrid.org/");
        assert(u.take(8) =~= "https://"@);
        lemma_master_url_valid(u, 11, 34);
    } else {
        reveal_strlit("https://www.rechenkraft.net/yoyo/");
        assert(u.take(8) =~= "https://"@);
        lemma_master_url_valid(u, 11, 27);
    }
}

/// A found slug index lies inside the registry.
proof fn lemma_find_slug_in_range(reg: Seq<TemplateView>, needle: Seq<char>, i: int)
    ensures
        find_slug(reg, needle, i) matches Some(k) ==> 0 <= k < reg.len(),
    decreases reg.len() - i,
{
    if 0 <= i < reg.len() && reg[i].slug != needle {
        lemma_find_slug_in_range(reg, needle, i + 1);
    }
}

/// Resolving is idempotent: a URL that resolving accepted (from a slug or as
/// a URL) resolves to itself again.
pub proof fn lemma_resolve_idempotent(input: Seq<char>)
    ensures
        resolve_spec(input) matches Ok(u) ==> resolve_spec(u) == Ok::<Seq<char>, TemplateErrorView>(u),
{
    let t = trim(input);
    lemma_trim_idempotent(input);
    if t.len() == 0 {
    } else if looks_like_url(t) {
    } else {
        lemma_find_slug_in_range(registry(), lower(trim(t)), 0);
        match find_slug(registry(), lower(trim(t)), 0) {
            Some(k) => {
                lemma_registry_urls_valid(k);
                lemma_registry_slugs_unique_and_kebab();
                let u = registry()[k].url;
                assert(looks_like_url(u));
                assert(u.len() > 0);
            },
            None => {},
        }
    }
}

/// Any trimmed text that starts with `http://` or `https://`, holds no
/// space or tab, and whose host holds a dot is a valid master URL, and
/// resolving it gives it back.
pub proof fn lemma_http_and_https_urls_accepted(u: Seq<char>)
    requires
        starts_with(trim(u), "http://"@) || starts_with(trim(u), "https://"@),
        forall|j: int| 0 <= j < trim(u).len() ==> #[trigger] trim(u)[j] != ' ' && trim(u)[j] != '\t',
        holds(url_host(trim(u)), '.'),
    ensures
        validate_url_spec(u) == Ok::<(), TemplateErrorView>(()),
        resolve_spec(u) == Ok::<Seq<char>, TemplateErrorView>(trim(u)),
        resolve_spec(trim(u)) == Ok::<Seq<char>, TemplateErrorView>(trim(u)),
{
    let t = trim(u);
    reveal_strlit("http://");
    reveal_strlit("https://");
    assert(t.len() > 0);
    lemma_trim_idempotent(u);
    crate::text::lemma_find_char_props(t, ' ', 0);
    crate::text::lemma_find_char_props(t, '\t', 0);
    assert(looks_like_url(t));
}

} // verus!
