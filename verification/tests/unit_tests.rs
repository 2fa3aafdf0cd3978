use boincrs::app::reconnect::backoff_delay;
use boincrs::boinc::bootstrap::{
    dedupe_by_url, parse_template_pair, parse_url_pair, split_pairs, AttachProject,
};
use boincrs::boinc::models::RunMode;
use boincrs::boinc::profiles::{parse_profile, AttachEntry, PresetProfile, ProfileError};
use boincrs::boinc::templates::{
    all_templates, find_template, resolve_template, validate_project_url, TemplateError,
};

const MAX_MS: u64 = 30_000;
const MIN_MS: u64 = 500;

// ── reconnect ───────────────────────────────────────────────────────────────

#[test]
fn delay_increases_with_attempt() {
    let d1 = backoff_delay(1).as_millis();
    let d3 = backoff_delay(3).as_millis();
    let d6 = backoff_delay(6).as_millis();
    assert!(d1 < d3, "delay should grow: {d1} < {d3}");
    assert!(d3 < d6, "delay should grow: {d3} < {d6}");
}

#[test]
fn delay_is_bounded() {
    for attempt in 1..=20 {
        let d = backoff_delay(attempt).as_millis();
        assert!(
            d <= MAX_MS as u128 + MAX_MS as u128 / 4,
            "delay exceeded max bound at attempt {attempt}: {d}ms"
        );
        assert!(
            d >= MIN_MS as u128,
            "delay below min at attempt {attempt}: {d}ms"
        );
    }
}

#[test]
fn attempt_zero_is_safe() {
    let d = backoff_delay(0).as_millis();
    assert!(d >= MIN_MS as u128);
}

// ── bootstrap ───────────────────────────────────────────────────────────────

#[test]
fn parse_template_pair_resolves_slug() {
    let ap = parse_template_pair("primegrid|ABC").expect("valid");
    assert_eq!(ap.url, "https://www.primegrid.com/");
    assert_eq!(ap.account_key, "ABC");
}

#[test]
fn parse_template_pair_rejects_unknown_slug_with_hint() {
    let err = parse_template_pair("not-a-project|KEY").expect_err("unknown");
    assert!(err.contains("Known:"));
}

#[test]
fn parse_template_pair_rejects_missing_parts() {
    assert!(parse_template_pair("primegrid").is_err());
    assert!(parse_template_pair("|KEY").is_err());
    assert!(parse_template_pair("primegrid|").is_err());
}

#[test]
fn parse_url_pair_validates_url() {
    let ap = parse_url_pair("https://example.org/boinc/|KEY").expect("valid");
    assert_eq!(ap.url, "https://example.org/boinc/");
    assert!(parse_url_pair("not-a-url|KEY").is_err());
    assert!(parse_url_pair("https://example.org/|").is_err());
}

#[test]
fn split_pairs_trims_and_ignores_empty() {
    let v = split_pairs("a|1 ; ; b|2 ;");
    assert_eq!(v, vec!["a|1".to_string(), "b|2".to_string()]);
}

#[test]
fn dedupe_by_url_keeps_first_occurrence() {
    let mut list = vec![
        AttachProject {
            url: "u1".to_string(),
            account_key: "k1".to_string(),
        },
        AttachProject {
            url: "u1".to_string(),
            account_key: "k2".to_string(),
        },
        AttachProject {
            url: "u2".to_string(),
            account_key: "k3".to_string(),
        },
    ];
    dedupe_by_url(&mut list);
    assert_eq!(list.len(), 2);
    assert_eq!(list[0].account_key, "k1");
    assert_eq!(list[1].url, "u2");
}

// ── profiles ────────────────────────────────────────────────────────────────

#[test]
fn parse_minimal_attach_profile() {
    let text = "
        # a profile
        name = home-desktop
        attach = primegrid|KEY_A
        attach = https://asteroidsathome.net/boinc/|KEY_B
    ";
    let p = parse_profile(text).expect("should parse");
    assert_eq!(p.name, "home-desktop");
    assert_eq!(p.attach.len(), 2);
    assert_eq!(p.attach[0].url, "https://www.primegrid.com/");
    assert_eq!(p.attach[0].account_key, "KEY_A");
    assert_eq!(p.attach[1].url, "https://asteroidsathome.net/boinc/");
}

#[test]
fn parse_modes() {
    let text = "
        name = laptop
        run_mode = auto
        network_mode = never
        gpu_mode = always
    ";
    let p = parse_profile(text).expect("should parse");
    assert_eq!(p.run_mode, Some(RunMode::Auto));
    assert_eq!(p.network_mode, Some(RunMode::Never));
    assert_eq!(p.gpu_mode, Some(RunMode::Always));
}

#[test]
fn rejects_missing_name() {
    let err = parse_profile("run_mode = auto").expect_err("no name");
    assert!(matches!(err, ProfileError::MissingName));
}

#[test]
fn rejects_empty_profile() {
    let err = parse_profile("name = foo").expect_err("empty");
    match err {
        ProfileError::EmptyProfile(name) => assert_eq!(name, "foo"),
        other => panic!("expected EmptyProfile, got {other:?}"),
    }
}

#[test]
fn rejects_invalid_run_mode_with_line_info() {
    let err = parse_profile("name=foo\nrun_mode = sometimes").expect_err("bad mode");
    match err {
        ProfileError::InvalidValue { line, key, .. } => {
            assert_eq!(line, 2);
            assert_eq!(key, "run_mode");
        }
        other => panic!("expected InvalidValue, got {other:?}"),
    }
}

#[test]
fn rejects_unknown_key() {
    let err = parse_profile("name=foo\nbogus = 1").expect_err("unknown");
    match err {
        ProfileError::UnknownKey { line, key } => {
            assert_eq!(line, 2);
            assert_eq!(key, "bogus");
        }
        other => panic!("expected UnknownKey, got {other:?}"),
    }
}

#[test]
fn rejects_malformed_attach() {
    let err = parse_profile("name=foo\nattach = primegrid").expect_err("missing key");
    match err {
        ProfileError::MalformedAttach { line } => assert_eq!(line, 2),
        other => panic!("expected MalformedAttach, got {other:?}"),
    }
}

#[test]
fn rejects_unknown_template_in_attach() {
    let err = parse_profile("name=foo\nattach = not-real|KEY").expect_err("unknown template");
    match err {
        ProfileError::UnknownTemplate { line, .. } => assert_eq!(line, 2),
        other => panic!("expected UnknownTemplate, got {other:?}"),
    }
}

#[test]
fn rejects_invalid_name() {
    let err = PresetProfile::new("bad name!").expect_err("invalid");
    assert!(matches!(err, ProfileError::InvalidName(_)));
}

#[test]
fn round_trips_through_text() {
    let mut p = PresetProfile::new("round-trip").expect("valid");
    p.run_mode = Some(RunMode::Always);
    p.gpu_mode = Some(RunMode::Never);
    p.attach.push(AttachEntry {
        url: "https://www.primegrid.com/".to_string(),
        account_key: "KEY".to_string(),
    });
    let text = p.to_text();
    let parsed = parse_profile(&text).expect("round-trip parse");
    assert_eq!(parsed, p);
}

// ── templates ───────────────────────────────────────────────────────────────

#[test]
fn registry_slugs_are_unique_and_kebab_case() {
    let mut seen: Vec<&str> = Vec::new();
    for t in all_templates() {
        assert!(
            !seen.contains(&t.slug),
            "duplicate slug in registry: {}",
            t.slug
        );
        seen.push(t.slug);
        assert!(
            t.slug.chars().all(|c| c.is_ascii_lowercase() || c == '-'),
            "slug must be kebab-case ascii: {}",
            t.slug
        );
        assert!(
            t.url.starts_with("https://") || t.url.starts_with("http://"),
            "template {} has non-http URL {}",
            t.slug,
            t.url
        );
    }
    assert!(seen.len() >= 8, "need a meaningful set of templates");
}

#[test]
fn find_template_is_case_insensitive_and_trims() {
    assert!(find_template("primegrid").is_some());
    assert!(find_template("  PRIMEGRID  ").is_some());
    assert!(find_template("unknownproject").is_none());
}

#[test]
fn resolve_template_returns_url_for_known_slug() {
    let url = resolve_template("asteroids").expect("known slug");
    assert_eq!(url, "https://asteroidsathome.net/boinc/");
}

#[test]
fn resolve_template_accepts_valid_url_passthrough() {
    let url = resolve_template("https://boinc.example.org/project/").expect("valid url");
    assert_eq!(url, "https://boinc.example.org/project/");
}

#[test]
fn resolve_template_rejects_empty_input() {
    assert!(matches!(
        resolve_template("   "),
        Err(TemplateError::EmptyInput)
    ));
}

#[test]
fn resolve_template_reports_unknown_slug_with_hint() {
    let err = resolve_template("not-a-real-project").expect_err("unknown");
    match err {
        TemplateError::UnknownSlug(input, known) => {
            assert_eq!(input, "not-a-real-project");
            assert!(known.contains("primegrid"));
        }
        other => panic!("expected UnknownSlug, got {other:?}"),
    }
}

#[test]
fn validate_project_url_requires_scheme_and_host() {
    assert!(validate_project_url("https://boinc.example.org/").is_ok());
    assert!(matches!(
        validate_project_url("boinc.example.org"),
        Err(TemplateError::InvalidUrl(_, _))
    ));
    assert!(matches!(
        validate_project_url("https://nodothost/"),
        Err(TemplateError::InvalidUrl(_, _))
    ));
    assert!(matches!(
        validate_project_url("https://has space.org/"),
        Err(TemplateError::InvalidUrl(_, _))
    ));
    assert!(matches!(
        validate_project_url(""),
        Err(TemplateError::EmptyInput)
    ));
}
