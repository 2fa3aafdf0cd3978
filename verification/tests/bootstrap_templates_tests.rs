use boincrs::boinc::api::write::BoincWriteApi;
use boincrs::boinc::bootstrap::{
    dotenv_entry, parse_template_pair, parse_url_pair, plan_bootstrap, profile_load_error,
    AttachProject, EnvInputs,
};
use boincrs::boinc::models::RunMode;
use boincrs::boinc::profiles::{parse_profile, AttachEntry, PresetProfile, ProfileError};
use boincrs::boinc::rpc_client::{BoincRpcClient, Exchanged, RpcStep};
use boincrs::boinc::templates::{all_templates, find_template, resolve_template};
use boincrs::error::AppError;

const OK_REPLY: &[u8] = b"<boinc_gui_rpc_reply><success/></boinc_gui_rpc_reply>\x03";

fn call_ok(client: &mut BoincRpcClient, command: &str, payload: &str, writes: &mut Vec<Vec<u8>>) -> Result<String, AppError> {
    let (mut call, mut step) = client.start_call(command, payload);
    loop {
        match step {
            RpcStep::Finished(r) => return r,
            RpcStep::Exchange { request, .. } => {
                writes.push(request);
                step = client.step(&mut call, Exchanged { reply: Ok(OK_REPLY.to_vec()), decoded: None });
            }
        }
    }
}

#[test]
fn registry_contains_primegrid_and_asteroids_at_minimum() {
    let slugs: Vec<&str> = all_templates().iter().map(|t| t.slug).collect();
    assert!(slugs.contains(&"primegrid"), "slugs: {slugs:?}");
    assert!(slugs.contains(&"asteroids"), "slugs: {slugs:?}");
}

#[test]
fn template_lookup_trims_and_normalizes_case() {
    let pg = find_template("  PrimeGrid ").expect("should find primegrid");
    assert_eq!(pg.url, "https://www.primegrid.com/");
}

#[test]
fn resolve_template_provides_clear_error_for_typo() {
    let err = resolve_template("primgrid").expect_err("typo should fail");
    let msg = err.to_string();
    assert!(msg.contains("unknown project template"), "msg: {msg}");
    assert!(msg.contains("primegrid"), "msg should hint known slugs: {msg}");
}

#[test]
fn template_pair_round_trip_matches_profile_attach_entry() {
    let ap: AttachProject = parse_template_pair("rosetta|SECRET").expect("valid");
    assert_eq!(ap.url, "https://boinc.bakerlab.org/rosetta/");
    assert_eq!(ap.account_key, "SECRET");
}

#[test]
fn legacy_url_pair_rejects_obvious_typos() {
    assert!(parse_url_pair("htp://example.org/|KEY").is_err());
    assert!(parse_url_pair("https://example.org/|KEY").is_ok());
}

#[test]
fn profile_round_trip_persists_and_restores_preferences() {
    let mut profile = PresetProfile::new("test-profile").expect("valid name");
    profile.run_mode = Some(RunMode::Always);
    profile.network_mode = Some(RunMode::Auto);
    profile.gpu_mode = Some(RunMode::Never);
    profile.attach.push(AttachEntry {
        url: "https://www.primegrid.com/".to_string(),
        account_key: "KEY1".to_string(),
    });
    profile.attach.push(AttachEntry {
        url: "https://asteroidsathome.net/boinc/".to_string(),
        account_key: "KEY2".to_string(),
    });

    let serialized = profile.to_text();
    assert!(serialized.contains("name = test-profile"));
    assert!(serialized.contains("run_mode = always"));
    assert!(serialized.contains("attach = https://www.primegrid.com/|KEY1"));

    let parsed = parse_profile(&serialized).expect("round-trip parse");
    assert_eq!(parsed, profile);
}

#[test]
fn profile_rejects_invalid_modes_with_line_and_key_info() {
    let err = parse_profile("name = foo\nrun_mode = sometimes").expect_err("invalid mode");
    let msg = err.to_string();
    assert!(msg.contains("line 2"), "msg: {msg}");
    assert!(msg.contains("run_mode"), "msg: {msg}");
}

#[test]
fn profile_with_comments_and_blank_lines_parses_cleanly() {
    let text = "
        # top-level comment
        name = laptop
        # attach the first project
        attach = primegrid|ABC   # trailing comment
        run_mode = auto

        # blank line above
        gpu_mode = never
    ";
    let profile = parse_profile(text).expect("should tolerate comments/whitespace");
    assert_eq!(profile.name, "laptop");
    assert_eq!(profile.attach.len(), 1);
    assert_eq!(profile.attach[0].url, "https://www.primegrid.com/");
    assert_eq!(profile.run_mode.map(|m| m.as_boinc_tag()), Some("auto"));
    assert_eq!(profile.gpu_mode.map(|m| m.as_boinc_tag()), Some("never"));
}

#[test]
fn rpc_client_accepts_attach_and_update_calls() {
    let mut client = BoincRpcClient::new(None);
    let mut writes = Vec::new();
    let attach = BoincWriteApi::project_attach("https://www.primegrid.com/", "KEY");
    let _ = call_ok(&mut client, &attach.command, &attach.payload, &mut writes)
        .expect("attach should succeed");
    let update = BoincWriteApi::project_update("https://www.primegrid.com/");
    let _ = call_ok(&mut client, &update.command, &update.payload, &mut writes)
        .expect("update should succeed");
    assert_eq!(writes.len(), 2);
}

// ── bootstrap planning ───────────────────────────────────────────────────────

#[test]
fn env_inputs_from_raw_values() {
    let inputs = EnvInputs::from_env(
        Some("  /tmp/p.profile "),
        Some("PGKEY"),
        Some("   "),
        Some(" rosetta|R ; ;bad "),
        None,
    );
    assert_eq!(inputs.profile_path.as_deref(), Some("/tmp/p.profile"));
    assert_eq!(inputs.well_known, vec![("primegrid".to_string(), "PGKEY".to_string())]);
    assert_eq!(inputs.template_pairs, vec!["rosetta|R".to_string(), "bad".to_string()]);
    assert!(inputs.legacy_url_pairs.is_empty());
}

#[test]
fn plan_attaches_deduplicated_entries_then_applies_modes() {
    let mut profile = PresetProfile::new("desk").expect("name");
    profile.attach.push(AttachEntry {
        url: "https://www.primegrid.com/".to_string(),
        account_key: "FROM_PROFILE".to_string(),
    });
    profile.run_mode = Some(RunMode::Never);
    let inputs = EnvInputs::from_env(
        None,
        Some("FROM_ENV"),
        None,
        Some("nope|K"),
        Some("https://example.org/boinc/|L"),
    );
    let plan = plan_bootstrap(Some(&profile), &inputs);
    let commands: Vec<&str> = plan.requests.iter().map(|r| r.command.as_str()).collect();
    assert_eq!(
        commands,
        vec!["project_attach", "project_update", "project_attach", "project_update", "set_run_mode"]
    );
    assert!(plan.requests[0].payload.contains("FROM_PROFILE"));
    assert_eq!(
        plan.report.attached,
        vec!["https://www.primegrid.com/".to_string(), "https://example.org/boinc/".to_string()]
    );
    assert_eq!(plan.report.skipped.len(), 1);
    assert_eq!(plan.report.skipped[0].0, "nope|K");
    assert_eq!(plan.report.profile_name.as_deref(), Some("desk"));
    assert!(plan.report.applied_run_mode);
    assert!(!plan.report.applied_gpu_mode);
    assert_eq!(
        plan.report.status_line().as_deref(),
        Some("Bootstrap: attached 2 profile:desk skipped:1")
    );
}

#[test]
fn empty_plan_has_no_status_line() {
    let inputs = EnvInputs::from_env(None, None, None, None, None);
    let plan = plan_bootstrap(None, &inputs);
    assert!(plan.requests.is_empty());
    assert_eq!(plan.report.status_line(), None);
}

#[test]
fn dotenv_lines() {
    assert_eq!(
        dotenv_entry("  BOINCRS_PASSWORD = \"'secret'\" "),
        Some(("BOINCRS_PASSWORD".to_string(), "secret".to_string()))
    );
    assert_eq!(dotenv_entry("# comment"), None);
    assert_eq!(dotenv_entry("   "), None);
    assert_eq!(dotenv_entry("NO_EQUALS"), None);
    assert_eq!(dotenv_entry("A=b=c"), Some(("A".to_string(), "b=c".to_string())));
}

#[test]
fn profile_load_errors_become_configuration_errors() {
    match profile_load_error("p.txt", &ProfileError::MissingName) {
        AppError::Config(m) => {
            assert_eq!(m, "failed to load profile p.txt: profile name must not be empty")
        }
        other => panic!("expected a configuration error, got {other:?}"),
    }
}

#[test]
fn error_messages_quote_their_inputs() {
    let err = resolve_template("primgrid").expect_err("typo");
    assert!(err
        .to_string()
        .starts_with("unknown project template: \"primgrid\". Known slugs: asteroids, einstein, "));
    let err = parse_profile("name = foo\njust words").expect_err("malformed");
    match &err {
        ProfileError::MalformedLine { line, raw } => {
            assert_eq!(*line, 2);
            assert_eq!(raw, "just words");
        }
        other => panic!("expected MalformedLine, got {other:?}"),
    }
    assert_eq!(err.to_string(), "line 2: expected 'key = value', got \"just words\"");
    let err = PresetProfile::new("a b").expect_err("invalid");
    assert_eq!(
        err.to_string(),
        "invalid profile name \"a b\": only ASCII letters, digits, '-', '_' allowed"
    );
}

#[test]
fn resolving_an_accepted_url_gives_it_back() {
    for input in ["primegrid", "  ROSETTA ", "https://boinc.example.org/project/", "yoyo"] {
        let url = resolve_template(input).expect("accepted");
        assert_eq!(resolve_template(&url).expect("accepted again"), url);
    }
    for t in all_templates() {
        assert_eq!(resolve_template(t.url).expect("registry URL"), t.url);
    }
}
