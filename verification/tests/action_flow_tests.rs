use boincrs::app::actions::{FocusPane, UserAction};
use boincrs::app::state::{Effect, Targets, ViewState};
use boincrs::boinc::api::write::BoincWriteApi;
use boincrs::boinc::models::RunMode;
use boincrs::boinc::protocol::{compute_nonce_hash, frame_request};
use boincrs::boinc::rpc_client::{BoincRpcClient, Exchanged, ReplyField, RpcStep};
use boincrs::error::AppError;
use boincrs::ui::keymap::{map_key_to_action, KeyCode, KeyEvent};

const OK_REPLY: &[u8] = b"<boinc_gui_rpc_reply><success/></boinc_gui_rpc_reply>\x03";

/// Runs one call against scripted replies, recording what was sent.
fn run_call(
    client: &mut BoincRpcClient,
    command: &str,
    payload: &str,
    replies: &mut Vec<Vec<u8>>,
    writes: &mut Vec<Vec<u8>>,
) -> Result<String, AppError> {
    let (mut call, mut step) = client.start_call(command, payload);
    loop {
        match step {
            RpcStep::Finished(r) => return r,
            RpcStep::Exchange { request, .. } => {
                writes.push(request);
                let reply = if replies.is_empty() {
                    OK_REPLY.to_vec()
                } else {
                    replies.remove(0)
                };
                step = client.step(&mut call, Exchanged { reply: Ok(reply), decoded: None });
            }
        }
    }
}

#[test]
fn write_api_dispatches_project_command() {
    let mut replies = vec![OK_REPLY.to_vec()];
    let mut writes = Vec::new();
    let mut client = BoincRpcClient::new(None);
    let req = BoincWriteApi::project_suspend("https://example.invalid");
    let reply = run_call(&mut client, &req.command, &req.payload, &mut replies, &mut writes)
        .expect("suspend should succeed");
    assert!(reply.contains("boinc_gui_rpc_reply"));
    assert_eq!(
        writes,
        vec![frame_request(
            "<project_suspend><project_url>https://example.invalid</project_url></project_suspend>"
        )]
    );
}

#[test]
fn focus_pane_cycles_all_columns() {
    let pane = FocusPane::Projects.next().next().next();
    assert_eq!(pane, FocusPane::Projects);
}

#[test]
fn focus_pane_cycles_backwards() {
    assert_eq!(FocusPane::Projects.previous(), FocusPane::Transfers);
    assert_eq!(FocusPane::Tasks.previous(), FocusPane::Projects);
}

#[test]
fn destructive_actions_require_confirmation() {
    assert!(UserAction::ProjectReset.is_destructive());
    assert!(UserAction::ProjectDetach.is_destructive());
    assert!(UserAction::TaskAbort.is_destructive());
    assert!(!UserAction::ProjectUpdate.is_destructive());
}

#[test]
fn keymap_supports_forward_and_reverse_focus_navigation() {
    let tab = KeyEvent::new(KeyCode::Tab);
    let shift_tab = KeyEvent::new(KeyCode::BackTab);
    let left = KeyEvent::new(KeyCode::Left);
    let right = KeyEvent::new(KeyCode::Right);

    assert!(matches!(map_key_to_action(tab), Some(UserAction::CyclePane)));
    assert!(matches!(map_key_to_action(shift_tab), Some(UserAction::PreviousPane)));
    assert!(matches!(map_key_to_action(left), Some(UserAction::PreviousPane)));
    assert!(matches!(map_key_to_action(right), Some(UserAction::CyclePane)));
}

#[test]
fn escape_cancels_pending_confirmation() {
    let esc = KeyEvent::new(KeyCode::Esc);
    assert!(matches!(map_key_to_action(esc), Some(UserAction::CancelPending)));
}

// ── key map and view decisions ───────────────────────────────────────────────

#[test]
fn keymap_binds_letters_digits_and_nothing_else() {
    let key = |c| map_key_to_action(KeyEvent::new(KeyCode::Char(c)));
    assert_eq!(key('q'), Some(UserAction::Quit));
    assert_eq!(key('x'), Some(UserAction::ProjectReset));
    assert_eq!(key('5'), Some(UserAction::SetNetworkMode(RunMode::Auto)));
    assert_eq!(key('9'), Some(UserAction::SetGpuMode(RunMode::Never)));
    assert_eq!(key('D'), Some(UserAction::SaveDiagnostics));
    assert_eq!(key('Q'), None);
    assert_eq!(map_key_to_action(KeyEvent::new(KeyCode::Enter)), None);
    assert_eq!(map_key_to_action(KeyEvent::new(KeyCode::Up)), Some(UserAction::MoveUp));
}

fn targets() -> Targets {
    Targets {
        project_urls: vec!["https://a.org/".to_string(), "https://b.org/".to_string()],
        tasks: vec![("https://a.org/".to_string(), "t1".to_string())],
        transfers: vec![],
    }
}

#[test]
fn destructive_action_waits_for_confirmation_then_runs() {
    let mut state = ViewState::new();
    let t = targets();
    assert!(matches!(state.handle_action(UserAction::ProjectDetach, &t), Effect::Nothing));
    assert_eq!(state.pending_confirmation.as_deref(), Some("ProjectDetach"));
    match state.handle_action(UserAction::ConfirmPending, &t) {
        Effect::Send(req) => {
            assert_eq!(req.command, "project_detach");
            assert_eq!(req.payload, "<project_url>https://a.org/</project_url>");
        }
        other => panic!("expected a request, got {other:?}"),
    }
    assert!(state.pending_confirmation.is_none());
    assert!(state.pending_action.is_none());
}

#[test]
fn cancel_drops_the_pending_action() {
    let mut state = ViewState::new();
    let t = targets();
    state.handle_action(UserAction::TaskAbort, &t);
    assert!(matches!(state.handle_action(UserAction::CancelPending, &t), Effect::Nothing));
    assert!(state.pending_action.is_none());
    assert_eq!(state.status_line, "Cancelled pending action");
    assert!(matches!(state.handle_action(UserAction::ConfirmPending, &t), Effect::Nothing));
}

#[test]
fn navigation_moves_the_focused_selection_and_wraps() {
    let mut state = ViewState::new();
    let t = targets();
    state.handle_action(UserAction::MoveUp, &t);
    assert_eq!(state.selected_project_idx, 1);
    state.handle_action(UserAction::MoveDown, &t);
    assert_eq!(state.selected_project_idx, 0);
    match state.handle_action(UserAction::ProjectUpdate, &t) {
        Effect::Send(req) => assert_eq!(req.payload, "<project_url>https://a.org/</project_url>"),
        other => panic!("expected a request, got {other:?}"),
    }
    state.handle_action(UserAction::PreviousPane, &t);
    assert_eq!(state.focus, FocusPane::Transfers);
    state.handle_action(UserAction::MoveDown, &t);
    assert_eq!(state.selected_transfer_idx, 0);
    match state.handle_action(UserAction::TransferRetry, &t) {
        Effect::RefreshQuietly => assert_eq!(state.status_line, "action succeeded"),
        other => panic!("expected a quiet refresh, got {other:?}"),
    }
}

#[test]
fn other_actions_map_to_their_effects() {
    let mut state = ViewState::new();
    let t = targets();
    assert!(matches!(state.handle_action(UserAction::RefreshNow, &t), Effect::Refresh));
    assert!(matches!(state.handle_action(UserAction::SaveDiagnostics, &t), Effect::SaveDiagnostics));
    match state.handle_action(UserAction::SetRunMode(RunMode::Never), &t) {
        Effect::Send(req) => {
            assert_eq!(req.command, "set_run_mode");
            assert_eq!(req.payload, "<never/><duration>0</duration>");
        }
        other => panic!("expected a request, got {other:?}"),
    }
    state.handle_action(UserAction::CyclePane, &t);
    match state.handle_action(UserAction::TaskSuspend, &t) {
        Effect::Send(req) => {
            assert_eq!(req.command, "result_suspend");
            assert_eq!(req.payload, "<project_url>https://a.org/</project_url><name>t1</name>");
        }
        other => panic!("expected a request, got {other:?}"),
    }
    state.handle_action(UserAction::Quit, &t);
    assert!(state.should_quit);
}

#[test]
fn outcomes_set_the_status_line() {
    let mut state = ViewState::new();
    assert!(state.rpc_finished(Ok("x".to_string())));
    assert_eq!(state.status_line, "action succeeded");
    assert!(!state.rpc_finished(Err(AppError::AuthenticationFailed)));
    assert_eq!(state.status_line, "action failed: RPC authentication failed");
    state.refresh_finished(Ok(()));
    assert_eq!(state.status_line, "refresh completed");
    state.refresh_finished(Err(AppError::Protocol("eof".into())));
    assert_eq!(state.status_line, "refresh failed: RPC protocol error: eof");
    state.diagnostics_saved(Ok("d.txt".to_string()));
    assert_eq!(state.status_line, "diagnostics saved to d.txt");
    state.diagnostics_saved(Err("denied".to_string()));
    assert_eq!(state.status_line, "failed to save diagnostics: denied");
}

#[test]
fn selections_are_clamped_after_lists_shrink() {
    let mut state = ViewState::new();
    state.selected_project_idx = 5;
    state.selected_task_idx = 2;
    state.selected_transfer_idx = 1;
    state.normalize_selection(3, 0, 2);
    assert_eq!(state.selected_project_idx, 2);
    assert_eq!(state.selected_task_idx, 0);
    assert_eq!(state.selected_transfer_idx, 1);
}

// ── RPC session ──────────────────────────────────────────────────────────────

#[test]
fn session_runs_the_handshake_once() {
    let mut client = BoincRpcClient::new(Some("pw".to_string()));
    let mut replies = vec![
        b"<boinc_gui_rpc_reply><nonce>abc</nonce></boinc_gui_rpc_reply>\x03".to_vec(),
        b"<boinc_gui_rpc_reply><authorized>1</authorized></boinc_gui_rpc_reply>\x03".to_vec(),
        b"<boinc_gui_rpc_reply><cc_status/></boinc_gui_rpc_reply>\x03".to_vec(),
    ];
    let mut writes = Vec::new();
    let reply = run_call(&mut client, "get_cc_status", "", &mut replies, &mut writes)
        .expect("call");
    assert_eq!(reply, "<boinc_gui_rpc_reply><cc_status/></boinc_gui_rpc_reply>");
    let hash = compute_nonce_hash("abc", "pw");
    assert_eq!(
        writes,
        vec![
            frame_request("<auth1/>"),
            frame_request(&format!("<auth2><nonce_hash>{hash}</nonce_hash></auth2>")),
            frame_request("<get_cc_status/>"),
        ]
    );
    assert!(client.is_authenticated());

    let mut writes = Vec::new();
    run_call(&mut client, "get_results", "<active_only>0</active_only>", &mut vec![], &mut writes)
        .expect("second call");
    assert_eq!(
        writes,
        vec![frame_request("<get_results><active_only>0</active_only></get_results>")]
    );
}

#[test]
fn session_retries_once_after_unauthorized() {
    let mut client = BoincRpcClient::new(Some("pw".to_string()));
    let unauthorized = b"<boinc_gui_rpc_reply><unauthorized/></boinc_gui_rpc_reply>\x03".to_vec();
    let nonce = b"<boinc_gui_rpc_reply><nonce>n</nonce></boinc_gui_rpc_reply>\x03".to_vec();
    let granted = b"<boinc_gui_rpc_reply><authorized>1</authorized></boinc_gui_rpc_reply>\x03".to_vec();
    let mut replies = vec![
        nonce.clone(),
        granted.clone(),
        unauthorized.clone(),
        nonce,
        granted,
        unauthorized,
    ];
    let mut writes = Vec::new();
    let r = run_call(&mut client, "get_cc_status", "", &mut replies, &mut writes);
    assert!(matches!(r, Err(AppError::AuthenticationFailed)));
    assert_eq!(writes.len(), 6);
    assert_eq!(writes[3], frame_request("<auth1/>"));
}

#[test]
fn session_without_password_never_authenticates() {
    let mut client = BoincRpcClient::new(None);
    let mut replies =
        vec![b"<boinc_gui_rpc_reply><unauthorized/></boinc_gui_rpc_reply>\x03".to_vec()];
    let mut writes = Vec::new();
    let r = run_call(&mut client, "get_cc_status", "", &mut replies, &mut writes);
    assert!(matches!(r, Err(AppError::AuthenticationFailed)));
    assert_eq!(writes, vec![frame_request("<get_cc_status/>")]);
    assert!(!client.is_authenticated());
}

#[test]
fn session_rejected_handshake_fails() {
    let mut client = BoincRpcClient::new(Some("pw".to_string()));
    let mut replies = vec![
        b"<boinc_gui_rpc_reply><nonce>n</nonce></boinc_gui_rpc_reply>\x03".to_vec(),
        b"<boinc_gui_rpc_reply><unauthorized/></boinc_gui_rpc_reply>\x03".to_vec(),
    ];
    let mut writes = Vec::new();
    let r = run_call(&mut client, "get_cc_status", "", &mut replies, &mut writes);
    assert!(matches!(r, Err(AppError::AuthenticationFailed)));
    assert!(!client.is_authenticated());
}

#[test]
fn session_passes_on_transport_errors_and_bad_replies() {
    let mut client = BoincRpcClient::new(None);
    let (mut call, step) = client.start_call("get_cc_status", "");
    match step {
        RpcStep::Exchange { expect, .. } => assert_eq!(expect, ReplyField::Plain),
        other => panic!("expected an exchange, got {other:?}"),
    }
    let step = client.step(
        &mut call,
        Exchanged { reply: Err(AppError::Protocol("reset".into())), decoded: None },
    );
    assert!(matches!(step, RpcStep::Finished(Err(AppError::Protocol(_)))));

    let (mut call, _) = client.start_call("get_cc_status", "");
    let step = client.step(&mut call, Exchanged { reply: Ok(b"junk".to_vec()), decoded: None });
    assert!(matches!(step, RpcStep::Finished(Err(AppError::InvalidResponse(_)))));
}

#[test]
fn project_and_transfer_actions_target_the_first_item() {
    let mut state = ViewState::new();
    let t = Targets {
        project_urls: vec!["https://a.org/".to_string(), "https://b.org/".to_string()],
        tasks: vec![
            ("https://a.org/".to_string(), "t1".to_string()),
            ("https://b.org/".to_string(), "t2".to_string()),
        ],
        transfers: vec![
            ("https://a.org/".to_string(), "f1".to_string()),
            ("https://b.org/".to_string(), "f2".to_string()),
        ],
    };
    state.selected_project_idx = 1;
    state.selected_task_idx = 1;
    state.selected_transfer_idx = 1;
    assert_eq!(state.selected_project_url(&t).as_deref(), Some("https://a.org/"));
    assert_eq!(
        state.selected_transfer(&t),
        Some(("https://a.org/".to_string(), "f1".to_string()))
    );
    assert_eq!(
        state.selected_task(&t),
        Some(("https://b.org/".to_string(), "t2".to_string()))
    );
    match state.handle_action(UserAction::ProjectUpdate, &t) {
        Effect::Send(req) => assert_eq!(req.payload, "<project_url>https://a.org/</project_url>"),
        other => panic!("expected a request, got {other:?}"),
    }
    match state.handle_action(UserAction::TransferRetry, &t) {
        Effect::Send(req) => assert_eq!(
            req.payload,
            "<project_url>https://a.org/</project_url><filename>f1</filename>"
        ),
        other => panic!("expected a request, got {other:?}"),
    }
    match state.handle_action(UserAction::TaskResume, &t) {
        Effect::Send(req) => assert_eq!(req.payload, "<project_url>https://b.org/</project_url><name>t2</name>"),
        other => panic!("expected a request, got {other:?}"),
    }
    let empty = Targets { project_urls: vec![], tasks: vec![], transfers: vec![] };
    assert!(state.selected_project_url(&empty).is_none());
    assert!(matches!(state.handle_action(UserAction::ProjectSuspend, &empty), Effect::RefreshQuietly));
}
