use boincrs::boinc::protocol::{
    compute_nonce_hash, digest_hex, frame_request, is_waiting_state, parse_auth_authorized,
    parse_auth_nonce, parse_cc_status, parse_projects, parse_response_payload, parse_tasks,
    parse_transfers, reply_has_unauthorized, ParsedTaskStatus,
};
use boincrs::error::AppError;

#[test]
fn frames_request_with_root_and_eom() {
    let framed = frame_request("<get_cc_status/>");
    let as_text =
        String::from_utf8(framed[..framed.len() - 1].to_vec()).expect("request should be utf-8");
    assert!(as_text.contains("<boinc_gui_rpc_request>"));
    assert_eq!(framed.last().copied(), Some(0x03));
}

#[test]
fn parses_reply_payload() {
    let payload = b"<boinc_gui_rpc_reply><success/></boinc_gui_rpc_reply>\x03";
    let parsed = parse_response_payload(payload).expect("should parse valid reply");
    assert!(parsed.contains("<success/>"));
}

#[test]
fn parses_auth_responses() {
    let nonce_xml = "<boinc_gui_rpc_reply><nonce>abc123</nonce></boinc_gui_rpc_reply>";
    let auth_xml = "<boinc_gui_rpc_reply><authorized>1</authorized></boinc_gui_rpc_reply>";
    let nonce = parse_auth_nonce(nonce_xml, None).expect("nonce should parse");
    let authorized = parse_auth_authorized(auth_xml, None).expect("authorized should parse");
    assert_eq!(nonce, "abc123");
    assert!(authorized);
}

#[test]
fn detects_unauthorized_reply() {
    let xml = "<boinc_gui_rpc_reply><unauthorized/></boinc_gui_rpc_reply>";
    assert!(reply_has_unauthorized(xml));
}

#[test]
fn parses_project_task_transfer_and_status_replies() {
    let projects_xml = "<boinc_gui_rpc_reply><project><master_url>u</master_url><project_name>n</project_name><suspended_via_gui>1</suspended_via_gui><dont_request_more_work>0</dont_request_more_work></project></boinc_gui_rpc_reply>";
    let tasks_xml = "<boinc_gui_rpc_reply><result><project_url>u</project_url><name>t</name><active_task>1</active_task><suspended_via_gui>0</suspended_via_gui></result><result><project_url>u</project_url><name>done</name><ready_to_report/></result></boinc_gui_rpc_reply>";
    let transfers_xml = "<boinc_gui_rpc_reply><file_transfer><project_url>u</project_url><name>f</name><status>ok</status></file_transfer></boinc_gui_rpc_reply>";
    let status_xml = "<boinc_gui_rpc_reply><network_mode><perm_mode>1</perm_mode></network_mode><task_mode>2</task_mode><gpu_mode><perm_mode>3</perm_mode></gpu_mode></boinc_gui_rpc_reply>";

    let projects = parse_projects(projects_xml).expect("projects should parse");
    let tasks = parse_tasks(tasks_xml).expect("tasks should parse");
    let transfers = parse_transfers(transfers_xml).expect("transfers should parse");
    let status = parse_cc_status(status_xml).expect("status should parse");

    assert_eq!(projects.len(), 1);
    assert_eq!(projects[0].name, "n");
    assert_eq!(tasks.len(), 2);
    assert_eq!(tasks[0].name, "t");
    assert_eq!(tasks[0].status, ParsedTaskStatus::Running);
    assert_eq!(tasks[1].name, "done");
    assert_eq!(tasks[1].status, ParsedTaskStatus::ReadyToReport);
    assert_eq!(transfers.len(), 1);
    assert_eq!(transfers[0].file_name, "f");
    assert_eq!(status.network_mode.as_deref(), Some("1"));
    assert_eq!(status.task_mode.as_deref(), Some("2"));
    assert_eq!(status.gpu_mode.as_deref(), Some("3"));
}

// ── further cases ───────────────────────────────────────────────────────────

#[test]
fn framed_request_is_envelope_then_marker() {
    let framed = frame_request("<auth1/>");
    let mut expected = b"<boinc_gui_rpc_request><auth1/></boinc_gui_rpc_request>".to_vec();
    expected.push(0x03);
    assert_eq!(framed, expected);
}

#[test]
fn reply_payload_without_marker_is_accepted() {
    let text = parse_response_payload(b"<boinc_gui_rpc_reply/><boinc_gui_rpc_reply>x")
        .expect("marker is optional");
    assert_eq!(text, "<boinc_gui_rpc_reply/><boinc_gui_rpc_reply>x");
}

#[test]
fn reply_payload_errors_are_reported() {
    match parse_response_payload(b"<other/>\x03") {
        Err(AppError::InvalidResponse(m)) => assert_eq!(m, "missing <boinc_gui_rpc_reply> root"),
        other => panic!("expected missing root, got {other:?}"),
    }
    match parse_response_payload(&[0xff, 0xfe, 0x03]) {
        Err(AppError::InvalidResponse(m)) => assert_eq!(m, "response is not valid UTF-8"),
        other => panic!("expected invalid utf-8, got {other:?}"),
    }
}

#[test]
fn auth_nonce_prefers_decoded_value_and_reports_missing() {
    let xml = "<boinc_gui_rpc_reply><nonce>scanned</nonce></boinc_gui_rpc_reply>";
    assert_eq!(
        parse_auth_nonce(xml, Some("decoded".to_string())).expect("decoded"),
        "decoded"
    );
    match parse_auth_nonce("<boinc_gui_rpc_reply/>", None) {
        Err(AppError::InvalidResponse(m)) => assert_eq!(m, "missing auth nonce"),
        other => panic!("expected missing nonce, got {other:?}"),
    }
}

#[test]
fn auth_authorized_requires_exactly_one() {
    assert!(!parse_auth_authorized("<authorized>true</authorized>", None).expect("ok"));
    assert!(!parse_auth_authorized("<boinc_gui_rpc_reply/>", None).expect("ok"));
    assert!(parse_auth_authorized("<authorized>0</authorized>", Some("1".to_string())).expect("ok"));
    assert!(!parse_auth_authorized("<authorized>1</authorized>", Some("0".to_string())).expect("ok"));
}

#[test]
fn nonce_hash_is_md5_hex_of_nonce_and_password() {
    assert_eq!(
        compute_nonce_hash("nonce", "password"),
        "02600424c312e00a261125f713800234"
    );
    assert_eq!(compute_nonce_hash("", ""), "d41d8cd98f00b204e9800998ecf8427e");
}

#[test]
fn digest_hex_writes_two_lowercase_digits_per_byte() {
    assert_eq!(digest_hex(&[0x00, 0x0f, 0xa0, 0xff]), "000fa0ff");
    assert_eq!(digest_hex(&[]), "");
}

#[test]
fn unauthorized_forms_are_both_detected() {
    assert!(reply_has_unauthorized("<unauthorized>"));
    assert!(!reply_has_unauthorized("<authorized>1</authorized>"));
}

#[test]
fn task_fields_are_read_from_their_tags() {
    let xml = "<result><project_url>p</project_url><name>a</name>\
        <active_task_state> 2 </active_task_state><fraction_done>0.5</fraction_done>\
        <elapsed_time>12.5</elapsed_time><estimated_cpu_time_remaining>3</estimated_cpu_time_remaining>\
        <report_deadline>1700000000</report_deadline><plan_class>cuda</plan_class>\
        <checkpoint_cpu_time>600</checkpoint_cpu_time><received_time>1</received_time>\
        <exit_status>-7</exit_status></result>";
    let tasks = parse_tasks(xml).expect("parse");
    assert_eq!(tasks.len(), 1);
    let t = &tasks[0];
    assert!(t.active_task);
    assert_eq!(t.status, ParsedTaskStatus::Running);
    assert_eq!(t.fraction_done.as_deref(), Some("0.5"));
    assert_eq!(t.elapsed_seconds.as_deref(), Some("12.5"));
    assert_eq!(t.remaining_seconds.as_deref(), Some("3"));
    assert_eq!(t.report_deadline.as_deref(), Some("1700000000"));
    assert_eq!(t.application.as_deref(), Some("cuda"));
    assert_eq!(t.checkpoint_cpu_time.as_deref(), Some("600"));
    assert_eq!(t.received_time.as_deref(), Some("1"));
    assert_eq!(t.exit_status, Some(-7));
}

#[test]
fn task_status_buckets() {
    let xml = "<result><name>w</name><scheduler_state>1</scheduler_state></result>\
        <result><name>p</name><scheduler_state>PREEMPTED</scheduler_state></result>\
        <result><name>r</name><scheduler_state>0</scheduler_state></result>\
        <result><name>z</name><active_task_state>0</active_task_state></result>\
        <result><name>x</name><active_task_state>abc</active_task_state></result>";
    let tasks = parse_tasks(xml).expect("parse");
    let statuses: Vec<ParsedTaskStatus> = tasks.iter().map(|t| t.status).collect();
    assert_eq!(
        statuses,
        vec![
            ParsedTaskStatus::WaitingToRun,
            ParsedTaskStatus::WaitingToRun,
            ParsedTaskStatus::ReadyToStart,
            ParsedTaskStatus::ReadyToStart,
            ParsedTaskStatus::ReadyToStart,
        ]
    );
    assert!(!tasks[3].active_task);
    assert!(!tasks[4].active_task);
}

#[test]
fn waiting_state_markers() {
    assert!(is_waiting_state("1"));
    assert!(is_waiting_state("waiting"));
    assert!(is_waiting_state("was preempted"));
    assert!(!is_waiting_state("11"));
    assert!(!is_waiting_state("ready"));
}

#[test]
fn application_falls_back_to_version_number() {
    let tasks = parse_tasks(
        "<result><name>a</name><resources>1 CPU</resources><plan_class>x</plan_class></result>\
         <result><name>b</name><app_version_num>701600</app_version_num></result>\
         <result><name>c</name></result>",
    )
    .expect("parse");
    assert_eq!(tasks[0].application.as_deref(), Some("1 CPU"));
    assert_eq!(tasks[1].application.as_deref(), Some("app#701600"));
    assert_eq!(tasks[2].application, None);
}

#[test]
fn transfer_fields_and_fallbacks() {
    let xml = "<file_transfer><project_url>p</project_url><name>f1</name>\
        <last_bytes_xferred> 2048 </last_bytes_xferred><nbytes>4096.0</nbytes>\
        <xfer_speed>10.5</xfer_speed><is_upload> 1 </is_upload>\
        <error>temporary dns failure</error></file_transfer>\
        <file_transfer><name>f2</name><status></status><bytes_xferred>-1</bytes_xferred>\
        <error_msg>   </error_msg><generated_locally/></file_transfer>";
    let transfers = parse_transfers(xml).expect("parse");
    assert_eq!(transfers.len(), 2);
    let a = &transfers[0];
    assert_eq!(a.status, "unknown");
    assert_eq!(a.bytes_xferred, Some(2048));
    assert_eq!(a.nbytes.as_deref(), Some("4096.0"));
    assert_eq!(a.xfer_speed.as_deref(), Some("10.5"));
    assert!(a.is_upload);
    assert_eq!(a.error_msg.as_deref(), Some("temporary dns failure"));
    let b = &transfers[1];
    assert_eq!(b.project_url, "");
    assert_eq!(b.status, "unknown");
    assert_eq!(b.bytes_xferred, None);
    assert!(b.is_upload);
    assert_eq!(b.error_msg, None);
}

#[test]
fn bool_tags_accept_self_closing_one_and_true() {
    let xml = "<project><master_url>u</master_url><suspended_via_gui >\n</suspended_via_gui>\
        <dont_request_more_work> TRUE </dont_request_more_work></project>\
        <project><suspended_via_gui>yes</suspended_via_gui><dont_request_more_work>0</dont_request_more_work></project>";
    let projects = parse_projects(xml).expect("parse");
    assert_eq!(projects.len(), 2);
    assert!(projects[0].suspended_via_gui);
    assert!(projects[0].dont_request_more_work);
    assert!(!projects[1].suspended_via_gui);
    assert!(!projects[1].dont_request_more_work);
    assert_eq!(projects[1].url, "");
}

#[test]
fn mode_values_use_perm_mode_then_mode_then_text() {
    let status = parse_cc_status(
        "<network_mode><mode>2</mode></network_mode><task_mode> 3 </task_mode><gpu_mode><x/></gpu_mode>",
    )
    .expect("parse");
    assert_eq!(status.network_mode.as_deref(), Some("2"));
    assert_eq!(status.task_mode.as_deref(), Some("3"));
    assert_eq!(status.gpu_mode, None);
}
