use boincrs::app::diagnostics::{
    diagnostics_file_name, diagnostics_header, diagnostics_project_line, diagnostics_section,
};
use boincrs::app::state::{clamp_selection, move_selection_down, move_selection_up, ViewState};
use boincrs::boinc::api::read::{
    compare_tasks_for_view, compare_text, map_run_mode, map_task_status, status_rank,
    BoincReadApi, Order,
};
use boincrs::boinc::models::{ClientState, Project, RunMode, TaskStatus};
use boincrs::boinc::protocol::ParsedTaskStatus;
use boincrs::text::{parse_i32_exec, parse_u64_exec};
use boincrs::ui::layout::{
    format_due_in, format_hms, no_task_selected_details, selected_task_details, short_project,
    status_bar_text, task_status_label,
};
use boincrs::ui::widgets::projects::{project_item, project_state_tags};
use boincrs::ui::widgets::status::summary;
use boincrs::ui::widgets::tasks::{
    group_heading, group_starts, status_tag, task_flags, truncate_with_ellipsis,
};

fn chars(s: &str) -> Vec<char> {
    s.chars().collect()
}

fn client() -> ClientState {
    ClientState {
        network_mode: RunMode::Never,
        run_mode: RunMode::Always,
        gpu_mode: RunMode::Auto,
        messages: vec!["m".to_string(), "n".to_string()],
    }
}

#[test]
fn integer_parsing_follows_str_parse() {
    assert_eq!(parse_u64_exec(&chars("2048")), Some(2048));
    assert_eq!(parse_u64_exec(&chars("+7")), Some(7));
    assert_eq!(parse_u64_exec(&chars("18446744073709551615")), Some(u64::MAX));
    assert_eq!(parse_u64_exec(&chars("18446744073709551616")), None);
    assert_eq!(parse_u64_exec(&chars("-1")), None);
    assert_eq!(parse_u64_exec(&chars("+")), None);
    assert_eq!(parse_u64_exec(&chars("")), None);
    assert_eq!(parse_i32_exec(&chars("-2147483648")), Some(i32::MIN));
    assert_eq!(parse_i32_exec(&chars("2147483647")), Some(i32::MAX));
    assert_eq!(parse_i32_exec(&chars("2147483648")), None);
    assert_eq!(parse_i32_exec(&chars("-0")), Some(0));
    assert_eq!(parse_i32_exec(&chars("1a")), None);
    assert_eq!(parse_i32_exec(&chars("-")), None);
}

#[test]
fn read_mappings() {
    assert_eq!(map_run_mode(Some("1".to_string())), RunMode::Always);
    assert_eq!(map_run_mode(Some("2".to_string())), RunMode::Auto);
    assert_eq!(map_run_mode(Some("3".to_string())), RunMode::Never);
    assert_eq!(map_run_mode(Some("always".to_string())), RunMode::Auto);
    assert_eq!(map_run_mode(None), RunMode::Auto);
    assert_eq!(map_task_status(ParsedTaskStatus::WaitingToRun), TaskStatus::WaitingToRun);
    assert_eq!(map_task_status(ParsedTaskStatus::ReadyToReport), TaskStatus::ReadyToReport);
    assert_eq!(status_rank(TaskStatus::ReadyToReport), 0);
    assert_eq!(status_rank(TaskStatus::Running), 1);
    assert_eq!(status_rank(TaskStatus::ReadyToStart), 2);
}

#[test]
fn read_api_maps_replies() {
    let api = BoincReadApi::new();
    assert_eq!(api.tasks_request().payload, "<active_only>0</active_only>");
    assert_eq!(api.projects_request().command, "get_project_status");
    let projects = api
        .projects("<project><master_url>u</master_url><project_name>n</project_name></project>")
        .expect("projects");
    assert_eq!(projects.len(), 1);
    assert_eq!(projects[0].url, "u");
    let state = api
        .client_state("<network_mode><perm_mode>1</perm_mode></network_mode><gpu_mode>3</gpu_mode>")
        .expect("state");
    assert_eq!(state.network_mode, RunMode::Always);
    assert_eq!(state.run_mode, RunMode::Auto);
    assert_eq!(state.gpu_mode, RunMode::Never);
    assert!(state.messages.is_empty());
}

#[test]
fn task_view_order() {
    assert_eq!(compare_tasks_for_view(TaskStatus::ReadyToReport, "z", TaskStatus::Running, "a", Order::Greater), Order::Less);
    assert_eq!(compare_tasks_for_view(TaskStatus::ReadyToStart, "a", TaskStatus::WaitingToRun, "b", Order::Less), Order::Less);
    assert_eq!(compare_tasks_for_view(TaskStatus::Running, "a", TaskStatus::Running, "b", Order::Greater), Order::Greater);
    assert_eq!(compare_tasks_for_view(TaskStatus::Running, "b", TaskStatus::Running, "a", Order::Equal), Order::Greater);
    assert_eq!(compare_text("abc", "abd"), Order::Less);
    assert_eq!(compare_text("ab", "abc"), Order::Less);
    assert_eq!(compare_text("b", "abc"), Order::Greater);
    assert_eq!(compare_text("é", "e"), Order::Greater);
    assert_eq!(compare_text("same", "same"), Order::Equal);
}

#[test]
fn selection_index_moves() {
    assert_eq!(move_selection_up(0, 3), 2);
    assert_eq!(move_selection_up(2, 3), 1);
    assert_eq!(move_selection_down(2, 3), 0);
    assert_eq!(move_selection_down(usize::MAX, 3), (usize::MAX % 3 + 1) % 3);
    assert_eq!(move_selection_down(4, 0), 0);
    assert_eq!(clamp_selection(9, 4), 3);
    assert_eq!(clamp_selection(1, 4), 1);
    assert_eq!(clamp_selection(1, 0), 0);
}

#[test]
fn pane_text() {
    assert_eq!(task_status_label(TaskStatus::WaitingToRun), "waiting-to-run");
    assert_eq!(short_project("https://www.primegrid.com/"), "www.primegrid.com");
    assert_eq!(short_project("http://boinc.bakerlab.org/rosetta/"), "boinc.bakerlab.org");
    assert_eq!(short_project("https://https://x.org//"), "x.org");
    assert_eq!(short_project(""), "");
    assert_eq!(format_hms(0), "00:00:00");
    assert_eq!(format_hms(3723), "01:02:03");
    assert_eq!(format_hms(360_000), "100:00:00");
    assert_eq!(format_due_in(90_000), "in 1d 1h");
    assert_eq!(status_tag(TaskStatus::ReadyToReport), "[REPORT]");
    assert_eq!(group_heading(TaskStatus::ReadyToStart), "WAITING / READY");
    assert_eq!(task_flags(true, true, Some(-3)), " [active] [paused] [exit:-3]");
    assert_eq!(task_flags(false, false, Some(0)), "");
    assert_eq!(truncate_with_ellipsis("abcdef", 4), "abc…");
    assert_eq!(truncate_with_ellipsis("abc", 3), "abc");
    assert_eq!(truncate_with_ellipsis("abc", 1), "…");
    assert_eq!(
        group_starts(&[TaskStatus::Running, TaskStatus::Running, TaskStatus::WaitingToRun, TaskStatus::ReadyToStart, TaskStatus::ReadyToReport]),
        vec![true, false, true, false, true]
    );
}

#[test]
fn project_and_status_text() {
    let mut p = Project {
        url: "https://a.org/".to_string(),
        name: "A".to_string(),
        suspended_via_gui: false,
        dont_request_more_work: false,
    };
    assert_eq!(project_state_tags(&p), "[ready]");
    p.suspended_via_gui = true;
    assert_eq!(project_state_tags(&p), "[suspended]");
    p.dont_request_more_work = true;
    assert_eq!(project_state_tags(&p), "[suspended] [no-new-work]");
    assert_eq!(project_item(&p), "A [suspended] [no-new-work] (https://a.org/)");
    assert_eq!(summary(&client()), "run:Always net:Never gpu:Auto msgs:2");
    assert_eq!(
        no_task_selected_details(&client()),
        "No task selected\nclient: run:Always net:Never gpu:Auto msgs:2"
    );
    assert_eq!(
        selected_task_details("t", "https://a.org/x", "50.0%", TaskStatus::Running, "00:01:00", "n/a", "past-due", None, &client()),
        "name:t | project:a.org | progress:50.0% | status:running\nelapsed:00:01:00 | remaining:n/a | deadline:past-due | application:n/a | client: run:Always net:Never gpu:Auto msgs:2"
    );
    let mut view = ViewState::new();
    assert_eq!(status_bar_text(&view), "Connecting...");
    view.pending_confirmation = Some("TaskAbort".to_string());
    assert_eq!(status_bar_text(&view), "PENDING CONFIRMATION: TaskAbort (y/n)");
}

#[test]
fn diagnostics_text() {
    assert_eq!(diagnostics_file_name(17), "boincrs-diag-17.txt");
    assert_eq!(
        diagnostics_header(5, &client()),
        "boincrs diagnostics — epoch 5\nclient: run=Always net=Never gpu=Auto msgs=2\n\n"
    );
    assert_eq!(diagnostics_section("projects", 3, true), "=== projects (3) ===\n");
    assert_eq!(diagnostics_section("tasks", 0, false), "\n=== tasks (0) ===\n");
    let p = Project {
        url: "u".to_string(),
        name: "n".to_string(),
        suspended_via_gui: true,
        dont_request_more_work: false,
    };
    assert_eq!(diagnostics_project_line(&p), "  n | url:u | suspended:true | nmw:false\n");
}
