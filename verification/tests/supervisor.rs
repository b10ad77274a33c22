use server_launcher::diag::entry_resolved_message;
use server_launcher::diag::greeting;
use server_launcher::diag::start_failure_message;
use server_launcher::diag::start_success_message;
use server_launcher::diag::work_dir_message;
use server_launcher::layout::ResolvedLayout;
use server_launcher::supervisor::ServiceState;
use server_launcher::supervisor::Supervisor;
use server_launcher::supervisor::spawn_plan;

#[test]
fn successful_start_stores_the_handle_and_runs() {
    let mut s = Supervisor::new();
    assert_eq!(s.current_state(), ServiceState::NotStarted);
    assert_eq!(s.stored_handle(), None);
    s.begin_start();
    assert_eq!(s.current_state(), ServiceState::Starting);
    s.finish_start(Some(4242));
    assert_eq!(s.current_state(), ServiceState::Running);
    assert_eq!(s.stored_handle(), Some(4242));
}

#[test]
fn failed_start_leaves_the_slot_empty() {
    let mut s = Supervisor::new();
    s.begin_start();
    s.finish_start(None);
    assert_eq!(s.current_state(), ServiceState::NotStarted);
    assert_eq!(s.stored_handle(), None);
}

#[test]
fn stop_with_a_handle_signals_it_once_and_empties_the_slot() {
    let mut s = Supervisor::new();
    s.begin_start();
    s.finish_start(Some(77));
    let signal = s.stop_service();
    assert_eq!(signal, Some(77));
    assert_eq!(s.current_state(), ServiceState::Stopped);
    assert_eq!(s.stored_handle(), None);
}

#[test]
fn stop_without_a_handle_is_a_silent_no_op() {
    let mut s = Supervisor::new();
    let signal = s.stop_service();
    assert_eq!(signal, None);
    assert_eq!(s.current_state(), ServiceState::NotStarted);
    assert_eq!(s.stored_handle(), None);
}

#[test]
fn second_stop_is_a_no_op() {
    let mut s = Supervisor::new();
    s.begin_start();
    s.finish_start(Some(9));
    let first = s.stop_service();
    assert_eq!(first, Some(9));
    let second = s.stop_service();
    assert_eq!(second, None);
    assert_eq!(s.current_state(), ServiceState::Stopped);
    assert_eq!(s.stored_handle(), None);
}

#[test]
fn interpreter_missing_scenario_records_failure_and_stop_is_no_op() {
    // The spawn step fails (interpreter name not found on the search
    // path): no handle is stored, the failure line is built, and the
    // later shutdown finds nothing to signal.
    let mut s = Supervisor::new();
    s.begin_start();
    let line = start_failure_message("No such file or directory (os error 2)");
    assert_eq!(
        line,
        "Failed to start Node.js server: No such file or directory (os error 2)"
    );
    s.finish_start(None);
    assert_eq!(s.stored_handle(), None);
    let signal = s.stop_service();
    assert_eq!(signal, None);
}

#[test]
fn spawn_plan_uses_fixed_interpreter_and_resolved_paths() {
    let layout = ResolvedLayout {
        server_entry: "/opt/app/bin/server.js".to_string(),
        work_dir: "/opt/app/bin".to_string(),
    };
    let plan = spawn_plan(&layout);
    assert_eq!(plan.program, "node");
    assert_eq!(plan.arg, "/opt/app/bin/server.js");
    assert_eq!(plan.current_dir, "/opt/app/bin");
}

#[test]
fn diagnostic_lines_have_exact_text() {
    assert_eq!(
        entry_resolved_message("/a/server.js"),
        "Starting Node.js server from: /a/server.js"
    );
    assert_eq!(work_dir_message("/a"), "Working directory: /a");
    assert_eq!(start_success_message(), "Node.js server started successfully");
}

#[test]
fn greeting_has_exact_text() {
    assert_eq!(
        greeting("Ada"),
        "Hello, Ada! You've been greeted from Rust!"
    );
}
