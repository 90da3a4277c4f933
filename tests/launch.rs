use local_translate::launch::{
    advance, exit_code, LaunchEvent, LaunchPhase, ENTRY_MODULE, STARTUP_FAILURE_EXIT_CODE,
};
use local_translate::search_path::{compose_search_path, join_search_path, LibEntry};

fn run_to_end(status: i32) -> LaunchPhase {
    let p = advance(LaunchPhase::Unbuilt, LaunchEvent::BuildSucceeded).unwrap();
    assert_eq!(p, LaunchPhase::Built);
    let p = advance(p, LaunchEvent::RunStarted).unwrap();
    assert_eq!(p, LaunchPhase::Running);
    assert_eq!(exit_code(p), None);
    advance(p, LaunchEvent::InterpreterExited(status)).unwrap()
}

#[test]
fn development_launch_with_clean_exit_ends_with_zero() {
    let entries = vec![LibEntry { name: "python3.12".to_string(), has_site_packages: true }];
    let paths = compose_search_path("/p/src-tauri/src-python", "/p/.venv", &entries);
    assert_eq!(
        join_search_path(&paths),
        "/p/src-tauri/src-python:/p/.venv/lib/python3.12/site-packages"
    );
    let end = run_to_end(0);
    assert_eq!(end, LaunchPhase::Terminated(0));
    assert_eq!(exit_code(end), Some(0));
}

#[test]
fn uncaught_failure_in_entry_module_gives_nonzero_exit() {
    let end = run_to_end(1);
    assert_eq!(exit_code(end), Some(1));
    let end = run_to_end(-3);
    assert_eq!(exit_code(end), Some(-3));
}

#[test]
fn startup_failure_exits_nonzero() {
    let end = advance(LaunchPhase::Unbuilt, LaunchEvent::StartupFailed).unwrap();
    assert_eq!(exit_code(end), Some(STARTUP_FAILURE_EXIT_CODE));
    assert_ne!(STARTUP_FAILURE_EXIT_CODE, 0);
}

#[test]
fn events_out_of_order_are_refused() {
    assert_eq!(advance(LaunchPhase::Unbuilt, LaunchEvent::RunStarted), None);
    assert_eq!(advance(LaunchPhase::Built, LaunchEvent::InterpreterExited(0)), None);
    assert_eq!(advance(LaunchPhase::Running, LaunchEvent::StartupFailed), None);
    assert_eq!(advance(LaunchPhase::Terminated(0), LaunchEvent::BuildSucceeded), None);
    assert_eq!(exit_code(LaunchPhase::Built), None);
}

#[test]
fn entry_module_name() {
    assert_eq!(ENTRY_MODULE, "local_translate");
}
