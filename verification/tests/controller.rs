use journalctl_logger::logger::command::{SpawnError, SpawnOrder};
use journalctl_logger::logger::routes::{
    complete_start, start, start_component, status, stop, stop_component,
    ComponentLoggingResponse, LoggingResponse, Outcome, StartDecision, StartLoggingRequest,
    StopLoggingRequest,
};
use journalctl_logger::logger::state::LoggerState;

fn start_request(component: &str, log_path: &str) -> StartLoggingRequest {
    StartLoggingRequest { log_path: log_path.to_string(), component: Some(component.to_string()) }
}

fn stop_request(component: &str) -> StopLoggingRequest {
    StopLoggingRequest { component: Some(component.to_string()) }
}

fn rejected(message: &str) -> LoggingResponse {
    LoggingResponse {
        components: vec![],
        request_status: false,
        request_message: Some(message.to_string()),
    }
}

fn entry(
    component: &str,
    log_path: Option<&str>,
    previous_log_path: Option<&str>,
    active: bool,
) -> ComponentLoggingResponse {
    ComponentLoggingResponse {
        log_path: log_path.map(|p| p.to_string()),
        previous_log_path: previous_log_path.map(|p| p.to_string()),
        component: component.to_string(),
        active,
    }
}

fn idle_report() -> Vec<ComponentLoggingResponse> {
    vec![
        entry("sc_phy", None, None, false),
        entry("sc_scheduler", None, None, false),
        entry("sc_sm", None, None, false),
        entry("kernel", None, None, false),
    ]
}

/// Runs a whole start operation in which the launch succeeds with `handle`.
fn start_ok(db: &mut LoggerState<u32>, component: &str, log_path: &str, handle: u32) -> Outcome<u32> {
    match start(&start_request(component, log_path), db) {
        StartDecision::Answer(response) => Outcome { response, terminate: None },
        StartDecision::Launch(order) => complete_start(order, Ok(handle), db),
    }
}

fn expect_order(decision: StartDecision) -> SpawnOrder {
    match decision {
        StartDecision::Launch(order) => order,
        StartDecision::Answer(response) => panic!("no launch ordered: {:?}", response),
    }
}

#[test]
fn fresh_controller_is_idle() {
    let db: LoggerState<u32> = LoggerState::new();
    assert_eq!(db.serial_number(), 0);
    assert_eq!(db.call_count(), 0);
    assert_eq!(db.len(), 4);
    assert!(!db.active());
    let names: Vec<String> = (0..db.len()).map(|i| db.component(i).name().clone()).collect();
    assert_eq!(names, vec!["sc_phy", "sc_scheduler", "sc_sm", "kernel"]);
    for i in 0..db.len() {
        let c = db.component(i);
        assert_eq!(c.log_path(), &None);
        assert_eq!(c.previous_log_path(), &None);
        assert!(!c.active());
    }
}

#[test]
fn lookup_finds_known_components_only() {
    let db: LoggerState<u32> = LoggerState::new();
    assert_eq!(db.position(&"sc_phy".to_string()), Some(0));
    assert_eq!(db.position(&"kernel".to_string()), Some(3));
    assert_eq!(db.position(&"Kernel".to_string()), None);
    assert_eq!(db.position(&"".to_string()), None);
    let kernel = db.lookup(&"kernel".to_string()).expect("kernel is known");
    assert_eq!(kernel.name(), "kernel");
    assert!(db.lookup(&"journal".to_string()).is_none());
}

#[test]
fn fresh_status_reports_no_logging() {
    let mut db: LoggerState<u32> = LoggerState::new();
    let resp = status(&mut db);
    assert_eq!(
        resp,
        LoggingResponse {
            components: idle_report(),
            request_status: true,
            request_message: Some("No logging active".to_string()),
        }
    );
    assert_eq!(db.call_count(), 1);
}

#[test]
fn start_reports_path_and_active() {
    let mut db: LoggerState<u32> = LoggerState::new();
    let out = start_ok(&mut db, "kernel", "/tmp/foo.txt", 11);
    assert_eq!(
        out.response,
        LoggingResponse {
            components: vec![entry("kernel", Some("/tmp/foo.txt"), None, true)],
            request_status: true,
            request_message: Some("Logging started".to_string()),
        }
    );
    assert_eq!(out.terminate, None);
    let resp = status(&mut db);
    assert_eq!(resp.request_status, true);
    assert_eq!(resp.request_message, Some("Logging active".to_string()));
    assert_eq!(resp.components[3], entry("kernel", Some("/tmp/foo.txt"), None, true));
}

#[test]
fn start_kernel_on_fresh_controller() {
    let mut db: LoggerState<u32> = LoggerState::new();
    let order = expect_order(start(&start_request("kernel", "/tmp/k.log"), &mut db));
    assert_eq!(order.component, "kernel");
    assert_eq!(order.log_path, "/tmp/k.log");
    assert_eq!(order.command.program, "/usr/bin/ssh");
    assert_eq!(order.command.args, vec!["localhost", "journalctl", "-k", "-f"]);
    let out = complete_start(order, Ok(5), &mut db);
    assert!(out.response.request_status);
    assert_eq!(out.response.components, vec![entry("kernel", Some("/tmp/k.log"), None, true)]);
    assert_eq!(out.terminate, None);
}

#[test]
fn start_without_component_does_nothing() {
    let mut db: LoggerState<u32> = LoggerState::new();
    let req = StartLoggingRequest { log_path: "/tmp/foo.txt".to_string(), component: None };
    let decision = start(&req, &mut db);
    assert_eq!(
        decision,
        StartDecision::Answer(LoggingResponse {
            components: vec![],
            request_status: true,
            request_message: None,
        })
    );
    assert_eq!(db.call_count(), 1);
    assert_eq!(status(&mut db).components, idle_report());
}

#[test]
fn stop_without_component_does_nothing() {
    let mut db: LoggerState<u32> = LoggerState::new();
    start_ok(&mut db, "sc_sm", "/tmp/sm.log", 3);
    let out = stop(&StopLoggingRequest { component: None }, &mut db);
    assert_eq!(
        out.response,
        LoggingResponse { components: vec![], request_status: true, request_message: None }
    );
    assert_eq!(out.terminate, None);
    assert_eq!(db.call_count(), 2);
    assert_eq!(status(&mut db).components[2], entry("sc_sm", Some("/tmp/sm.log"), None, true));
}

#[test]
fn unknown_component_is_rejected() {
    let mut db: LoggerState<u32> = LoggerState::new();
    start_ok(&mut db, "sc_phy", "/tmp/phy.log", 1);
    let before = status(&mut db).components;

    let decision = start(&start_request("journal", "/tmp/j.log"), &mut db);
    assert_eq!(decision, StartDecision::Answer(rejected("Invalid component")));
    let out = stop(&stop_request("journal"), &mut db);
    assert_eq!(out.response, rejected("Invalid component"));
    assert_eq!(out.terminate, None);

    assert_eq!(status(&mut db).components, before);
}

#[test]
fn repeated_start_is_rejected() {
    let mut db: LoggerState<u32> = LoggerState::new();
    let first = start_ok(&mut db, "sc_scheduler", "/tmp/a", 21);
    assert!(first.response.request_status);
    assert_eq!(first.response.request_message, Some("Logging started".to_string()));

    let second = start(&start_request("sc_scheduler", "/tmp/a"), &mut db);
    assert_eq!(second, StartDecision::Answer(rejected("Already logging to this log_path")));

    let c = db.lookup(&"sc_scheduler".to_string()).expect("known");
    assert!(c.active());
    assert_eq!(c.log_path(), &Some("/tmp/a".to_string()));
    assert_eq!(c.previous_log_path(), &None);
}

#[test]
fn stop_on_idle_component_is_rejected() {
    let mut db: LoggerState<u32> = LoggerState::new();
    let out = stop(&stop_request("kernel"), &mut db);
    assert_eq!(out.response, rejected("No logging was active"));
    assert_eq!(out.terminate, None);

    start_ok(&mut db, "kernel", "/tmp/a", 1);
    stop(&stop_request("kernel"), &mut db);
    let again = stop(&stop_request("kernel"), &mut db);
    assert_eq!(again.response, rejected("No logging was active"));
    assert_eq!(again.terminate, None);
    let c = db.lookup(&"kernel".to_string()).expect("known");
    assert_eq!(c.previous_log_path(), &Some("/tmp/a".to_string()));
    assert_eq!(c.log_path(), &None);
    assert!(!c.active());
}

#[test]
fn start_stop_status_round_trip() {
    let mut db: LoggerState<u32> = LoggerState::new();
    start_ok(&mut db, "sc_sm", "/tmp/a", 77);
    let out = stop(&stop_request("sc_sm"), &mut db);
    assert_eq!(
        out.response,
        LoggingResponse {
            components: vec![entry("sc_sm", None, Some("/tmp/a"), false)],
            request_status: true,
            request_message: Some("Logging stopped".to_string()),
        }
    );
    assert_eq!(out.terminate, Some(77));
    let resp = status(&mut db);
    assert_eq!(resp.request_message, Some("No logging active".to_string()));
    assert_eq!(resp.components[2], entry("sc_sm", None, Some("/tmp/a"), false));
    assert_eq!(db.call_count(), 3);
}

#[test]
fn every_operation_counts_once() {
    let mut db: LoggerState<u32> = LoggerState::new();
    status(&mut db);
    assert_eq!(db.call_count(), 1);
    start(&start_request("journal", "/tmp/j"), &mut db);
    assert_eq!(db.call_count(), 2);
    start_ok(&mut db, "kernel", "/tmp/k", 1);
    assert_eq!(db.call_count(), 3);
    start(&start_request("kernel", "/tmp/k"), &mut db);
    assert_eq!(db.call_count(), 4);
    stop(&stop_request("kernel"), &mut db);
    assert_eq!(db.call_count(), 5);
    stop(&stop_request("kernel"), &mut db);
    assert_eq!(db.call_count(), 6);
    stop(&StopLoggingRequest { component: None }, &mut db);
    assert_eq!(db.call_count(), 7);
    let order = expect_order(start(&start_request("sc_sm", "/tmp/s"), &mut db));
    assert_eq!(db.call_count(), 8);
    complete_start(order, Err(SpawnError::Launch), &mut db);
    assert_eq!(db.call_count(), 8);
}

#[test]
fn start_order_does_not_matter() {
    let mut ab: LoggerState<u32> = LoggerState::new();
    let a1 = start_ok(&mut ab, "sc_phy", "/tmp/phy.log", 1);
    let b1 = start_ok(&mut ab, "kernel", "/tmp/k.log", 2);

    let mut ba: LoggerState<u32> = LoggerState::new();
    let b2 = start_ok(&mut ba, "kernel", "/tmp/k.log", 2);
    let a2 = start_ok(&mut ba, "sc_phy", "/tmp/phy.log", 1);

    assert_eq!(a1.response, a2.response);
    assert_eq!(b1.response, b2.response);
    let report = status(&mut ab);
    assert_eq!(report, status(&mut ba));
    assert_eq!(
        report.components,
        vec![
            entry("sc_phy", Some("/tmp/phy.log"), None, true),
            entry("sc_scheduler", None, None, false),
            entry("sc_sm", None, None, false),
            entry("kernel", Some("/tmp/k.log"), None, true),
        ]
    );
    assert_eq!(report.request_message, Some("Logging active".to_string()));
}

#[test]
fn restart_on_another_path_hands_back_the_old_process() {
    let mut db: LoggerState<u32> = LoggerState::new();
    start_ok(&mut db, "kernel", "/tmp/one", 1);
    let out = start_ok(&mut db, "kernel", "/tmp/two", 2);
    assert_eq!(
        out.response,
        LoggingResponse {
            components: vec![entry("kernel", Some("/tmp/two"), Some("/tmp/one"), true)],
            request_status: true,
            request_message: Some("Logging started".to_string()),
        }
    );
    assert_eq!(out.terminate, Some(1));
    let stopped = stop(&stop_request("kernel"), &mut db);
    assert_eq!(stopped.terminate, Some(2));
    assert_eq!(stopped.response.components, vec![entry("kernel", None, Some("/tmp/two"), false)]);
}

#[test]
fn start_after_stop_keeps_the_previous_path() {
    let mut db: LoggerState<u32> = LoggerState::new();
    start_ok(&mut db, "kernel", "/tmp/one", 1);
    stop(&stop_request("kernel"), &mut db);
    let out = start_ok(&mut db, "kernel", "/tmp/two", 2);
    assert_eq!(out.response.components, vec![entry("kernel", Some("/tmp/two"), Some("/tmp/one"), true)]);
    assert_eq!(out.terminate, None);
    let same_path_again = start_ok(&mut db, "kernel", "/tmp/two", 3);
    assert_eq!(same_path_again.response, rejected("Already logging to this log_path"));
}

#[test]
fn start_on_the_path_of_a_stopped_component_is_accepted() {
    let mut db: LoggerState<u32> = LoggerState::new();
    start_ok(&mut db, "kernel", "/tmp/one", 1);
    stop(&stop_request("kernel"), &mut db);
    let out = start_ok(&mut db, "kernel", "/tmp/one", 2);
    assert!(out.response.request_status);
    assert_eq!(out.response.components, vec![entry("kernel", Some("/tmp/one"), Some("/tmp/one"), true)]);
}

#[test]
fn empty_path_is_rejected() {
    let mut db: LoggerState<u32> = LoggerState::new();
    let decision = start(&start_request("kernel", ""), &mut db);
    assert_eq!(decision, StartDecision::Answer(rejected("Could not create log file")));
    assert_eq!(status(&mut db).components, idle_report());
}

#[test]
fn failed_launch_changes_nothing() {
    let mut db: LoggerState<u32> = LoggerState::new();
    start_ok(&mut db, "sc_phy", "/tmp/phy.log", 9);
    let before = status(&mut db).components;

    let order = expect_order(start(&start_request("kernel", "/nowhere/k.log"), &mut db));
    let out = complete_start(order, Err(SpawnError::OutputFile), &mut db);
    assert_eq!(out.response, rejected("Could not create log file"));
    assert_eq!(out.terminate, None);

    let order = expect_order(start(&start_request("kernel", "/tmp/k.log"), &mut db));
    let out = complete_start(order, Err(SpawnError::Launch), &mut db);
    assert_eq!(out.response, rejected("Failed to execute logging command"));
    assert_eq!(out.terminate, None);

    let order = expect_order(start(&start_request("sc_phy", "/tmp/other.log"), &mut db));
    let out = complete_start(order, Err(SpawnError::Launch), &mut db);
    assert!(!out.response.request_status);

    assert_eq!(status(&mut db).components, before);
}

#[test]
fn launch_for_unknown_component_is_handed_back() {
    let mut db: LoggerState<u32> = LoggerState::new();
    let mut order = expect_order(start(&start_request("kernel", "/tmp/k.log"), &mut db));
    order.component = "journal".to_string();
    let out = complete_start(order, Ok(4), &mut db);
    assert_eq!(out.response, rejected("Invalid component"));
    assert_eq!(out.terminate, Some(4));
    assert_eq!(status(&mut db).components, idle_report());
}

#[test]
fn start_component_changes_nothing() {
    let db: LoggerState<u32> = LoggerState::new();
    let decision = start_component(&"sc_sm".to_string(), &"/tmp/sm.log".to_string(), &db);
    let order = expect_order(decision);
    assert_eq!(order.component, "sc_sm");
    assert_eq!(order.log_path, "/tmp/sm.log");
    assert_eq!(db.call_count(), 0);
    assert!(!db.active());
    assert_eq!(
        start_component(&"sm".to_string(), &"/tmp/sm.log".to_string(), &db),
        StartDecision::Answer(rejected("Invalid component"))
    );
}

#[test]
fn stop_component_does_not_count() {
    let mut db: LoggerState<u32> = LoggerState::new();
    start_ok(&mut db, "sc_sm", "/tmp/sm.log", 8);
    let out = stop_component(&"sc_sm".to_string(), &mut db);
    assert_eq!(out.terminate, Some(8));
    assert_eq!(out.response.request_message, Some("Logging stopped".to_string()));
    assert_eq!(db.call_count(), 1);
    let out = stop_component(&"sc_sm".to_string(), &mut db);
    assert_eq!(out.response, rejected("No logging was active"));
    let out = stop_component(&"nobody".to_string(), &mut db);
    assert_eq!(out.response, rejected("Invalid component"));
}

#[test]
fn status_says_active_while_any_component_is_active() {
    let mut db: LoggerState<u32> = LoggerState::new();
    start_ok(&mut db, "sc_phy", "/tmp/phy.log", 1);
    start_ok(&mut db, "kernel", "/tmp/k.log", 2);
    assert!(db.active());
    stop(&stop_request("sc_phy"), &mut db);
    assert_eq!(status(&mut db).request_message, Some("Logging active".to_string()));
    stop(&stop_request("kernel"), &mut db);
    assert!(!db.active());
    assert_eq!(status(&mut db).request_message, Some("No logging active".to_string()));
}

#[test]
fn default_responses_are_empty() {
    assert_eq!(
        LoggingResponse::default(),
        LoggingResponse { components: vec![], request_status: false, request_message: None }
    );
    assert_eq!(ComponentLoggingResponse::default(), entry("", None, None, false));
}
