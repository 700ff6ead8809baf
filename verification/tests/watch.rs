use heim::cli::{Cli, Commands};
use heim::config::{AsService, Config, Host, Log};
use heim::error::HookPhase;
use heim::hook::{invocation, HookResult, Invocation};
use heim::manifest::{Artifact, Run};
use heim::service::{
    handle_control, Control, ControlAnswer, ServiceArguments, ServicePhase, StatusReport, SERVICE_DESCRIPTION,
    SERVICE_DISPLAY_NAME, SERVICE_NAME,
};
use heim::watch::{Change, Debounce};

fn change(modify: bool, paths: &[&str]) -> Change {
    Change { modify, paths: paths.iter().map(|path| path.to_string()).collect() }
}

#[test]
fn only_modifications_of_the_manifest_concern_it() {
    assert!(change(true, &["Heim.json"]).is_about("Heim.json"));
    assert!(change(true, &["/etc/heim/Heim.json"]).is_about("Heim.json"));
    assert!(change(true, &["C:\\heim\\Heim.json"]).is_about("Heim.json"));
    assert!(change(true, &["/etc/heim/other.txt", "/etc/heim/./Heim.json"]).is_about("Heim.json"));
    assert!(!change(false, &["Heim.json"]).is_about("Heim.json"));
    assert!(!change(true, &["/etc/heim/Heim.json.swp"]).is_about("Heim.json"));
    assert!(!change(true, &["/etc/Heim.json/other"]).is_about("Heim.json"));
    assert!(!change(true, &["heim.json"]).is_about("Heim.json"));
    assert!(!change(true, &[]).is_about("Heim.json"));
    assert!(!change(true, &["", "/"]).is_about("Heim.json"));
}

#[test]
fn a_burst_of_changes_is_one_reload() {
    let mut debounce = Debounce::new(300);
    assert_eq!(debounce, Debounce { window: 300, due: None });
    assert!(!debounce.poll(0));
    assert_eq!(debounce.wait(0), None);
    debounce.notice(1000);
    assert_eq!(debounce.due, Some(1300));
    assert_eq!(debounce.wait(1000), Some(300));
    assert!(!debounce.poll(1299));
    debounce.notice(1200);
    debounce.notice(1250);
    assert_eq!(debounce.due, Some(1550));
    assert!(!debounce.poll(1300));
    assert!(!debounce.poll(1549));
    assert_eq!(debounce.wait(1549), Some(1));
    assert_eq!(debounce.wait(1550), Some(0));
    assert_eq!(debounce.wait(9999), Some(0));
    assert!(debounce.poll(1550));
    assert_eq!(debounce, Debounce { window: 300, due: None });
    assert!(!debounce.poll(1551));
    assert!(!debounce.poll(u64::MAX));
    debounce.notice(2000);
    assert!(debounce.poll(5000));
    assert!(!debounce.poll(5000));
}

#[test]
fn the_count_of_time_ends_without_wrapping() {
    let mut debounce = Debounce::new(500);
    debounce.notice(u64::MAX - 100);
    assert_eq!(debounce.due, Some(u64::MAX));
    assert!(!debounce.poll(u64::MAX - 1));
    assert!(debounce.poll(u64::MAX));
    let mut immediate = Debounce::new(0);
    immediate.notice(7);
    assert!(immediate.poll(7));
}

#[test]
fn exit_codes_make_hook_results() {
    assert_eq!(HookResult::from_exit(Some(0), "done".to_string()), HookResult::Success("done".to_string()));
    assert_eq!(HookResult::from_exit(Some(2), "bad".to_string()), HookResult::NonZeroExit(2, "bad".to_string()));
    assert_eq!(HookResult::from_exit(Some(-7), String::new()), HookResult::NonZeroExit(-7, String::new()));
    assert_eq!(HookResult::from_exit(None, "killed".to_string()), HookResult::NonZeroExit(-1, "killed".to_string()));
}

#[test]
fn only_success_lets_the_deployment_go_on() {
    assert!(HookResult::Success(String::new()).proceeds());
    assert!(!HookResult::NonZeroExit(1, String::new()).proceeds());
    assert!(!HookResult::TimedOut.proceeds());
    assert!(!HookResult::SpawnFailed("no shell".to_string()).proceeds());
}

#[test]
fn hooks_are_found_by_phase() {
    let artifact = Artifact {
        id: "a".to_string(),
        kind: "java".to_string(),
        backup: false,
        destination: "a".to_string(),
        excluded_files: None,
        run_before: Some(Run { powershell: Some("stop".to_string()) }),
        run_after: Some(Run { powershell: None }),
    };
    assert_eq!(artifact.hook(HookPhase::Before), Some(&"stop".to_string()));
    assert_eq!(artifact.hook(HookPhase::After), None);
}

#[test]
fn a_hook_is_handed_to_the_shell() {
    assert_eq!(
        invocation("Start-Process up.ps1"),
        Invocation {
            program: "powershell".to_string(),
            arguments: vec![
                "-NoProfile".to_string(),
                "-NonInteractive".to_string(),
                "-Command".to_string(),
                "Start-Process up.ps1".to_string(),
            ],
        }
    );
}

#[test]
fn the_service_is_started_with_log_and_port() {
    let config = Config {
        log: Log { path: "C:\\logs\\heim.log".to_string() },
        service: AsService { active: true },
        host: Host { port: 8080 },
    };
    let arguments = config.service_arguments();
    assert_eq!(arguments, vec!["C:\\logs\\heim.log".to_string(), "8080".to_string()]);
    let read = ServiceArguments::read(&arguments).expect("two arguments are there");
    assert_eq!(read, ServiceArguments { log: "C:\\logs\\heim.log".to_string(), port: "8080".to_string() });
    assert_eq!(read.address(), "127.0.0.1:8080");
    assert_eq!(ServiceArguments::read(&vec!["only".to_string()]), None);
    assert_eq!(ServiceArguments::read(&vec![]), None);
    let more = vec!["a".to_string(), "1".to_string(), "x".to_string()];
    assert_eq!(ServiceArguments::read(&more).unwrap().address(), "127.0.0.1:1");
}

#[test]
fn the_service_answers_the_manager() {
    assert_eq!(handle_control(Control::Interrogate), (ControlAnswer::NoError, false));
    assert_eq!(handle_control(Control::Stop), (ControlAnswer::NoError, true));
    assert_eq!(handle_control(Control::Other), (ControlAnswer::NotImplemented, false));
}

#[test]
fn the_service_reports_its_states_in_order() {
    let start = ServicePhase::StartPending;
    assert_eq!(
        start.report(),
        StatusReport { phase: start, accepts_stop: false, checkpoint: 1, wait_hint_seconds: 10 }
    );
    let running = start.following().unwrap();
    assert_eq!(
        running.report(),
        StatusReport { phase: ServicePhase::Running, accepts_stop: true, checkpoint: 0, wait_hint_seconds: 0 }
    );
    let stopping = running.following().unwrap();
    assert_eq!(
        stopping.report(),
        StatusReport { phase: ServicePhase::StopPending, accepts_stop: false, checkpoint: 0, wait_hint_seconds: 3 }
    );
    let stopped = stopping.following().unwrap();
    assert_eq!(
        stopped.report(),
        StatusReport { phase: ServicePhase::Stopped, accepts_stop: false, checkpoint: 0, wait_hint_seconds: 0 }
    );
    assert_eq!(stopped.following(), None);
}

#[test]
fn commands_are_confirmed_by_name() {
    assert_eq!(SERVICE_NAME, "Heim");
    assert_eq!(SERVICE_DISPLAY_NAME, "Heim REST API (Windows Service)");
    assert_eq!(SERVICE_DESCRIPTION, "Heim running as a Windows Service");
    assert_eq!(Commands::Install.confirm(), "Service installed: Heim");
    assert_eq!(Commands::Uninstall.confirm(), "Service uninstalled: Heim");
    assert_eq!(Commands::Start.confirm(), "Service started: Heim");
    assert_eq!(Commands::Stop.confirm(), "Service stopped: Heim");
    assert_eq!(Cli { command: Commands::Stop }.command, Commands::Stop);
}
