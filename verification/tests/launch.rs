use process_manager::launch::{StartAction, StartEvent, StartRun};
use process_manager::process::Launch;
use process_manager::{ManagerError, ProcessItem, ProcessManager};

fn strings(values: &[&str]) -> Vec<String> {
    values.iter().map(|v| v.to_string()).collect()
}

fn item(name: &str) -> ProcessItem {
    ProcessItem {
        name: name.to_string(),
        tags: vec![],
        command: format!("run {}", name),
        process_type: String::new(),
        log_path: format!("/log/{}", name),
        detection_start_cmd: format!("pgrep {}", name),
        comment: String::new(),
    }
}

fn store(names: &[&str]) -> ProcessManager {
    let mut pm = ProcessManager::new(".");
    for name in names {
        pm.add(item(name));
    }
    pm
}

fn spawn_of(name: &str) -> StartAction {
    StartAction::Spawn(Launch {
        argv: strings(&["bash", "-c", &format!("run {}", name)]),
        log_path: format!("/log/{}", name),
    })
}

fn detect_of(name: &str) -> StartAction {
    StartAction::Detect(format!("pgrep {}", name))
}

#[test]
fn nothing_selected_finishes_at_once() {
    let pm = store(&["a", "b"]);
    let mut run = pm.start(vec![]);
    assert_eq!(run.action(), StartAction::Finish);
    run.advance(StartEvent::Spawned);
    assert_eq!(run.action(), StartAction::Finish);
    let run = pm.start(strings(&["zzz"]));
    assert_eq!(run.action(), StartAction::Finish);
    assert_eq!(StartRun::new(vec![]).action(), StartAction::Finish);
}

#[test]
fn an_idle_process_is_detected_then_launched() {
    let pm = store(&["a"]);
    let mut run = pm.start(strings(&["a"]));
    assert_eq!(run.action(), detect_of("a"));
    run.advance(StartEvent::Output(String::new()));
    assert_eq!(run.action(), spawn_of("a"));
    run.advance(StartEvent::Spawned);
    assert_eq!(run.action(), StartAction::Finish);
}

#[test]
fn a_running_process_is_skipped() {
    let pm = store(&["a", "b"]);
    let mut run = pm.start(strings(&["a", "b"]));
    assert_eq!(run.action(), detect_of("a"));
    run.advance(StartEvent::Output("4711".to_string()));
    assert_eq!(run.action(), detect_of("b"));
    run.advance(StartEvent::Output("4712".to_string()));
    assert_eq!(run.action(), StartAction::Finish);
}

#[test]
fn targets_come_in_file_order() {
    let pm = store(&["c", "a", "b", "a"]);
    let mut run = pm.start(strings(&["a", "c"]));
    assert_eq!(run.action(), detect_of("c"));
    run.advance(StartEvent::Output(String::new()));
    assert_eq!(run.action(), spawn_of("c"));
    run.advance(StartEvent::Spawned);
    assert_eq!(run.action(), detect_of("a"));
    run.advance(StartEvent::Output("up".to_string()));
    assert_eq!(run.action(), detect_of("a"));
    run.advance(StartEvent::Output(String::new()));
    assert_eq!(run.action(), spawn_of("a"));
    run.advance(StartEvent::Spawned);
    assert_eq!(run.action(), StartAction::Finish);
}

#[test]
fn a_failed_detection_aborts_the_run() {
    let pm = store(&["a", "b"]);
    let mut run = pm.start(strings(&["a", "b"]));
    run.advance(StartEvent::Failed);
    assert_eq!(run.action(), StartAction::Abort(ManagerError::DetectionCommandError));
    run.advance(StartEvent::Output(String::new()));
    run.advance(StartEvent::Spawned);
    assert_eq!(run.action(), StartAction::Abort(ManagerError::DetectionCommandError));
    assert!(ManagerError::DetectionCommandError.is_fatal());
}

#[test]
fn a_failed_launch_aborts_the_run() {
    let pm = store(&["a", "b"]);
    let mut run = pm.start(strings(&["a", "b"]));
    run.advance(StartEvent::Output(String::new()));
    run.advance(StartEvent::Failed);
    assert_eq!(run.action(), StartAction::Abort(ManagerError::SpawnError));
    run.advance(StartEvent::Spawned);
    assert_eq!(run.action(), StartAction::Abort(ManagerError::SpawnError));
    assert!(ManagerError::SpawnError.is_fatal());
}

#[test]
fn an_outcome_that_answers_nothing_is_ignored() {
    let pm = store(&["a"]);
    let mut run = pm.start(strings(&["a"]));
    run.advance(StartEvent::Spawned);
    assert_eq!(run.action(), detect_of("a"));
    run.advance(StartEvent::Output(String::new()));
    run.advance(StartEvent::Output("late".to_string()));
    assert_eq!(run.action(), spawn_of("a"));
}
