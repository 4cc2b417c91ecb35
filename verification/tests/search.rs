use process_manager::search::{field_accepts, tags_accept};
use process_manager::{ProcessItem, ProcessManager, SearchArgs};

fn strings(values: &[&str]) -> Vec<String> {
    values.iter().map(|v| v.to_string()).collect()
}

fn sample() -> ProcessItem {
    ProcessItem {
        name: "api".to_string(),
        tags: strings(&["x", "y"]),
        command: "serve --port 80".to_string(),
        process_type: "rust".to_string(),
        log_path: "/tmp/api.log".to_string(),
        detection_start_cmd: "pgrep api".to_string(),
        comment: "front door".to_string(),
    }
}

fn no_criteria() -> SearchArgs {
    SearchArgs::all()
}

#[test]
fn no_criteria_match_everything() {
    assert!(no_criteria().matches(&sample()));
    assert!(ProcessManager::filter(&sample(), &no_criteria()));
}

#[test]
fn tag_filter_needs_one_shared_tag() {
    let item = sample();
    let overlapping = SearchArgs { tags: Some(strings(&["y", "z"])), ..no_criteria() };
    let disjoint = SearchArgs { tags: Some(strings(&["z", "w"])), ..no_criteria() };
    let empty = SearchArgs { tags: Some(vec![]), ..no_criteria() };
    assert!(overlapping.matches(&item));
    assert!(!disjoint.matches(&item));
    assert!(!empty.matches(&item));
    assert!(tags_accept(&Some(strings(&["y", "z"])), &item.tags));
    assert!(!tags_accept(&Some(strings(&["z", "w"])), &item.tags));
    assert!(tags_accept(&None, &item.tags));
    assert!(!tags_accept(&Some(strings(&["x"])), &vec![]));
}

#[test]
fn single_valued_filters_need_an_exact_value() {
    let item = sample();
    assert!(SearchArgs { name: Some(strings(&["db", "api"])), ..no_criteria() }.matches(&item));
    assert!(!SearchArgs { name: Some(strings(&["ap", "api "])), ..no_criteria() }.matches(&item));
    assert!(SearchArgs { command: Some(strings(&["serve --port 80"])), ..no_criteria() }
        .matches(&item));
    assert!(!SearchArgs { command: Some(strings(&["serve"])), ..no_criteria() }.matches(&item));
    assert!(SearchArgs { process_type: Some(strings(&["rust"])), ..no_criteria() }.matches(&item));
    assert!(!SearchArgs { process_type: Some(strings(&["java"])), ..no_criteria() }
        .matches(&item));
    assert!(SearchArgs { log_path: Some(strings(&["/tmp/api.log"])), ..no_criteria() }
        .matches(&item));
    assert!(!SearchArgs { log_path: Some(strings(&["/tmp"])), ..no_criteria() }.matches(&item));
    assert!(field_accepts(&None, &item.name));
    assert!(!field_accepts(&Some(vec![]), &item.name));
}

#[test]
fn detection_filter_looks_at_the_detection_command() {
    let item = sample();
    let by_detection =
        SearchArgs { detection_start_cmd: Some(strings(&["pgrep api"])), ..no_criteria() };
    let by_log_path =
        SearchArgs { detection_start_cmd: Some(strings(&["/tmp/api.log"])), ..no_criteria() };
    assert!(by_detection.matches(&item));
    assert!(!by_log_path.matches(&item));
}

#[test]
fn every_given_criterion_must_hold() {
    let item = sample();
    let both = SearchArgs {
        name: Some(strings(&["api"])),
        tags: Some(strings(&["x"])),
        ..no_criteria()
    };
    let one_fails = SearchArgs {
        name: Some(strings(&["api"])),
        tags: Some(strings(&["q"])),
        ..no_criteria()
    };
    let command_fails = SearchArgs {
        command: Some(strings(&["other"])),
        name: Some(strings(&["api"])),
        ..no_criteria()
    };
    assert!(both.matches(&item));
    assert!(!one_fails.matches(&item));
    assert!(!command_fails.matches(&item));
    assert!(!ProcessManager::filter(&item, &command_fails));
}
