use process_manager::process::{
    describe, elapsed_seconds, get_process_info, is_started, shell_command, swpan,
    ProcessSnapshot,
};
use process_manager::ManagerError;

fn strings(values: &[&str]) -> Vec<String> {
    values.iter().map(|v| v.to_string()).collect()
}

fn snapshot(cmd: &[&str], start_time: u64) -> ProcessSnapshot {
    ProcessSnapshot { cmd: strings(cmd), start_time }
}

#[test]
fn empty_output_means_not_running() {
    assert!(!is_started(""));
}

#[test]
fn any_output_means_running() {
    assert!(is_started("1234"));
    assert!(is_started(" "));
    assert!(is_started("\n"));
    assert!(is_started("exit status: 1"));
    assert!(is_started("进程"));
}

#[test]
fn commands_run_through_the_shell() {
    assert_eq!(shell_command("sleep 5 && echo hi"), strings(&["bash", "-c", "sleep 5 && echo hi"]));
    assert_eq!(shell_command(""), strings(&["bash", "-c", ""]));
}

#[test]
fn a_launch_names_command_and_log() {
    let launch = swpan("java -jar app.jar", "/var/log/app.log");
    assert_eq!(launch.argv, strings(&["bash", "-c", "java -jar app.jar"]));
    assert_eq!(launch.log_path, "/var/log/app.log");
}

#[test]
fn elapsed_is_the_difference_in_seconds() {
    assert_eq!(elapsed_seconds(100, 160), Ok(60));
    assert_eq!(elapsed_seconds(100, 100), Ok(0));
    assert_eq!(elapsed_seconds(0, u64::MAX), Ok(u64::MAX));
}

#[test]
fn a_start_in_the_future_is_a_clock_error() {
    assert_eq!(elapsed_seconds(161, 160), Err(ManagerError::ClockError));
    assert_eq!(elapsed_seconds(u64::MAX, 0), Err(ManagerError::ClockError));
    assert!(!ManagerError::ClockError.is_fatal());
}

#[test]
fn describe_joins_the_arguments_with_spaces() {
    let info = describe(&snapshot(&["python", "-m", "http.server"], 10), "then".to_string(), 25);
    assert_eq!(info.0, "python -m http.server");
    assert_eq!(info.1, "then");
    assert_eq!(info.2, 15);
    let info = describe(&snapshot(&[], 10), String::new(), 10);
    assert_eq!(info, (String::new(), String::new(), 0));
    let info = describe(&snapshot(&["one"], 10), "t".to_string(), 11);
    assert_eq!(info.0, "one");
    let info = describe(&snapshot(&["a", "", "b"], 0), "t".to_string(), 0);
    assert_eq!(info.0, "a  b");
}

#[test]
fn describe_puts_zero_for_a_negative_time() {
    let info = describe(&snapshot(&["late"], 500), "t".to_string(), 499);
    assert_eq!(info.2, 0);
}

#[test]
fn no_process_gives_no_description() {
    assert_eq!(get_process_info(None, 1_700_000_000, 0), None);
}

#[test]
fn a_process_is_described_with_its_start_time() {
    let info = get_process_info(
        Some(snapshot(&["python", "-m", "http.server"], 1_431_648_000)),
        1_431_648_090,
        0,
    );
    assert_eq!(
        info,
        Some(("python -m http.server".to_string(), "2015-05-15 00:00:00".to_string(), 90))
    );
}

#[test]
fn the_start_time_is_read_on_the_local_clock() {
    let east = get_process_info(Some(snapshot(&["x"], 1_431_648_000)), 1_431_648_000, 3600);
    assert_eq!(east, Some(("x".to_string(), "2015-05-15 01:00:00".to_string(), 0)));
    let west = get_process_info(Some(snapshot(&["x"], 0)), 5, -3600);
    assert_eq!(west, Some(("x".to_string(), "1969-12-31 23:00:00".to_string(), 5)));
    let epoch = get_process_info(Some(snapshot(&["x"], 0)), 0, 0);
    assert_eq!(epoch, Some(("x".to_string(), "1970-01-01 00:00:00".to_string(), 0)));
    let leap = get_process_info(Some(snapshot(&["x"], 1_709_251_199)), 1_709_251_199, 0);
    assert_eq!(leap, Some(("x".to_string(), "2024-02-29 23:59:59".to_string(), 0)));
}

#[test]
fn a_start_after_now_gives_zero_seconds() {
    let info = get_process_info(Some(snapshot(&["x"], 1_431_648_000)), 1_431_647_000, 0);
    assert_eq!(info, Some(("x".to_string(), "2015-05-15 00:00:00".to_string(), 0)));
}

#[test]
fn a_start_time_that_cannot_be_written_gives_no_description() {
    assert_eq!(get_process_info(Some(snapshot(&["x"], u64::MAX)), u64::MAX, 0), None);
    assert_eq!(get_process_info(Some(snapshot(&["x"], 1u64 << 63)), u64::MAX, 0), None);
    assert_eq!(get_process_info(Some(snapshot(&["x"], i64::MAX as u64)), u64::MAX, 0), None);
    assert_eq!(get_process_info(Some(snapshot(&["x"], 0)), 0, 86_400), None);
    assert_eq!(get_process_info(Some(snapshot(&["x"], 0)), 0, -86_400), None);
}
