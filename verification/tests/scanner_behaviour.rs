use ssh_runtime::scanner::{pid_to_string, scan_chunk};

fn scan(text: &str) -> Option<String> {
    let chunk: Vec<u8> = text.as_bytes().to_vec();
    scan_chunk(&chunk).map(|digits| pid_to_string(&digits))
}

#[test]
fn happy_announcement_line() {
    assert_eq!(scan("Server is on host worker-1 on pid 4242\n"), Some("4242".to_string()));
}

#[test]
fn uppercase_single_chunk() {
    assert_eq!(scan("SERVER IS ON HOST H ON PID 7\n"), Some("7".to_string()));
}

#[test]
fn mixed_case_announcement() {
    assert_eq!(scan("SeRvEr Is On HoSt h On PiD 8\n"), Some("8".to_string()));
}

#[test]
fn no_announcement() {
    assert_eq!(scan("hello\n"), None);
}

#[test]
fn empty_chunk() {
    assert_eq!(scan(""), None);
}

#[test]
fn greedy_host_capture_takes_last_marker() {
    assert_eq!(scan("server is on host a on pid 12 on pid 34\n"), Some("34".to_string()));
}

#[test]
fn digit_run_is_maximal_and_stops_at_non_digit() {
    assert_eq!(scan("server is on host h on pid 007x\n"), Some("007".to_string()));
}

#[test]
fn host_capture_does_not_cross_line_break() {
    assert_eq!(scan("server is on host a\n on pid 5\n"), None);
}

#[test]
fn announcement_on_second_line() {
    assert_eq!(scan("noise\nserver is on host h on pid 99\n"), Some("99".to_string()));
}

#[test]
fn first_of_two_matching_lines_wins() {
    assert_eq!(
        scan("server is on host a on pid 1\nserver is on host b on pid 2\n"),
        Some("1".to_string())
    );
}

#[test]
fn prefix_without_marker() {
    assert_eq!(scan("server is on host only\n"), None);
}

#[test]
fn marker_without_digits() {
    assert_eq!(scan("server is on host h on pid x\n"), None);
}

#[test]
fn announcement_without_trailing_newline() {
    assert_eq!(scan("server is on host h on pid 123"), Some("123".to_string()));
}

#[test]
fn announcement_amid_surrounding_noise() {
    assert_eq!(scan("abc server is on host h on pid 55 tail\n"), Some("55".to_string()));
}

#[test]
fn repeated_prefix_is_part_of_host_capture() {
    assert_eq!(
        scan("server is on host server is on host x on pid 5\n"),
        Some("5".to_string())
    );
}

#[test]
fn empty_host_capture() {
    assert_eq!(scan("server is on host  on pid 6\n"), Some("6".to_string()));
}
