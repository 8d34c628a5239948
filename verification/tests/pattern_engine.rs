//! The scanner against the announcement pattern run by a regular-expression
//! engine, on the same per-chunk, fold-then-scan discipline.

use regex::Regex;
use ssh_runtime::scanner::{pid_to_string, scan_chunk};

fn scan(text: &str) -> Option<String> {
    let chunk: Vec<u8> = text.as_bytes().to_vec();
    scan_chunk(&chunk).map(|digits| pid_to_string(&digits))
}

fn engine_scan(text: &str) -> Option<String> {
    let folded = String::from_utf8(text.as_bytes().to_ascii_lowercase()).unwrap();
    let re = Regex::new(r"server is on host (.*) on pid (\d+)").unwrap();
    re.captures(folded.as_str())
        .and_then(|cap| cap.get(2).map(|m| m.as_str().to_string()))
}

#[test]
fn scanner_agrees_with_the_pattern_engine() {
    let samples = [
        "Server is on host worker-1 on pid 4242\n",
        "SERVER IS ON HOST H ON PID 7\n",
        "SeRvEr Is On HoSt h On PiD 8\n",
        "hello\n",
        "",
        "server is on host a on pid 12 on pid 34\n",
        "SERVER IS ON HOST A ON PID 12 ON PID 34\n",
        "server is on host h on pid 007x\n",
        "server is on host a\n on pid 5\n",
        "server is on host a\r on pid 8\n",
        "noise\nserver is on host h on pid 99\n",
        "server is on host a on pid 1\nserver is on host b on pid 2\n",
        "server is on host only\n",
        "server is on host h on pid x\n",
        "server is on host h on pid 123",
        "abc server is on host h on pid 55 tail\n",
        "server is on host server is on host x on pid 5\n",
        "server is on host  on pid 6\n",
        "server is on host on pid 6\n",
        "server is on host x on pid 12on pid 34\n",
        "server is on host caf\u{e9} on pid 9\n",
        "server is on host a on pid  5\n",
        "on pid 3 server is on host h on pid 3\n",
        "server is on host h ON PID 21\n",
        "Server is on host h on pid 0\n",
        "server is on host h on pid 123456789012345678901234567890\n",
        "server is on host \ta on pid 4\n",
        "xserver is on host h on pid 11\n",
    ];
    for text in samples {
        assert_eq!(scan(text), engine_scan(text), "sample {:?}", text);
    }
}
