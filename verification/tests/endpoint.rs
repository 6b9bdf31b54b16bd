use web_intelligence::endpoint::find_endpoint;
use web_intelligence::endpoint::scan_lines;

#[test]
fn extracts_the_endpoint_from_a_noisy_line() {
    let line = "DevTools listening on ws://127.0.0.1:9222/devtools/browser/3aa3-77bc_e1 (pid 4711)";
    assert_eq!(
        find_endpoint(line),
        Some(String::from("ws://127.0.0.1:9222/devtools/browser/3aa3-77bc_e1"))
    );
}

#[test]
fn matches_a_whole_line_endpoint() {
    let line = "ws://127.0.0.1:1/devtools/browser/a";
    assert_eq!(find_endpoint(line), Some(String::from(line)));
}

#[test]
fn first_occurrence_in_a_line_wins() {
    let line = "ws://127.0.0.1:1111/devtools/browser/first then ws://127.0.0.1:2222/devtools/browser/second";
    assert_eq!(
        find_endpoint(line),
        Some(String::from("ws://127.0.0.1:1111/devtools/browser/first"))
    );
}

#[test]
fn identifier_stops_at_the_first_foreign_character() {
    let line = "ws://127.0.0.1:9222/devtools/browser/ab-c.d";
    assert_eq!(find_endpoint(line), Some(String::from("ws://127.0.0.1:9222/devtools/browser/ab-c")));
}

#[test]
fn near_misses_do_not_match() {
    assert_eq!(find_endpoint(""), None);
    assert_eq!(find_endpoint("nothing to see here"), None);
    assert_eq!(find_endpoint("ws://localhost:9222/devtools/browser/abc"), None);
    assert_eq!(find_endpoint("ws://127.0.0.1:/devtools/browser/abc"), None);
    assert_eq!(find_endpoint("ws://127.0.0.1:9222/devtools/browser/"), None);
    assert_eq!(find_endpoint("ws://127.0.0.1:9222/devtools/page/abc"), None);
    assert_eq!(find_endpoint("http://127.0.0.1:9222/devtools/browser/abc"), None);
    assert_eq!(find_endpoint("ws://127.0.0.2:9222/devtools/browser/abc"), None);
}

#[test]
fn the_port_takes_every_digit() {
    let line = "ws://127.0.0.1:65535/devtools/browser/x";
    assert_eq!(find_endpoint(line), Some(String::from(line)));
}

#[test]
fn first_endpoint_line_wins_across_the_stream() {
    let lines = vec![
        String::from("[warning] something unrelated"),
        String::from("DevTools listening on ws://127.0.0.1:9222/devtools/browser/first-id"),
        String::from("DevTools listening on ws://127.0.0.1:9333/devtools/browser/second-id"),
    ];
    assert_eq!(
        scan_lines(&lines),
        Some(String::from("ws://127.0.0.1:9222/devtools/browser/first-id"))
    );
}

#[test]
fn a_stream_without_endpoints_yields_nothing() {
    assert_eq!(scan_lines(&vec![]), None);
    assert_eq!(
        scan_lines(&vec![String::from("starting"), String::from("still starting")]),
        None
    );
}

#[test]
fn a_broken_prefix_does_not_hide_a_later_endpoint() {
    let line = "ws://127.0.0.1:abc then ws://127.0.0.1:9000/devtools/browser/real-0";
    assert_eq!(
        find_endpoint(line),
        Some(String::from("ws://127.0.0.1:9000/devtools/browser/real-0"))
    );
}

#[test]
fn non_ascii_noise_around_the_endpoint_is_harmless() {
    let line = "Gerät bereit → ws://127.0.0.1:9222/devtools/browser/id-1 ✓";
    assert_eq!(
        find_endpoint(line),
        Some(String::from("ws://127.0.0.1:9222/devtools/browser/id-1"))
    );
}
