use std::time::Duration;

use ffbins_rs::sources::Os;
use ffbins_rs::utils::{
    executable_name, find_in_path, format_time, is_time, parse_time, process_regex, time_values,
    try_parse_time, FoundPath, SearchDir,
};

fn dir(path: &str, has_file: bool) -> SearchDir {
    SearchDir { path: path.to_string(), has_file }
}

#[test]
fn parse_time_adds_the_fields_up() {
    assert_eq!(parse_time("01:02:03.45"), Duration::from_secs(3723) + Duration::from_millis(45));
    assert_eq!(parse_time("00:00:00.00"), Duration::ZERO);
    assert_eq!(parse_time("10:00:59.99"), Duration::new(36059, 99_000_000));
}

#[test]
fn parse_time_carries_whole_seconds_out_of_the_millis() {
    assert_eq!(parse_time("0:0:1.2500"), Duration::new(3, 500_000_000));
}

#[test]
fn parse_time_passes_over_further_pieces() {
    assert_eq!(parse_time("1:2:3.4:5"), Duration::new(3723, 4_000_000));
    assert_eq!(parse_time("1:2:3.4.5"), Duration::new(3723, 4_000_000));
}

#[test]
fn time_values_gives_seconds_and_millis() {
    assert_eq!(time_values("01:02:03.45"), Some((3723, 45)));
    assert_eq!(time_values("+1:+2:+3.+4"), Some((3723, 4)));
    assert_eq!(time_values("0:0:18446744073709551615.0"), Some((u64::MAX, 0)));
}

#[test]
fn time_values_turns_down_what_is_no_time_stamp() {
    for text in ["", "01:02", "01:02:03", "a:02:03.45", "01::03.45", "01:02:.45", "01:02:03.", "01:02:03.4x"] {
        assert_eq!(time_values(text), None);
        assert!(!is_time(text));
        assert_eq!(try_parse_time(text), None);
    }
}

#[test]
fn time_values_turns_down_what_does_not_fit() {
    assert_eq!(time_values("0:0:18446744073709551615.1000"), None);
    assert_eq!(time_values("5124095576030432:0:0.0"), None);
    assert_eq!(time_values("5124095576030431:0:0.0"), Some((5124095576030431 * 3600, 0)));
}

#[test]
fn try_parse_time_agrees_with_parse_time() {
    assert!(is_time("01:02:03.45"));
    assert_eq!(try_parse_time("01:02:03.45"), Some(parse_time("01:02:03.45")));
}

#[test]
fn process_regex_picks_the_first_time_stamp() {
    let line = "frame=  100 fps= 25 time=00:01:23.45 bitrate= 900kbits/s".to_string();
    assert_eq!(process_regex(line), "00:01:23.45");
    assert_eq!(process_regex("12:34:56.78 and 11:11:11.11".to_string()), "12:34:56.78");
    assert_eq!(process_regex("x123:45:67.890".to_string()), "23:45:67.89");
}

#[test]
fn process_regex_without_a_time_stamp() {
    assert_eq!(process_regex("nothing here".to_string()), "00:00:00.00");
    assert_eq!(process_regex("1:02:03.45".to_string()), "00:00:00.00");
    assert_eq!(process_regex(String::new()), "00:00:00.00");
}

#[test]
fn format_time_puts_the_groups_together() {
    let groups = vec![
        Some("01:02:03.04".to_string()),
        Some("01".to_string()),
        Some("02".to_string()),
        Some("03".to_string()),
        Some("04".to_string()),
    ];
    assert_eq!(format_time(Some(groups)), "01:02:03.04");
}

#[test]
fn format_time_without_four_groups() {
    assert_eq!(format_time(None), "00:00:00.00");
    assert_eq!(format_time(Some(Vec::new())), "00:00:00.00");
    let short = vec![Some("a".to_string()), Some("b".to_string())];
    assert_eq!(format_time(Some(short)), "00:00:00.00");
    let gap = vec![Some("w".to_string()), Some("1".to_string()), None, Some("3".to_string()), Some("4".to_string())];
    assert_eq!(format_time(Some(gap)), "00:00:00.00");
}

#[test]
fn executable_name_gets_exe_on_windows() {
    assert_eq!(executable_name("ffmpeg", Os::Windows), "ffmpeg.exe");
    assert_eq!(executable_name("ffmpeg.exe", Os::Windows), "ffmpeg.exe");
    assert_eq!(executable_name("ffmpeg", Os::Linux), "ffmpeg");
    assert_eq!(executable_name("ffmpeg", Os::MacOs), "ffmpeg");
    assert_eq!(executable_name("ffmpeg.exe", Os::Linux), "ffmpeg.exe");
    assert_eq!(executable_name("ffmpeg", Os::Other), "ffmpeg");
}

#[test]
fn find_in_path_keeps_the_directories_that_hold_the_file() {
    let dirs = vec![dir("/usr/bin", true), dir("/bin", false), dir("/opt/ff/", true)];
    let found = find_in_path("ffmpeg", &dirs).unwrap();
    assert_eq!(
        found,
        vec![
            FoundPath {
                path: "/usr/bin".to_string(),
                binary: "ffmpeg".to_string(),
                full_path: "/usr/bin/ffmpeg".to_string(),
            },
            FoundPath {
                path: "/opt/ff/".to_string(),
                binary: "ffmpeg".to_string(),
                full_path: "/opt/ff/ffmpeg".to_string(),
            },
        ]
    );
}

#[test]
fn find_in_path_lists_each_directory_once() {
    let dirs = vec![dir("/a", true), dir("/b", true), dir("/a", true), dir("/b", false), dir("/a", true)];
    let found = find_in_path("ffmpeg", &dirs).unwrap();
    let paths: Vec<&str> = found.iter().map(|f| f.path.as_str()).collect();
    assert_eq!(paths, vec!["/a", "/b"]);
}

#[test]
fn find_in_path_finds_nothing() {
    assert_eq!(find_in_path("ffmpeg", &Vec::new()), None);
    assert_eq!(find_in_path("ffmpeg", &vec![dir("/a", false), dir("/b", false)]), None);
}
