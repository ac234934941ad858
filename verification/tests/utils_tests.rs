use gitie::errors::AppError;
use gitie::utils::{
    format_output, get_unix_timestamp, new_temp_file_name, safe_path_join, temp_file_name,
    timestamp_from_reading, truncate_string,
};
use std::path::Path;

#[test]
fn error_output_is_red() {
    assert_eq!(format_output("boom", true), "\x1b[31mboom\x1b[0m");
    assert_eq!(format_output("fine", false), "fine");
    assert_eq!(format_output("", true), "\x1b[31m\x1b[0m");
    assert_eq!(format_output("", false), "");
}

#[test]
fn short_strings_are_kept_and_long_ones_cut() {
    assert_eq!(truncate_string("hello", 10), "hello");
    assert_eq!(truncate_string("hello", 5), "hello");
    assert_eq!(truncate_string("hello world", 8), "hello...");
    assert_eq!(truncate_string("hello world", 3), "...");
    assert_eq!(truncate_string("", 0), "");
    assert_eq!(truncate_string("ab", 2), "ab");
}

#[test]
fn length_is_counted_in_bytes_and_cut_in_characters() {
    assert_eq!(truncate_string("ééé", 6), "ééé");
    assert_eq!(truncate_string("ééé", 5), "éé...");
    assert_eq!(truncate_string("éé", 3), "...");
    assert_eq!(truncate_string("日本", 5), "日本...");
}

#[test]
fn paths_are_joined_as_the_standard_library_joins_them() {
    let cases: Vec<(&str, Vec<&str>)> = vec![
        ("/home/u", vec![".config/gitie", "config.toml"]),
        ("/home/u/", vec![".config", "gitie"]),
        ("", vec!["a", "b"]),
        ("a", vec![]),
        ("a", vec!["/abs", "rel"]),
        ("a", vec![""]),
        ("a/", vec!["", "b"]),
        ("/", vec!["x"]),
        ("rel", vec!["..", "x"]),
    ];
    for (base, components) in cases {
        let owned: Vec<String> = components.iter().map(|c| c.to_string()).collect();
        let mut expected = Path::new(base).to_path_buf();
        for component in components.iter() {
            expected = expected.join(component);
        }
        assert_eq!(
            safe_path_join(base, &owned),
            expected.to_string_lossy(),
            "{:?} {:?}",
            base,
            components
        );
    }
    assert_eq!(
        safe_path_join("/home/u", &[".config/gitie".to_string(), "config.toml".to_string()]),
        "/home/u/.config/gitie/config.toml"
    );
}

#[test]
fn temporary_names_hold_the_numbers_in_hexadecimal() {
    assert_eq!(temp_file_name("gitie", 0, 0), "gitie_0_0");
    assert_eq!(temp_file_name("gitie", 255, 16), "gitie_ff_10");
    assert_eq!(temp_file_name("", 1_700_000_000, 65535), "_6553f100_ffff");
    assert_eq!(
        temp_file_name("p", u64::MAX, 1),
        format!("{}_{:x}_{:x}", "p", u64::MAX, 1)
    );
}

#[test]
fn the_clock_is_past_the_year_2020() {
    let seconds = get_unix_timestamp().unwrap();
    assert!(seconds > 1_577_836_800);
}

#[test]
fn new_temporary_names_have_the_shape_of_temporary_names() {
    let before = get_unix_timestamp().unwrap();
    let name = new_temp_file_name("commit_msg").unwrap();
    let after = get_unix_timestamp().unwrap();
    let rest = name.strip_prefix("commit_msg_").unwrap();
    let parts: Vec<&str> = rest.split('_').collect();
    assert_eq!(parts.len(), 2);
    let timestamp = u64::from_str_radix(parts[0], 16).unwrap();
    let suffix = u64::from_str_radix(parts[1], 16).unwrap();
    assert!(before <= timestamp && timestamp <= after);
    assert!(suffix <= 0xffff);
    assert_eq!(name, temp_file_name("commit_msg", timestamp, suffix as u16));
}

#[test]
fn a_reading_of_the_clock_gives_its_seconds_or_a_failure_with_the_cause() {
    assert_eq!(timestamp_from_reading(Ok(0)), Ok(0));
    assert_eq!(timestamp_from_reading(Ok(1_700_000_000)), Ok(1_700_000_000));
    assert_eq!(timestamp_from_reading(Ok(u64::MAX)), Ok(u64::MAX));
    assert_eq!(
        timestamp_from_reading(Err("second time provided was later than self".to_string())),
        Err(AppError::Io(
            "getting the system time".to_string(),
            "second time provided was later than self".to_string()
        ))
    );
    assert_eq!(
        timestamp_from_reading(Err(String::new())),
        Err(AppError::Io("getting the system time".to_string(), String::new()))
    );
}
