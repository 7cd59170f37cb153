use process_supervisor::dispatcher::{
    DEFAULT_OBTAIN_PROCESS_URL, DEFAULT_REPORT_PROCESS_FINISH_URL,
};
use process_supervisor::env::{fetch_env_params, EnvError, EnvParams, EnvVars};
use process_supervisor::text::{
    equal, is_i32, parse_unsigned, push_decimal, push_signed, substitute,
};

fn vars(host_name: Option<&str>) -> EnvVars {
    EnvVars {
        http_port: None,
        sigterm_timeout_secs: None,
        max_children_count: None,
        obtain_process_url: None,
        report_process_finish_url: None,
        host_name: host_name.map(|name| name.to_string()),
    }
}

#[test]
fn parse_unsigned_reads_decimal_numbers() {
    assert_eq!(parse_unsigned("0", 10), Some(0));
    assert_eq!(parse_unsigned("8080", 65535), Some(8080));
    assert_eq!(parse_unsigned("+8080", 65535), Some(8080));
    assert_eq!(parse_unsigned("007", 65535), Some(7));
    assert_eq!(parse_unsigned("65535", 65535), Some(65535));
    assert_eq!(parse_unsigned("18446744073709551615", u64::MAX), Some(u64::MAX));
}

#[test]
fn parse_unsigned_rejects_what_is_no_number_in_range() {
    assert_eq!(parse_unsigned("", 10), None);
    assert_eq!(parse_unsigned("+", 10), None);
    assert_eq!(parse_unsigned("-1", 10), None);
    assert_eq!(parse_unsigned("++1", 10), None);
    assert_eq!(parse_unsigned(" 1", 10), None);
    assert_eq!(parse_unsigned("1 ", 10), None);
    assert_eq!(parse_unsigned("1a", 10), None);
    assert_eq!(parse_unsigned("11", 10), None);
    assert_eq!(parse_unsigned("65536", 65535), None);
    assert_eq!(parse_unsigned("18446744073709551616", u64::MAX), None);
    assert_eq!(parse_unsigned("99999999999999999999999999", u64::MAX), None);
    assert_eq!(parse_unsigned("\u{0663}", 10), None);
}

#[test]
fn parse_unsigned_agrees_with_std() {
    for text in ["0", "1", "+1", "-0", "", "+", "255", "256", "0255", "2 5", "٣", "+-1"] {
        assert_eq!(parse_unsigned(text, 255), text.parse::<u8>().ok().map(u64::from), "{:?}", text);
    }
}

#[test]
fn is_i32_agrees_with_std() {
    for text in [
        "0", "-0", "+0", "1", "-1", "+1", "", "-", "+", "--1", "2147483647", "2147483648",
        "-2147483648", "-2147483649", "12a", "a12", " 12", "00012", "-00012", "+2147483647",
        "99999999999999999999", "1.0",
    ] {
        assert_eq!(is_i32(text), text.parse::<i32>().is_ok(), "{:?}", text);
    }
}

#[test]
fn push_decimal_appends_the_digits() {
    let mut out = "PID=".to_string();
    push_decimal(&mut out, 0);
    assert_eq!(out, "PID=0");
    push_decimal(&mut out, 7);
    assert_eq!(out, "PID=07");
    push_decimal(&mut out, 4294967295);
    assert_eq!(out, "PID=074294967295");
    let mut big = String::new();
    push_decimal(&mut big, u64::MAX);
    assert_eq!(big, "18446744073709551615");
    let mut round = String::new();
    push_decimal(&mut round, 1000);
    assert_eq!(round, "1000");
}

#[test]
fn substitute_replaces_every_occurrence() {
    assert_eq!(substitute("a/{id}/b", "{id}", "42"), "a/42/b");
    assert_eq!(substitute("{id}{id}", "{id}", "x"), "xx");
    assert_eq!(substitute("{id}", "{id}", ""), "");
    assert_eq!(substitute("no placeholder", "{id}", "x"), "no placeholder");
    assert_eq!(substitute("", "{id}", "x"), "");
    assert_eq!(substitute("{i", "{id}", "x"), "{i");
    assert_eq!(substitute("ends with {id}", "{id}", "é"), "ends with é");
    // Occurrences are found from the left and do not overlap.
    assert_eq!(substitute("aaa", "aa", "b"), "ba");
    assert_eq!(substitute("abab", "ab", "ab"), "abab");
    // An empty placeholder changes nothing.
    assert_eq!(substitute("abc", "", "x"), "abc");
}

#[test]
fn substitute_agrees_with_std_replace() {
    let cases = [
        ("http://h/{a}/{a}", "{a}", "1"),
        ("xxxx", "xx", "y"),
        ("xxxxx", "xx", "yz"),
        ("{}{}", "{}", "{}{}"),
        ("héllo wörld", "ö", "oe"),
    ];
    for (template, placeholder, value) in cases {
        assert_eq!(substitute(template, placeholder, value), template.replace(placeholder, value));
    }
}

#[test]
fn equal_compares_texts() {
    assert!(equal("", ""));
    assert!(equal("drain", "drain"));
    assert!(!equal("drain", "drai"));
    assert!(!equal("drai", "drain"));
    assert!(!equal("drain", "Drain"));
    assert!(equal("é", "é"));
}

#[test]
fn env_defaults_apply_when_nothing_is_set() {
    let params = fetch_env_params(vars(Some("node-7"))).unwrap();
    assert_eq!(params.http_port(), 8080);
    assert_eq!(params.sigterm_timeout_secs(), 20);
    assert_eq!(params.max_children_count(), 10);
    assert_eq!(params.obtain_process_url(), DEFAULT_OBTAIN_PROCESS_URL);
    assert_eq!(params.report_process_finish_url(), DEFAULT_REPORT_PROCESS_FINISH_URL);
    assert_eq!(params.supervisor_id(), "node-7");
}

#[test]
fn env_values_override_the_defaults() {
    let params = fetch_env_params(EnvVars {
        http_port: Some("9090".to_string()),
        sigterm_timeout_secs: Some("5".to_string()),
        max_children_count: Some("3".to_string()),
        obtain_process_url: Some("http://d/o/{supervisor_id}".to_string()),
        report_process_finish_url: Some("http://d/r/{process_id}".to_string()),
        host_name: Some("n".to_string()),
    })
    .unwrap();
    assert_eq!(params.http_port(), 9090);
    assert_eq!(params.sigterm_timeout_secs(), 5);
    assert_eq!(params.max_children_count(), 3);
    assert_eq!(params.obtain_process_url(), "http://d/o/{supervisor_id}");
    assert_eq!(params.report_process_finish_url(), "http://d/r/{process_id}");
    assert_eq!(params.supervisor_id(), "n");
}

#[test]
fn env_without_host_name_fails() {
    assert_eq!(fetch_env_params(vars(None)).err(), Some(EnvError::MissingHostName));
}

#[test]
fn env_with_a_bad_number_fails() {
    let mut bad_port = vars(Some("n"));
    bad_port.http_port = Some("65536".to_string());
    assert_eq!(fetch_env_params(bad_port).err(), Some(EnvError::InvalidHttpPort));

    let mut bad_grace = vars(Some("n"));
    bad_grace.sigterm_timeout_secs = Some("soon".to_string());
    assert_eq!(fetch_env_params(bad_grace).err(), Some(EnvError::InvalidSigtermTimeout));

    let mut bad_count = vars(Some("n"));
    bad_count.max_children_count = Some("-1".to_string());
    assert_eq!(fetch_env_params(bad_count).err(), Some(EnvError::InvalidMaxChildrenCount));
}

#[test]
fn env_faults_are_reported_in_order() {
    let all_bad = EnvVars {
        http_port: Some("x".to_string()),
        sigterm_timeout_secs: Some("x".to_string()),
        max_children_count: Some("x".to_string()),
        obtain_process_url: None,
        report_process_finish_url: None,
        host_name: None,
    };
    assert_eq!(fetch_env_params(all_bad).err(), Some(EnvError::InvalidHttpPort));
    let mut count_and_host = vars(None);
    count_and_host.max_children_count = Some("".to_string());
    assert_eq!(fetch_env_params(count_and_host).err(), Some(EnvError::InvalidMaxChildrenCount));
}

#[test]
fn env_params_hold_what_they_were_made_of() {
    let params = EnvParams::new(1, 2, 3, "o".to_string(), "r".to_string(), "s".to_string());
    assert_eq!(params.http_port(), 1);
    assert_eq!(params.sigterm_timeout_secs(), 2);
    assert_eq!(params.max_children_count(), 3);
    assert_eq!(params.obtain_process_url(), "o");
    assert_eq!(params.report_process_finish_url(), "r");
    assert_eq!(params.supervisor_id(), "s");
}

#[test]
fn push_signed_writes_the_sign() {
    for n in [0i64, 1, -1, 42, -42, i64::MAX, i64::MIN, i32::MIN as i64] {
        let mut out = "n=".to_string();
        push_signed(&mut out, n);
        assert_eq!(out, format!("n={}", n));
    }
}
