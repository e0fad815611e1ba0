use ispot::logging::{configure, LogLevel};
use ispot::util::{
    datetime_to_string, default_playlist_name, resolve_playlist_name, PLAYLIST_NAME_PREFIX,
    TIMESTAMP_FORMAT,
};

fn two(chars: &[char], at: usize) -> u32 {
    chars[at].to_digit(10).unwrap() * 10 + chars[at + 1].to_digit(10).unwrap()
}

#[test]
fn time_is_written_as_date_and_time_of_day() {
    let text = datetime_to_string();
    let chars: Vec<char> = text.chars().collect();
    let n = chars.len();
    assert!(n >= 19);
    for i in (n - 15)..n {
        let c = chars[i];
        if i == n - 15 || i == n - 12 {
            assert_eq!(c, '-');
        } else if i == n - 9 {
            assert_eq!(c, ' ');
        } else if i == n - 6 || i == n - 3 {
            assert_eq!(c, ':');
        } else {
            assert!(c.is_ascii_digit());
        }
    }
    let year = &chars[..n - 15];
    if year.len() == 4 {
        assert!(year.iter().all(|c| c.is_ascii_digit()));
    } else {
        assert!(year[0] == '+' || year[0] == '-');
        assert!(year[1..].iter().all(|c| c.is_ascii_digit()));
    }
    assert!((1..=12).contains(&two(&chars, n - 14)));
    assert!((1..=31).contains(&two(&chars, n - 11)));
    assert!(two(&chars, n - 8) <= 23);
    assert!(two(&chars, n - 5) <= 59);
    assert!(two(&chars, n - 2) <= 60);
    assert_ne!(text, TIMESTAMP_FORMAT);
}

#[test]
fn time_written_can_be_read_back_in_the_same_format() {
    let text = datetime_to_string();
    let read = chrono::NaiveDateTime::parse_from_str(&text, TIMESTAMP_FORMAT).unwrap();
    assert_eq!(read.format(TIMESTAMP_FORMAT).to_string(), text);
}

#[test]
fn time_written_is_the_time_of_the_call() {
    let text = datetime_to_string();
    let read = chrono::NaiveDateTime::parse_from_str(&text, TIMESTAMP_FORMAT).unwrap();
    let now = chrono::Local::now().naive_local();
    let apart = now.signed_duration_since(read).num_seconds().abs();
    assert!(apart <= 2 * 60 * 60, "{} is {} seconds from the clock", text, apart);
}

#[test]
fn generated_name_is_prefix_and_time() {
    assert_eq!(default_playlist_name("2024-01-02 03:04:05"), "ispot - 2024-01-02 03:04:05");
    assert_eq!(default_playlist_name(""), "ispot - ");
    assert_eq!(PLAYLIST_NAME_PREFIX, "ispot");
}

#[test]
fn name_asked_for_wins_over_the_generated_one() {
    assert_eq!(resolve_playlist_name(Some("Mine".to_string()), "2024-01-02 03:04:05"), "Mine");
    assert_eq!(resolve_playlist_name(Some(String::new()), "2024-01-02 03:04:05"), "");
    assert_eq!(resolve_playlist_name(None, "2024-01-02 03:04:05"), "ispot - 2024-01-02 03:04:05");
}

#[test]
fn verbosity_sets_the_level() {
    assert_eq!(configure(0).level, LogLevel::Info);
    assert_eq!(configure(1).level, LogLevel::Debug);
    assert_eq!(configure(2).level, LogLevel::Trace);
    assert_eq!(configure(3).level, LogLevel::Trace);
    assert_eq!(configure(u64::MAX).level, LogLevel::Trace);
}

#[test]
fn connection_modules_log_warnings_only() {
    for verbosity in [0u64, 1, 2, 9] {
        let settings = configure(verbosity);
        let modules: Vec<(&str, LogLevel)> =
            settings.modules.iter().map(|m| (m.module.as_str(), m.level)).collect();
        assert_eq!(
            modules,
            vec![
                ("hyper", LogLevel::Warn),
                ("tokio_reactor", LogLevel::Warn),
                ("reqwest", LogLevel::Warn)
            ]
        );
    }
}
