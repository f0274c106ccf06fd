use chrono::{Datelike, NaiveDate};
use nmts::logs::{log_date_part, log_expired};

fn day(y: i32, m: u32, d: u32) -> i32 {
    NaiveDate::from_ymd_opt(y, m, d).unwrap().num_days_from_ce()
}

#[test]
fn daily_log_names() {
    assert_eq!(log_date_part("nmts-2024-03-01.log"), Some("2024-03-01".to_string()));
    assert_eq!(log_date_part("nmts-.log"), Some(String::new()));
    assert_eq!(log_date_part("audit.log"), None);
    assert_eq!(log_date_part("nmts-2024-03-01.txt"), None);
    assert_eq!(log_date_part("nmts.log"), None);
}

#[test]
fn old_logs_expire() {
    let today = day(2024, 3, 10);
    assert!(log_expired("nmts-2024-03-01.log", today, 7));
    assert!(!log_expired("nmts-2024-03-03.log", today, 7));
    assert!(log_expired("nmts-2024-03-02.log", today, 7));
    assert!(!log_expired("nmts-2024-02-30.log", today, 7));
    assert!(!log_expired("audit.log", today, 0));
    assert!(!log_expired("nmts-latest.log", today, 0));
    assert!(log_expired("nmts-2023-03-10.log", today, 365));
}
