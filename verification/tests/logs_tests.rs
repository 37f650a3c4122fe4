use bvresolver::logs::{log_date_days, log_file_expired};

#[test]
fn log_names_parse_to_day_numbers() {
    let d1 = log_date_days("spider_2024-01-01.log").unwrap();
    let d8 = log_date_days("spider_2024-01-08.log").unwrap();
    assert_eq!(d8 - d1, 7);
    let leap = log_date_days("spider_2024-03-01.log").unwrap();
    let before_leap = log_date_days("spider_2024-02-28.log").unwrap();
    assert_eq!(leap - before_leap, 2);
}

#[test]
fn other_names_do_not_parse() {
    assert_eq!(log_date_days("spider_2024-13-01.log"), None);
    assert_eq!(log_date_days("spider_notadate.log"), None);
    assert_eq!(log_date_days("other_2024-01-01.log"), None);
    assert_eq!(log_date_days("spider_2024-01-01.txt"), None);
    assert_eq!(log_date_days("spider_.log"), None);
    assert_eq!(log_date_days(""), None);
}

#[test]
fn expiry_is_a_seven_day_boundary() {
    let name = "spider_2024-01-01.log";
    let d = log_date_days(name).unwrap();
    assert!(!log_file_expired(name, d));
    assert!(!log_file_expired(name, d + 6));
    assert!(log_file_expired(name, d + 7));
    assert!(log_file_expired(name, d + 100));
    // A name that is no log file never expires.
    assert!(!log_file_expired("notes.txt", d + 100));
}
