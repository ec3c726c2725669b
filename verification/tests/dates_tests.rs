use try_rs::dates::{extract_prefix_date, PrefixDate};

#[test]
fn extract_prefix_date_valid() {
    let result = extract_prefix_date("2024-06-15 my-project");
    assert!(result.is_some());
    let (_, name) = result.unwrap();
    assert_eq!(name, "my-project");
}

#[test]
fn extract_prefix_date_invalid() {
    assert!(extract_prefix_date("not-a-date project").is_none());
    assert!(extract_prefix_date("nodate").is_none());
}

#[test]
fn extract_prefix_date_only_date_no_name() {
    assert!(extract_prefix_date("2024-06-15").is_none());
}

#[test]
fn extract_prefix_date_with_spaces_in_name() {
    let result = extract_prefix_date("2024-01-01 my cool project");
    assert!(result.is_some());
    let (_, name) = result.unwrap();
    assert_eq!(name, "my cool project");
}

#[test]
fn extract_prefix_date_wrong_format() {
    assert!(extract_prefix_date("01-01-2024 project").is_none());
    assert!(extract_prefix_date("2024/01/01 project").is_none());
}

#[test]
fn extract_prefix_date_with_different_dates() {
    let result = extract_prefix_date("2023-12-25 christmas-project");
    assert!(result.is_some());
    let (_, name) = result.unwrap();
    assert_eq!(name, "christmas-project");
}

#[test]
fn extract_prefix_date_invalid_formats() {
    assert!(extract_prefix_date("2023-13-01 invalid-month").is_none());
    assert!(extract_prefix_date("2023-00-15 invalid-day").is_none());
    assert!(extract_prefix_date("not-a-date project").is_none());
    assert!(extract_prefix_date("01-01-2023 wrong-format").is_none());
}

#[test]
fn extract_prefix_date_edge_cases() {
    assert!(extract_prefix_date("2024-02-29 leap-year").is_some());
    assert!(extract_prefix_date("2023-02-29 not-leap-year").is_none());
}

#[test]
fn extract_prefix_date_exact_parts() {
    let result = extract_prefix_date("2024-01-15 my-project");
    assert!(result.is_some());
    let (date, name) = result.unwrap();
    assert_eq!(
        date,
        PrefixDate {
            year: 2024,
            month: 1,
            day: 15,
        }
    );
    assert_eq!(name, "my-project");
}

#[test]
fn extract_prefix_date_century_leap_rules() {
    assert!(extract_prefix_date("2000-02-29 century-leap").is_some());
    assert!(extract_prefix_date("1900-02-29 century-not-leap").is_none());
    assert!(extract_prefix_date("2024-04-31 short-month").is_none());
    assert!(extract_prefix_date("2024-12-31 year-end").is_some());
}
