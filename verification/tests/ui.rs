use taicho::ui::logs::{is_log_file_name, tail_lines};
use taicho::ui::pagination::build_page_numbers;

#[test]
fn page_numbers_small_and_empty() {
    assert_eq!(build_page_numbers(1, 0), vec![1]);
    assert_eq!(build_page_numbers(3, 5), vec![1, 2, 3, 4, 5]);
    assert_eq!(build_page_numbers(1, 7), vec![1, 2, 3, 4, 5, 6, 7]);
}

#[test]
fn page_numbers_with_ellipses() {
    assert_eq!(build_page_numbers(1, 20), vec![1, 2, 3, 0, 20]);
    assert_eq!(build_page_numbers(4, 20), vec![1, 2, 3, 4, 5, 6, 0, 20]);
    assert_eq!(build_page_numbers(5, 20), vec![1, 0, 3, 4, 5, 6, 7, 0, 20]);
    assert_eq!(build_page_numbers(10, 20), vec![1, 0, 8, 9, 10, 11, 12, 0, 20]);
    assert_eq!(build_page_numbers(20, 20), vec![1, 0, 18, 19, 20]);
    assert_eq!(build_page_numbers(17, 20), vec![1, 0, 15, 16, 17, 18, 19, 20]);
    assert_eq!(build_page_numbers(0, 8), vec![1, 2, 0, 8]);
    assert_eq!(build_page_numbers(50, 8), vec![1, 0, 8]);
}

#[test]
fn log_files_and_tail() {
    assert!(is_log_file_name("taicho.log"));
    assert!(is_log_file_name("taicho.log.2024-01-01"));
    assert!(!is_log_file_name("other.log"));
    let lines: Vec<String> = (0..5).map(|i| i.to_string()).collect();
    assert_eq!(tail_lines(lines.clone(), 2), vec!["3".to_string(), "4".to_string()]);
    assert_eq!(tail_lines(lines.clone(), 10), lines);
    assert!(tail_lines(lines, 0).is_empty());
}
