use pos_app::time::Timestamp;
use pos_app::utils::text::{blank, contains_char, count_digits};
use pos_app::utils::validation::{email_verdict, phone_verdict};
use pos_app::utils::wording::age_wording;
use pos_app::utils::{
    format_date, format_datetime, generate_id, group_by, is_valid_email, is_valid_phone, paginate,
    time_ago, time_ago_at, Pagination,
};

#[test]
fn test_pagination() {
    let pagination = Pagination::new(0, 10, 25);
    assert_eq!(pagination.offset(), 0);
    assert_eq!(pagination.total_pages(), 3);
    assert!(pagination.has_next());
    assert!(!pagination.has_prev());

    let pagination = Pagination::new(2, 10, 25);
    assert_eq!(pagination.offset(), 20);
    assert!(!pagination.has_next());
    assert!(pagination.has_prev());
}

#[test]
fn test_paginate() {
    let items = vec![1, 2, 3, 4, 5, 6, 7, 8, 9, 10];
    let pagination = Pagination::new(0, 3, items.len());

    let page = paginate(&items, &pagination);
    assert_eq!(page, &[1, 2, 3]);

    let pagination = Pagination::new(1, 3, items.len());
    let page = paginate(&items, &pagination);
    assert_eq!(page, &[4, 5, 6]);
}

#[test]
fn test_is_valid_email() {
    assert!(is_valid_email("test@example.com"));
    assert!(is_valid_email("user.name@domain.co.uk"));
    assert!(!is_valid_email("invalid-email"));
    assert!(!is_valid_email("@domain.com"));
}

#[test]
fn test_is_valid_phone() {
    assert!(is_valid_phone("555-123-4567"));
    assert!(is_valid_phone("(555) 123-4567"));
    assert!(is_valid_phone("+1 555 123 4567"));
    assert!(!is_valid_phone("123"));
    assert!(!is_valid_phone("abc-def-ghij"));
}

#[test]
fn pagination_edges() {
    assert_eq!(Pagination::new(0, 10, 0).total_pages(), 0);
    assert!(!Pagination::new(0, 10, 0).has_next());
    assert_eq!(Pagination::new(0, 10, 10).total_pages(), 1);
    assert_eq!(Pagination::new(0, 10, 11).total_pages(), 2);
    assert_eq!(Pagination::new(0, 1, usize::MAX).total_pages(), usize::MAX);
    assert_eq!(Pagination::new(0, usize::MAX, usize::MAX).total_pages(), 1);
    assert_eq!(Pagination::new(0, 2, usize::MAX).total_pages(), usize::MAX / 2 + 1);
    assert!(Pagination::new(1, 10, 25).has_next());
    assert!(!Pagination::new(usize::MAX, 10, 25).has_next());
    assert_eq!(Pagination::new(7, 6, 0).offset(), 42);
}

#[test]
fn paginate_edges() {
    let items = vec![1, 2, 3, 4, 5, 6, 7, 8, 9, 10];
    let last = paginate(&items, &Pagination::new(3, 3, items.len()));
    assert_eq!(last, &[10]);
    let beyond = paginate(&items, &Pagination::new(4, 3, items.len()));
    assert!(beyond.is_empty());
    let far = paginate(&items, &Pagination::new(usize::MAX, 3, items.len()));
    assert!(far.is_empty());
    let wide = paginate(&items, &Pagination::new(0, usize::MAX, items.len()));
    assert_eq!(wide.len(), 10);
    let none = paginate(&items, &Pagination::new(0, 0, items.len()));
    assert!(none.is_empty());
    let empty: Vec<i32> = Vec::new();
    assert!(paginate(&empty, &Pagination::new(0, 3, 0)).is_empty());
    // The declared total plays no part.
    assert_eq!(paginate(&items, &Pagination::new(0, 2, 0)), &[1, 2]);
}

#[test]
fn grouping_keeps_order_within_groups() {
    let words = vec!["apple", "avocado", "banana", "blueberry", "cherry", "apricot"];
    let groups = group_by(&words, |w: &&str| w.chars().next().unwrap());
    assert_eq!(groups.len(), 3);
    assert_eq!(groups[&'a'], vec![&"apple", &"avocado", &"apricot"]);
    assert_eq!(groups[&'b'], vec![&"banana", &"blueberry"]);
    assert_eq!(groups[&'c'], vec![&"cherry"]);
    let nothing: Vec<u32> = Vec::new();
    assert!(group_by(&nothing, |n: &u32| *n % 2).is_empty());
    let numbers = vec![1u32, 2, 3, 4, 5];
    let parity = group_by(&numbers, |n: &u32| *n % 2);
    assert_eq!(parity[&1], vec![&1, &3, &5]);
    assert_eq!(parity[&0], vec![&2, &4]);
}

#[test]
fn verdicts_follow_the_match() {
    assert!(email_verdict(Some(true)));
    assert!(!email_verdict(Some(false)));
    assert!(!email_verdict(None));
    assert!(phone_verdict(Some(true), "0123456789"));
    assert!(!phone_verdict(Some(true), "012345678"));
    assert!(!phone_verdict(Some(false), "0123456789"));
    assert!(!phone_verdict(None, "0123456789"));
}

#[test]
fn phone_needs_ten_digits_and_the_right_shape() {
    assert!(is_valid_phone("0123456789"));
    assert!(!is_valid_phone("012345678"));
    assert!(!is_valid_phone("01234567890x"));
    assert!(!is_valid_phone(""));
    assert!(is_valid_phone("+(01) 2345-6789"));
}

#[test]
fn text_questions() {
    assert!(blank(""));
    assert!(blank(" \t\n\u{a0}"));
    assert!(!blank("  x "));
    assert!(contains_char("a@b", '@'));
    assert!(!contains_char("ab", '@'));
    assert!(!contains_char("", '@'));
    assert_eq!(count_digits("+1 (555) 123-4567"), 11);
    assert_eq!(count_digits(""), 0);
    assert_eq!(count_digits("٣ three"), 0);
}

#[test]
fn age_in_words() {
    assert_eq!(age_wording(0), Some("just now".to_string()));
    assert_eq!(age_wording(-500), Some("just now".to_string()));
    assert_eq!(age_wording(59), Some("just now".to_string()));
    assert_eq!(age_wording(60), Some("1 minutes ago".to_string()));
    assert_eq!(age_wording(3599), Some("59 minutes ago".to_string()));
    assert_eq!(age_wording(3600), Some("1 hours ago".to_string()));
    assert_eq!(age_wording(86_399), Some("23 hours ago".to_string()));
    assert_eq!(age_wording(86_400), Some("1 days ago".to_string()));
    assert_eq!(age_wording(7 * 86_400 - 1), Some("6 days ago".to_string()));
    assert_eq!(age_wording(7 * 86_400), None);
}

#[test]
fn time_ago_words_or_date() {
    let then = Timestamp::new(1_431_648_000, 0);
    let soon = Timestamp::new(1_431_648_000 + 125, 999_999_999);
    assert_eq!(time_ago_at(&soon, &then), Some("2 minutes ago".to_string()));
    let week = Timestamp::new(1_431_648_000 + 7 * 86_400, 0);
    assert_eq!(time_ago_at(&week, &then), Some("2015-05-15".to_string()));
    let before = Timestamp::new(1_431_648_000 - 10, 0);
    assert_eq!(time_ago_at(&before, &then), Some("just now".to_string()));
    // Far in the past by the system clock: the date.
    assert_eq!(time_ago(&then), Some("2015-05-15".to_string()));
    // Far in the future by the system clock.
    assert_eq!(time_ago(&Timestamp::new(99_999_999_999, 0)), Some("just now".to_string()));
}

#[test]
fn dates_are_written_in_utc() {
    let t = Timestamp::new(1_431_648_000, 0);
    assert_eq!(format_date(&t), Some("2015-05-15".to_string()));
    assert_eq!(format_datetime(&t), Some("2015-05-15 00:00:00".to_string()));
    let late = Timestamp::new(1_431_648_000 + 86_399, 5);
    assert_eq!(format_datetime(&late), Some("2015-05-15 23:59:59".to_string()));
    assert_eq!(format_date(&Timestamp::new(-1, 0)), Some("1969-12-31".to_string()));
    assert_eq!(format_date(&Timestamp::new(i64::MAX, 0)), None);
}

#[test]
fn identifiers_are_fresh() {
    let a = generate_id();
    let b = generate_id();
    assert_eq!(a.len(), 36);
    assert_ne!(a, b);
}
