use goxlr_updater::progress::{announce, erase_percentage, percentage};
use goxlr_updater::text::decimal_text;

#[test]
fn percentage_rounds_down() {
    assert_eq!(percentage(0, 2500), 0);
    assert_eq!(percentage(1012, 2500), 40);
    assert_eq!(percentage(2024, 2500), 80);
    assert_eq!(percentage(2499, 2500), 99);
    assert_eq!(percentage(2500, 2500), 100);
    assert_eq!(percentage(1, 3), 33);
    assert_eq!(percentage(2, 3), 66);
    assert_eq!(percentage(29, 100), 29);
}

#[test]
fn percentage_never_passes_one_hundred() {
    assert_eq!(percentage(3, 1), 100);
    assert_eq!(percentage(255, 100), 100);
    assert_eq!(percentage(101, 100), 100);
    assert_eq!(percentage(99, 100), 99);
    assert_eq!(percentage(u64::MAX, 1), 100);
    assert_eq!(percentage(u64::MAX, u64::MAX), 100);
    assert_eq!(percentage(u64::MAX - 1, u64::MAX), 99);
    for done in [0u64, 1, 7, 100, 1000, u64::MAX] {
        for total in [0u64, 1, 7, 100, 1000, u64::MAX] {
            assert!(percentage(done, total) <= 100);
        }
    }
}

#[test]
fn percentage_of_nothing_to_do() {
    assert_eq!(percentage(0, 0), 0);
    assert_eq!(percentage(1, 0), 100);
    assert_eq!(percentage(u64::MAX, 0), 100);
}

#[test]
fn erase_progress_runs_to_one_hundred() {
    assert_eq!(erase_percentage(0), 0);
    assert_eq!(erase_percentage(2), 0);
    assert_eq!(erase_percentage(3), 1);
    assert_eq!(erase_percentage(127), 49);
    assert_eq!(erase_percentage(128), 50);
    assert_eq!(erase_percentage(254), 99);
    assert_eq!(erase_percentage(255), 100);
}

#[test]
fn a_repeated_value_is_not_announced() {
    let mut last = 0u8;
    assert_eq!(announce(&mut last, 0), None);
    assert_eq!(announce(&mut last, 5), Some(5));
    assert_eq!(last, 5);
    assert_eq!(announce(&mut last, 5), None);
    assert_eq!(announce(&mut last, 4), Some(4));
    assert_eq!(last, 4);
}

#[test]
fn numbers_are_written_in_decimal() {
    assert_eq!(decimal_text(0), "0");
    assert_eq!(decimal_text(7), "7");
    assert_eq!(decimal_text(10), "10");
    assert_eq!(decimal_text(10239), "10239");
    assert_eq!(decimal_text(1234567890), "1234567890");
    assert_eq!(decimal_text(u64::MAX), "18446744073709551615");
    for n in [9u64, 99, 100, 101, 4096, 65535, 65536] {
        assert_eq!(decimal_text(n), n.to_string());
    }
}
