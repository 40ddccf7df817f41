use worker_supervisor::text::{i64_to_decimal, join_path, u64_to_decimal};

#[test]
fn renders_small_numbers() {
    assert_eq!(u64_to_decimal(0), "0");
    assert_eq!(u64_to_decimal(7), "7");
    assert_eq!(u64_to_decimal(10), "10");
    assert_eq!(u64_to_decimal(12345), "12345");
}

#[test]
fn renders_the_largest_u64() {
    assert_eq!(u64_to_decimal(u64::MAX), "18446744073709551615");
}

#[test]
fn renders_signed_numbers() {
    assert_eq!(i64_to_decimal(0), "0");
    assert_eq!(i64_to_decimal(1700000000123), "1700000000123");
    assert_eq!(i64_to_decimal(-1), "-1");
    assert_eq!(i64_to_decimal(i64::MIN), "-9223372036854775808");
    assert_eq!(i64_to_decimal(i64::MAX), "9223372036854775807");
}

#[test]
fn joins_paths_with_the_given_separator() {
    assert_eq!(join_path("/home/u", '/', "proj"), "/home/u/proj");
    assert_eq!(join_path("C:\\base", '\\', "dir"), "C:\\base\\dir");
}
