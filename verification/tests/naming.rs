use bleedingedge::archive::{archive_file_name, archive_name, push_decimal};

#[test]
fn archive_name_is_prefix_time_and_old_version() {
    assert_eq!(archive_name(1700000000000, "1.21.1"), "backup-1700000000000-1.21.1");
}

#[test]
fn archive_file_is_named_deterministically() {
    let base = archive_name(1700000000000, "1.21.1");
    assert_eq!(archive_file_name(&base), "backup-1700000000000-1.21.1.tar.gz");
    let again = archive_name(1700000000000, "1.21.1");
    assert_eq!(archive_file_name(&again), "backup-1700000000000-1.21.1.tar.gz");
}

#[test]
fn archive_name_at_the_epoch() {
    assert_eq!(archive_name(0, "23w14a"), "backup-0-23w14a");
}

#[test]
fn archive_name_with_the_largest_time() {
    assert_eq!(
        archive_name(u128::MAX, "1.0"),
        "backup-340282366920938463463374607431768211455-1.0"
    );
}

#[test]
fn decimal_is_appended_without_leading_zeros() {
    let mut text = String::from("n=");
    push_decimal(&mut text, 0);
    assert_eq!(text, "n=0");
    push_decimal(&mut text, 9);
    push_decimal(&mut text, 10);
    push_decimal(&mut text, 1005);
    assert_eq!(text, "n=09101005");
}

#[test]
fn decimal_agrees_with_the_standard_formatting() {
    let samples: [u128; 8] =
        [1, 7, 42, 99, 100, 123456789, 18446744073709551616, 1700000000000];
    for n in samples {
        let mut text = String::new();
        push_decimal(&mut text, n);
        assert_eq!(text, format!("{}", n));
    }
}
