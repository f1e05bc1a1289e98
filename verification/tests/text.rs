use pitchvis::text::{
    centered_text, decimal_text, left_aligned_text, right_aligned_text, spaces_text, starts_with,
};

#[test]
fn decimal_digits() {
    for (n, text) in [
        (0u64, "0"),
        (7, "7"),
        (10, "10"),
        (99, "99"),
        (100, "100"),
        (4096, "4096"),
        (u64::MAX, "18446744073709551615"),
    ] {
        assert_eq!(decimal_text(n), text);
    }
}

#[test]
fn padding() {
    assert_eq!(spaces_text(0), "");
    assert_eq!(spaces_text(3), "   ");
    assert_eq!(centered_text("A", 4), " A  ");
    assert_eq!(centered_text("C#", 5), " C#  ");
    assert_eq!(centered_text("C#", 4), " C# ");
    assert_eq!(left_aligned_text("12", 4), "12  ");
    assert_eq!(right_aligned_text("-5", 3), " -5");
    assert_eq!(right_aligned_text("-500", 3), "-500");
    assert_eq!(centered_text("wide text", 4), "wide text");
}

#[test]
fn padding_matches_the_formatter() {
    for label in ["", "A", "C#", "abc", "abcd", "abcde", "abcdef"] {
        assert_eq!(centered_text(label, 5), format!("{:^5}", label));
        assert_eq!(left_aligned_text(label, 4), format!("{:<4}", label));
        assert_eq!(right_aligned_text(label, 3), format!("{:>3}", label));
    }
}

#[test]
fn prefix_test() {
    assert!(starts_with("C#", "C"));
    assert!(starts_with("C#", "C#"));
    assert!(!starts_with("C", "C#"));
    assert!(!starts_with("", "C"));
    assert!(starts_with("", ""));
    assert!(starts_with("D", ""));
    assert!(!starts_with("D#", "C#"));
}
