use pacm1n::score::{decimal_text, score_caption_text};

#[test]
fn decimal_of_zero() {
    assert_eq!(decimal_text(0), "0");
}

#[test]
fn decimal_of_several_digits() {
    assert_eq!(decimal_text(7), "7");
    assert_eq!(decimal_text(10), "10");
    assert_eq!(decimal_text(1234567), "1234567");
}

#[test]
fn decimal_of_largest_score() {
    assert_eq!(decimal_text(u64::MAX), "18446744073709551615");
}

#[test]
fn caption_of_a_score() {
    assert_eq!(score_caption_text(1), "Score: 1");
    assert_eq!(score_caption_text(0), "Score: 0");
    assert_eq!(score_caption_text(42), "Score: 42");
}
