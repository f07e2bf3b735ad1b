use pocket_list::error::ListError;
use pocket_list::text::{decimal, same_text};

#[test]
fn decimal_writes_small_numbers() {
    assert_eq!(decimal(0), "0");
    assert_eq!(decimal(7), "7");
    assert_eq!(decimal(9), "9");
    assert_eq!(decimal(10), "10");
    assert_eq!(decimal(42), "42");
    assert_eq!(decimal(100), "100");
    assert_eq!(decimal(1234567890), "1234567890");
}

#[test]
fn decimal_agrees_with_the_standard_library() {
    for n in [0usize, 1, 19, 20, 99, 101, 999, 1000, 65535, 65536, usize::MAX] {
        assert_eq!(decimal(n), n.to_string());
    }
}

#[test]
fn same_text_compares_characters() {
    assert!(same_text("", ""));
    assert!(same_text("archive", "archive"));
    assert!(!same_text("archive", "archivE"));
    assert!(!same_text("all", "al"));
    assert!(!same_text("al", "all"));
    assert!(same_text("h\u{e9}llo", "h\u{e9}llo"));
}

#[test]
fn errors_say_what_went_wrong() {
    assert_eq!(ListError::summary(), "failed to list Pocket articles");
    assert_eq!(ListError::MissingAccessToken.cause(), "Access token missing");
    assert_eq!(ListError::Serialization.cause(), "JSON serialization failed");
    assert_eq!(ListError::Transport.cause(), "Curl failed");
    assert_eq!(ListError::Decoding.cause(), "Data copying failed.");
    assert_eq!(ListError::Parse.cause(), "JSON parsing failed");
}
