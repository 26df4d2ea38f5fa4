use raline::utils::email::is_email;
use raline::utils::rand::{generate_random_string, rand_alphanumeric};
use raline::utils::text::{
    chars_of, contains, decimal_text, digit, join, same_str, same_text,
};
use raline::utils::validate_code::{
    check_validate_code, new_validate_code, validate_redis_key, CodeCheck,
};

#[test]
fn integers_are_written_in_decimal() {
    assert_eq!(decimal_text(0), "0");
    assert_eq!(decimal_text(7), "7");
    assert_eq!(decimal_text(10), "10");
    assert_eq!(decimal_text(12345), "12345");
    assert_eq!(decimal_text(1000000), "1000000");
    assert_eq!(decimal_text(-1), "-1");
    assert_eq!(decimal_text(-90210), "-90210");
    assert_eq!(decimal_text(i32::MAX), "2147483647");
    assert_eq!(decimal_text(i32::MIN), "-2147483648");
    for n in [-1234, -10, -9, 9, 99, 100, 101, 65535] {
        assert_eq!(decimal_text(n), n.to_string());
    }
    assert_eq!(digit(0), '0');
    assert_eq!(digit(9), '9');
}

#[test]
fn parts_are_joined_with_a_separator() {
    let parts = vec![String::from("a"), String::from("bc"), String::from("")];
    assert_eq!(join(&parts, ", "), "a, bc, ");
    assert_eq!(join(&parts, ""), "abc");
    assert_eq!(join(&vec![String::from("one")], "|"), "one");
    assert_eq!(join(&vec![], "|"), "");
    assert_eq!(join(&vec![String::new(), String::new()], "|"), "|");
}

#[test]
fn a_substring_is_found_anywhere() {
    assert!(contains("buy cheap pills", "cheap"));
    assert!(contains("buy cheap pills", "buy"));
    assert!(contains("buy cheap pills", "pills"));
    assert!(contains("buy cheap pills", ""));
    assert!(contains("", ""));
    assert!(!contains("", "a"));
    assert!(!contains("buy cheap pills", "Cheap"));
    assert!(!contains("aab", "aba"));
    assert!(contains("aaab", "aab"));
    assert!(!contains("short", "longer than short"));
    assert!(contains("gr\u{fc}\u{df}e", "\u{fc}\u{df}"));
}

#[test]
fn texts_are_compared_by_their_characters() {
    assert!(same_str("", ""));
    assert!(same_str("abc", "abc"));
    assert!(!same_str("abc", "abd"));
    assert!(!same_str("abc", "ab"));
    assert!(same_text(&None, &None));
    assert!(same_text(&Some(String::from("a")), &Some(String::from("a"))));
    assert!(!same_text(&Some(String::from("a")), &Some(String::from("b"))));
    assert!(!same_text(&Some(String::new()), &None));
    assert_eq!(chars_of("a\u{e9}z"), vec!['a', '\u{e9}', 'z']);
    assert!(chars_of("").is_empty());
}

#[test]
fn random_strings_have_the_asked_length_and_alphabet() {
    for length in [0, 1, 6, 64] {
        let s = rand_alphanumeric(length);
        assert_eq!(s.chars().count(), length);
        assert!(s.chars().all(|c| c.is_ascii_alphanumeric()));
    }
    let charset = vec!['x', 'y'];
    let s = generate_random_string(&charset, 40);
    assert_eq!(s.len(), 40);
    assert!(s.chars().all(|c| c == 'x' || c == 'y'));
    assert_eq!(generate_random_string(&vec!['q'], 3), "qqq");
    let code = new_validate_code();
    assert_eq!(code.len(), 6);
    assert!(code.chars().all(|c| c.is_ascii_alphanumeric()));
}

#[test]
fn validation_codes_are_kept_by_mail_address() {
    assert_eq!(validate_redis_key("ann@example.com"), "email-validate:ann@example.com");
    assert_eq!(validate_redis_key(""), "email-validate:");
    let given = String::from("aB3dE9");
    assert_eq!(check_validate_code(&Some(String::from("aB3dE9")), &given), CodeCheck::Valid);
    assert_eq!(check_validate_code(&Some(String::from("ab3de9")), &given), CodeCheck::Wrong);
    assert_eq!(check_validate_code(&None, &given), CodeCheck::Expired);
}

#[test]
fn mail_addresses_are_checked_for_their_form() {
    assert!(is_email("email@here.com"));
    assert!(is_email("abc@bar"));
    assert!(is_email("email@[127.0.0.1]"));
    assert!(!is_email(""));
    assert!(!is_email("abc"));
    assert!(!is_email("abc@"));
    assert!(!is_email("a @x.cz"));
    assert!(!is_email("something@@somewhere.com"));
    assert!(!is_email("John.Doe@exam_ple.com"));
}
