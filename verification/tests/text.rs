use risc_bot::text::{first_word, i32_text, input, join, last_word_of, push_decimal, u64_text};

#[test]
fn u64_text_writes_decimal() {
    assert_eq!(u64_text(0), "0");
    assert_eq!(u64_text(7), "7");
    assert_eq!(u64_text(10), "10");
    assert_eq!(u64_text(305), "305");
    assert_eq!(u64_text(1_234_567_890), "1234567890");
    assert_eq!(u64_text(u64::MAX), "18446744073709551615");
}

#[test]
fn i32_text_writes_sign() {
    assert_eq!(i32_text(0), "0");
    assert_eq!(i32_text(124), "124");
    assert_eq!(i32_text(-1), "-1");
    assert_eq!(i32_text(i32::MAX), "2147483647");
    assert_eq!(i32_text(i32::MIN), "-2147483648");
}

#[test]
fn push_decimal_appends() {
    let mut text = String::from("throttling ");
    push_decimal(&mut text, 10);
    assert_eq!(text, "throttling 10");
}

#[test]
fn join_puts_separator_between() {
    let none: Vec<String> = vec![];
    assert_eq!(join(&none, ", "), "");
    assert_eq!(join(&vec!["a".to_string()], ", "), "a");
    assert_eq!(
        join(&vec!["a".to_string(), "".to_string(), "c".to_string()], ", "),
        "a, , c"
    );
}

#[test]
fn last_word_of_takes_what_follows_the_last_space() {
    assert_eq!(last_word_of("5ms 300us 20ns"), "20ns");
    assert_eq!(last_word_of("32ms"), "32ms");
    assert_eq!(last_word_of(""), "");
    assert_eq!(last_word_of("ends with space "), "");
    assert_eq!(last_word_of(" x"), "x");
    assert_eq!(last_word_of("caf\u{e9} \u{2705}\u{e9}"), "\u{2705}\u{e9}");
}

#[test]
fn input_is_what_follows_the_first_space() {
    assert_eq!(input("/exec echo hi"), "echo hi");
    assert_eq!(input("/exec    echo  hi  "), "echo  hi  ");
    assert_eq!(input("/exec"), "");
    assert_eq!(input("/exec "), "");
    assert_eq!(input("/exec \t\n "), "");
    assert_eq!(input(""), "");
    assert_eq!(input(" x"), "x");
    assert_eq!(input("/exec\techo hi"), "hi");
    assert_eq!(input("/exec \u{a0}\u{3000}ls \u{e9}"), "ls \u{e9}");
    assert_eq!(input("/duck !w Telegram app"), "!w Telegram app");
}

#[test]
fn first_word_stands_before_the_first_space() {
    assert_eq!(first_word("/exec echo hi"), "/exec");
    assert_eq!(first_word("/exec"), "/exec");
    assert_eq!(first_word(" x"), "");
    assert_eq!(first_word(""), "");
    assert_eq!(first_word("\u{e9}t\u{e9}\tx y"), "\u{e9}t\u{e9}\tx");
}
