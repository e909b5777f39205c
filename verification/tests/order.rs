use risc_bot::order::{comes_before, dedup, sorted};

fn strings(list: &[&str]) -> Vec<String> {
    list.iter().map(|s| s.to_string()).collect()
}

#[test]
fn comes_before_is_the_order_of_strings() {
    let samples = ["", "a", "A", "ab", "abc", "b", "\u{e9}", "z", "a\u{0}", "\u{10348}", "~"];
    for a in samples.iter() {
        for b in samples.iter() {
            assert_eq!(comes_before(a, b), a < b, "{:?} before {:?}", a, b);
        }
    }
}

#[test]
fn sorted_keeps_repetitions() {
    assert_eq!(sorted(strings(&[])), strings(&[]));
    assert_eq!(sorted(strings(&["b"])), strings(&["b"]));
    assert_eq!(
        sorted(strings(&["rust", "abc", "Rust", "abc", "", "ab"])),
        strings(&["", "Rust", "ab", "abc", "abc", "rust"])
    );
    let mut list = strings(&["/rt: x", "/risc: y", "/all: z", "/help: h"]);
    let expected = {
        let mut copy = list.clone();
        copy.sort();
        copy
    };
    list = sorted(list);
    assert_eq!(list, expected);
    assert_eq!(list, strings(&["/all: z", "/help: h", "/risc: y", "/rt: x"]));
}

#[test]
fn dedup_drops_what_repeats_the_text_before() {
    assert_eq!(dedup(strings(&[])), strings(&[]));
    assert_eq!(dedup(strings(&["a"])), strings(&["a"]));
    assert_eq!(
        dedup(strings(&["a", "a", "b", "c", "c", "c", "d"])),
        strings(&["a", "b", "c", "d"])
    );
    assert_eq!(dedup(strings(&["a", "b", "a"])), strings(&["a", "b", "a"]));
}
