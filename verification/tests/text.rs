use wasm_audio::text::{chars_of, replace, same_text};

fn check_like_std(s: &str, from: &str, to: &str) {
    assert_eq!(replace(s, from, to), s.replace(from, to), "{:?} {:?} {:?}", s, from, to);
}

#[test]
fn replace_agrees_with_std() {
    check_like_std("~bw: #bandwidth >> mul #bandwidth", "#bandwidth", "0.7");
    check_like_std("aaa", "aa", "b");
    check_like_std("abcabc", "bc", "");
    check_like_std("", "x", "y");
    check_like_std("no placeholder here", "#decay", "0.3");
    check_like_std("abc", "", "-");
    check_like_std("", "", "-");
    check_like_std("ünïcödé ü", "ü", "u");
    check_like_std("ab", "abc", "z");
    check_like_std("xyzxyz", "xyzxyz", "1");
}

#[test]
fn replace_exact_values() {
    assert_eq!(replace("a#xb#x", "#x", "12"), "a12b12");
    assert_eq!(replace("abc", "", "."), ".a.b.c.");
    assert_eq!(replace("aaaa", "aa", "a"), "aa");
}

#[test]
fn replace_by_itself_keeps_text() {
    for s in ["", "abc", "aaa", "#x#x"] {
        for from in ["", "a", "#x", "zz"] {
            assert_eq!(replace(s, from, from), s);
        }
    }
}

#[test]
fn same_text_compares_characters() {
    assert!(same_text("freq", "freq"));
    assert!(!same_text("freq", "frequency"));
    assert!(!same_text("amp", "amq"));
    assert!(same_text("", ""));
}

#[test]
fn chars_of_collects_in_order() {
    assert_eq!(chars_of("añb"), vec!['a', 'ñ', 'b']);
    assert!(chars_of("").is_empty());
}
