use nbenchmark::gpu_db::gpu_db;
use nbenchmark::text::{
    contains_chars, first_word_chars, last_word_of, prefix_within_bytes, str_chars, white_space,
};

fn c(s: &str) -> Vec<char> {
    s.chars().collect()
}

#[test]
fn substring_search() {
    assert!(contains_chars(&c("FP16 | 16F DEFAULT"), &c("16F DEFAULT")));
    assert!(!contains_chars(&c("FP16 | 32F DEFAULT (uses FMA)"), &c("16F DEFAULT")));
    assert!(contains_chars(&c("abc"), &c("")));
    assert!(contains_chars(&c(""), &c("")));
    assert!(!contains_chars(&c("ab"), &c("abc")));
    assert!(contains_chars(&c("abc"), &c("abc")));
    assert!(contains_chars(&c("xxabc"), &c("abc")));
    assert!(!contains_chars(&c("abxc"), &c("abc")));
}

#[test]
fn first_word_before_space() {
    assert_eq!(first_word_chars(&c("rtx 2060 super")), c("rtx"));
    assert_eq!(first_word_chars(&c("p102-100")), c("p102-100"));
    assert_eq!(first_word_chars(&c(" lead")), c(""));
    assert_eq!(first_word_chars(&c("")), c(""));
}

#[test]
fn chars_of_str() {
    assert_eq!(str_chars("Tesla P100"), c("Tesla P100"));
    assert_eq!(str_chars("ÄB✅"), c("ÄB✅"));
    assert_eq!(str_chars(""), c(""));
}

#[test]
fn last_word_is_split_whitespace_last() {
    for s in ["Pascal GP100", "Turing TU102/TU104 (mining)", "  a  b  ", "single", "", "   ", "x\u{3000}y", "tab\tend\n"] {
        assert_eq!(last_word_of(s), s.split_whitespace().last().unwrap_or(s), "{:?}", s);
    }
    assert_eq!(last_word_of("Turing TU106-410"), "TU106-410");
}

#[test]
fn last_word_of_every_known_arch() {
    for g in gpu_db() {
        assert_eq!(last_word_of(g.arch), g.arch.split_whitespace().last().unwrap_or(g.arch));
    }
}

#[test]
fn white_space_matches_std() {
    for c in ['\t', '\n', ' ', '\u{85}', '\u{a0}', '\u{1680}', '\u{2000}', '\u{200a}', '\u{2028}', '\u{202f}', '\u{205f}', '\u{3000}', 'a', '\u{200b}', '\u{180e}', '0'] {
        assert_eq!(white_space(c), c.is_whitespace(), "{:?}", c);
    }
}

#[test]
fn notes_cut_at_forty_bytes() {
    for g in gpu_db() {
        assert_eq!(prefix_within_bytes(g.notes, 40), &g.notes[..g.notes.len().min(40)]);
    }
    assert_eq!(prefix_within_bytes("short", 40), "short");
    assert_eq!(prefix_within_bytes("", 40), "");
    // A char that would straddle the limit is left out instead of splitting it.
    assert_eq!(prefix_within_bytes("aé", 2), "a");
    assert_eq!(prefix_within_bytes("aé", 3), "aé");
    assert_eq!(prefix_within_bytes("✅✅", 5), "✅");
}
