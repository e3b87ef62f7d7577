use ironclaw::order::{sorted_items, Keyed};
use ironclaw::text::{
    chars_of, contains_char, contains_white_space, decimal_text, join, precedes, replace_all,
    same_text_ignoring_ascii_case, string_of, terminal_safe_text, to_ascii_lower, trim,
    trim_trailing,
};
use ironclaw::token::{canonical_effect_kinds, canonical_runtime_kinds};
use ironclaw::capability::{EffectKind, RuntimeKind};

#[test]
fn terminal_safe_text_replaces_control_characters() {
    assert_eq!(
        terminal_safe_text("safe\nforged: row\u{1b}[31m"),
        "safe forged: row [31m"
    );
}

#[test]
fn terminal_safe_text_keeps_everything_else() {
    assert_eq!(terminal_safe_text("caf\u{e9} \u{9b}x\u{7f}"), "caf\u{e9}  x ");
    assert_eq!(
        terminal_safe_text(&terminal_safe_text("a\tb")),
        terminal_safe_text("a\tb")
    );
}

#[test]
fn text_primitives_agree_with_their_meaning() {
    assert_eq!(string_of(&chars_of("h\u{e9}llo")), "h\u{e9}llo");
    assert_eq!(to_ascii_lower("MiXeD-\u{c9}"), "mixed-\u{c9}");
    assert!(same_text_ignoring_ascii_case("HOST", "host"));
    assert!(!same_text_ignoring_ascii_case("host", "hosts"));
    assert_eq!(trim("\u{a0}\t x y \u{3000}\n"), "x y");
    assert_eq!(trim("   "), "");
    assert_eq!(trim_trailing("a//b//", '/'), "a//b");
    assert!(contains_char("a#b", '#') && !contains_char("ab", '#'));
    assert!(contains_white_space("a\u{2003}b") && !contains_white_space("ab"));
    assert!(precedes("a", "ab") && precedes("ab", "b") && !precedes("b", "b"));
}

#[test]
fn replacement_goes_from_left_to_right() {
    assert_eq!(replace_all("aaaa", "aa", "b"), "bb");
    assert_eq!(replace_all("aaa", "aa", "b"), "ba");
    assert_eq!(replace_all("x-y-z", "-", ""), "xyz");
    assert_eq!(replace_all("xyz", "-", "+"), "xyz");
}

#[test]
fn numbers_and_lists_are_written_out() {
    assert_eq!(decimal_text(0), "0");
    assert_eq!(decimal_text(9), "9");
    assert_eq!(decimal_text(1904), "1904");
    assert_eq!(decimal_text(usize::MAX), usize::MAX.to_string());
    let parts = vec!["a".to_string(), "b".to_string(), "c".to_string()];
    assert_eq!(join(&parts, ", "), "a, b, c");
    assert_eq!(join(&Vec::new(), ", "), "");
}

#[test]
fn sorting_is_stable() {
    let entry = |key: &str, item: u64| Keyed {
        key: vec![key.to_string()],
        item,
    };
    let sorted = sorted_items(vec![
        entry("b", 1),
        entry("a", 2),
        entry("b", 0),
        entry("a", 3),
    ]);
    assert_eq!(sorted, vec![2, 3, 1, 0]);
}

#[test]
fn canonical_tokens_ignore_order_and_duplicates() {
    let left = vec![EffectKind::UseSecret, EffectKind::Network, EffectKind::Network];
    let right = vec![EffectKind::Network, EffectKind::UseSecret];
    assert_eq!(canonical_effect_kinds(&left), vec!["network", "use_secret"]);
    assert_eq!(canonical_effect_kinds(&left), canonical_effect_kinds(&right));
    assert_eq!(
        canonical_runtime_kinds(&vec![RuntimeKind::Wasm, RuntimeKind::FirstParty, RuntimeKind::Mcp]),
        vec!["first_party", "mcp", "wasm"]
    );
}
