use bevy_openxr_poc::extensions::{
    format_extensions, is_white_space, missing_extensions, name_bytes, parse_extension_list,
};

fn strings(names: &[&str]) -> Vec<String> {
    names.iter().map(|n| n.to_string()).collect()
}

fn bytes(names: &[&str]) -> Vec<Vec<u8>> {
    names.iter().map(|n| n.as_bytes().to_vec()).collect()
}

#[test]
fn white_space_is_what_std_says_it_is() {
    for n in 0..=0x10ffffu32 {
        if let Some(c) = char::from_u32(n) {
            assert_eq!(is_white_space(c), c.is_whitespace(), "U+{n:04X}");
        }
    }
}

#[test]
fn list_is_split_at_white_space() {
    assert_eq!(
        parse_extension_list("VK_KHR_external_memory VK_KHR_external_fence"),
        strings(&["VK_KHR_external_memory", "VK_KHR_external_fence"])
    );
    assert_eq!(parse_extension_list("  a\t\nb\u{3000}c  "), strings(&["a", "b", "c"]));
}

#[test]
fn nothing_but_white_space_holds_no_name() {
    assert!(parse_extension_list("").is_empty());
    assert!(parse_extension_list(" \n ").is_empty());
}

#[test]
fn name_with_a_nul_is_dropped() {
    assert_eq!(parse_extension_list("a b\0c d"), strings(&["a", "d"]));
    assert!(parse_extension_list("\0").is_empty());
}

#[test]
fn names_may_hold_any_other_character() {
    assert_eq!(parse_extension_list("\u{e9}t\u{e9} \u{1f600}"), strings(&["\u{e9}t\u{e9}", "\u{1f600}"]));
}

#[test]
fn splitting_agrees_with_std() {
    for list in ["", " x", "x ", "a  b", "a\u{a0}b\u{2028}c", "one two\0 three", "\u{85}q"] {
        let expected: Vec<String> = list
            .split_whitespace()
            .filter(|w| !w.contains('\0'))
            .map(|w| w.to_string())
            .collect();
        assert_eq!(parse_extension_list(list), expected);
    }
}

#[test]
fn joined_names_parse_back() {
    let names = strings(&["VK_KHR_a", "VK_KHR_b", "VK_EXT_c"]);
    assert_eq!(parse_extension_list(&names.join(" ")), names);
}

#[test]
fn lists_are_printed_with_commas() {
    assert_eq!(format_extensions(&strings(&[])), "(none)");
    assert_eq!(format_extensions(&strings(&["a"])), "a");
    assert_eq!(format_extensions(&strings(&["a", "b", "c"])), "a, b, c");
}

#[test]
fn only_missing_extensions_are_added() {
    assert_eq!(missing_extensions(&bytes(&["a", "b"]), &bytes(&["b", "c", "a", "d"])), [1, 3]);
    assert!(missing_extensions(&bytes(&["a"]), &bytes(&[])).is_empty());
    assert_eq!(missing_extensions(&bytes(&[]), &bytes(&["a"])), [0]);
}

#[test]
fn extension_required_twice_is_added_once() {
    assert_eq!(missing_extensions(&bytes(&["a"]), &bytes(&["c", "c", "a", "c"])), [0]);
}

#[test]
fn prefix_of_an_enabled_name_is_still_missing() {
    assert_eq!(missing_extensions(&bytes(&["abc"]), &bytes(&["ab", "abcd", ""])), [0, 1, 2]);
}

#[test]
fn adding_again_adds_nothing() {
    let required = bytes(&["x", "y", "x"]);
    let mut enabled = bytes(&["y"]);
    for i in missing_extensions(&enabled, &required) {
        enabled.push(required[i].clone());
    }
    assert_eq!(enabled, bytes(&["y", "x"]));
    assert!(missing_extensions(&enabled, &required).is_empty());
}

#[test]
fn names_are_known_by_their_utf8_bytes() {
    assert_eq!(name_bytes(&strings(&["ab", "\u{e9}"])), vec![vec![97u8, 98], vec![0xc3, 0xa9]]);
}

#[test]
fn listed_extensions_end_up_enabled() {
    let names = parse_extension_list("VK_KHR_a VK_KHR_b VK_KHR_a");
    let required = name_bytes(&names);
    let mut enabled = bytes(&["VK_KHR_surface", "VK_KHR_b"]);
    for i in missing_extensions(&enabled, &required) {
        enabled.push(required[i].clone());
    }
    assert_eq!(enabled, bytes(&["VK_KHR_surface", "VK_KHR_b", "VK_KHR_a"]));
}

#[test]
fn white_space_between_two_lists_separates_them() {
    for (a, b) in [("", ""), ("VK_a", ""), ("", "VK_b"), ("VK_a  VK_b", "VK_c"), (" x\0y z ", " w")] {
        for space in [" ", "\t", "\u{3000}"] {
            let mut expected = parse_extension_list(a);
            expected.extend(parse_extension_list(b));
            assert_eq!(parse_extension_list(&format!("{a}{space}{b}")), expected);
        }
    }
}
