use std::path::PathBuf;

use wrac_gain_plugin::logging::{default_log_file, sanitize_file_stem};
use wrac_gain_plugin::text::{is_control_char, is_whitespace_char, trim};

#[test]
fn control_class_matches_std_for_every_char() {
    for code in 0u32..=0x10FFFF {
        if let Some(c) = char::from_u32(code) {
            assert_eq!(is_control_char(c), c.is_control(), "U+{code:04X}");
        }
    }
}

#[test]
fn whitespace_class_matches_std_for_every_char() {
    for code in 0u32..=0x10FFFF {
        if let Some(c) = char::from_u32(code) {
            assert_eq!(is_whitespace_char(c), c.is_whitespace(), "U+{code:04X}");
        }
    }
}

#[test]
fn trim_matches_std() {
    for text in ["", "   ", " a ", "\t\nab c\u{3000}", "x", "\u{85}y\u{2028}", " a b "] {
        assert_eq!(trim(text), text.trim());
    }
}

#[test]
fn sanitize_replaces_reserved_characters() {
    assert_eq!(sanitize_file_stem("WRAC Gain"), "WRAC Gain");
    assert_eq!(sanitize_file_stem("a<b>c:d\"e/f\\g|h?i*j"), "a_b_c_d_e_f_g_h_i_j");
    assert_eq!(sanitize_file_stem("tab\there"), "tab_here");
    assert_eq!(sanitize_file_stem("bell\u{7}\u{9f}"), "bell__");
}

#[test]
fn sanitize_trims_surrounding_whitespace() {
    assert_eq!(sanitize_file_stem("  Gain  "), "Gain");
    assert_eq!(sanitize_file_stem("\u{3000}Gain Plugin\u{a0}"), "Gain Plugin");
}

#[test]
fn sanitize_control_whitespace_becomes_underscore_before_trim() {
    assert_eq!(sanitize_file_stem("\n"), "_");
    assert_eq!(sanitize_file_stem(" \t "), "_");
}

#[test]
fn sanitize_empty_becomes_plugin() {
    assert_eq!(sanitize_file_stem(""), "Plugin");
    assert_eq!(sanitize_file_stem("   "), "Plugin");
    assert_eq!(sanitize_file_stem("\u{2003}"), "Plugin");
}

#[test]
fn sanitize_is_idempotent() {
    for name in ["", "  ", " a<b ", "WRAC Gain", "\t x \n", "日本語 *"] {
        let once = sanitize_file_stem(name);
        assert_eq!(sanitize_file_stem(&once), once);
    }
}

#[test]
fn sanitized_stem_is_clean() {
    for name in ["", "  ", " a<b ", "WRAC Gain", "\t x \n", "?*"] {
        let stem = sanitize_file_stem(name);
        assert!(!stem.is_empty());
        assert_eq!(stem.trim(), stem);
        assert!(stem.chars().all(|c| !c.is_control() && !"<>:\"/\\|?*".contains(c)));
    }
}

#[test]
fn log_file_lives_next_to_the_plugin_crate() {
    let path = default_log_file("/repo/src-plugin", " WRAC: Gain ");
    assert_eq!(path.base, "/repo/src-plugin");
    assert_eq!(path.segments, vec!["../.log".to_string(), "WRAC_ Gain Latest.log".to_string()]);
    let mut buf = PathBuf::from(&path.base);
    for segment in &path.segments {
        buf.push(segment);
    }
    assert_eq!(buf, PathBuf::from("/repo/src-plugin").join("../.log").join("WRAC_ Gain Latest.log"));
}

#[test]
fn trim_is_idempotent() {
    for text in ["", " \u{2000}a b\t", "\u{85}", "x  "] {
        let once = trim(text);
        assert_eq!(trim(&once), once);
    }
}
