use a121_stubgen::registry::DefaultValueMap;
use a121_stubgen::text::{
    chars_of, contains, find, is_whitespace, rfind_char, same_chars, same_text, slice_of, split,
    starts_with, starts_with_at, string_of, strip_prefix_all, strip_suffix_char_all, trim,
    trim_end, trim_start,
};

fn chars(s: &str) -> Vec<char> {
    s.chars().collect()
}

#[test]
fn characters_and_strings_convert_both_ways() {
    assert_eq!(chars_of("héllo"), vec!['h', 'é', 'l', 'l', 'o']);
    assert_eq!(chars_of(""), Vec::<char>::new());
    assert_eq!(string_of(&chars("a→b")), "a→b");
    assert_eq!(slice_of(&chars("abcdef"), 2, 4), chars("cd"));
    assert_eq!(slice_of(&chars("abc"), 3, 3), Vec::<char>::new());
}

#[test]
fn whitespace_is_the_unicode_property() {
    for c in [' ', '\t', '\n', '\u{0B}', '\u{0C}', '\r', '\u{85}', '\u{A0}', '\u{1680}', '\u{2000}',
        '\u{200A}', '\u{2028}', '\u{2029}', '\u{202F}', '\u{205F}', '\u{3000}']
    {
        assert!(is_whitespace(c));
        assert!(c.is_whitespace());
    }
    for c in ['a', '0', '_', '\u{200B}', '\u{08}', '\u{0E}', '\u{180E}', '\u{FEFF}'] {
        assert!(!is_whitespace(c));
        assert!(!c.is_whitespace());
    }
}

#[test]
fn trimming_removes_whitespace_at_the_ends_only() {
    assert_eq!(trim(&chars("  a b \t\n")), chars("a b"));
    assert_eq!(trim_start(&chars("  a b  ")), chars("a b  "));
    assert_eq!(trim_end(&chars("  a b  ")), chars("  a b"));
    assert_eq!(trim(&chars(" \u{3000} ")), chars(""));
    assert_eq!(trim(&chars("")), chars(""));
    assert_eq!(trim(&chars("x")), chars("x"));
}

#[test]
fn searching_finds_the_first_occurrence() {
    assert_eq!(find(&chars("a->b->c"), &chars("->")), Some(1));
    assert_eq!(find(&chars("abc"), &chars("")), Some(0));
    assert_eq!(find(&chars(""), &chars("")), Some(0));
    assert_eq!(find(&chars("abc"), &chars("abcd")), None);
    assert_eq!(find(&chars("aab"), &chars("ab")), Some(1));
    assert_eq!(find(&chars("abc"), &chars("c")), Some(2));
    assert!(contains(&chars("acc_sensor_create"), &chars("create")));
    assert!(!contains(&chars("acc_sensor_creat"), &chars("create")));
    assert_eq!(rfind_char(&chars("a b c"), ' '), Some(3));
    assert_eq!(rfind_char(&chars("abc"), ' '), None);
}

#[test]
fn prefixes_are_tested_and_stripped() {
    assert!(starts_with(&chars("extern fn"), &chars("extern")));
    assert!(!starts_with(&chars("ext"), &chars("extern")));
    assert!(starts_with(&chars("x"), &chars("")));
    assert!(starts_with_at(&chars("abcabc"), 3, &chars("abc")));
    assert!(!starts_with_at(&chars("abcabc"), 4, &chars("abc")));
    assert_eq!(strip_prefix_all(&chars("fn fn fnx"), &chars("fn ")), chars("fnx"));
    assert_eq!(strip_prefix_all(&chars("abc"), &chars("")), chars("abc"));
    assert_eq!(strip_suffix_char_all(&chars("a;;b;;;"), ';'), chars("a;;b"));
    assert_eq!(strip_suffix_char_all(&chars(";;"), ';'), chars(""));
    assert!(same_chars(&chars("ab"), &chars("ab")));
    assert!(!same_chars(&chars("ab"), &chars("abc")));
    assert!(!same_chars(&chars("ab"), &chars("ac")));
}

#[test]
fn splitting_keeps_empty_pieces() {
    assert_eq!(split(&chars("a,b,,c"), ','), vec![chars("a"), chars("b"), chars(""), chars("c")]);
    assert_eq!(split(&chars(""), ','), vec![chars("")]);
    assert_eq!(split(&chars(","), ','), vec![chars(""), chars("")]);
    assert_eq!(split(&chars("one\ntwo\n"), '\n'), vec![chars("one"), chars("two"), chars("")]);
}

#[test]
fn registry_returns_the_latest_literal() {
    let mut registry = DefaultValueMap::new();
    assert_eq!(registry.get("bool"), None);
    registry.insert("bool".to_string(), "true".to_string());
    registry.insert("int".to_string(), "0".to_string());
    registry.insert("bool".to_string(), "false".to_string());
    assert_eq!(registry.get("bool").map(|s| s.as_str()), Some("false"));
    assert_eq!(registry.get("int").map(|s| s.as_str()), Some("0"));
    assert_eq!(registry.get("float"), None);
    assert!(same_text("abc", "abc"));
    assert!(!same_text("abc", "abd"));
}

#[test]
fn standard_registry_covers_primitives_and_enumerations() {
    let registry = DefaultValueMap::standard();
    let expected = [
        ("bool", "true"),
        ("uint8_t", "0"),
        ("uint16_t", "0"),
        ("uint32_t", "0"),
        ("float", "0.1"),
        ("int32_t", "-1"),
        ("acc_config_profile_t", "ACC_CONFIG_PROFILE_3"),
        ("acc_config_idle_state_t", "ACC_CONFIG_IDLE_STATE_SLEEP"),
        ("acc_config_prf_t", "ACC_CONFIG_PRF_13_0_MHZ"),
        ("acc_rss_test_state_t", "ACC_RSS_TEST_STATE_COMPLETE"),
        ("acc_detector_distance_threshold_method_t", "ACC_DETECTOR_DISTANCE_THRESHOLD_METHOD_FIXED_STRENGTH"),
        ("acc_detector_distance_peak_sorting_t", "ACC_DETECTOR_DISTANCE_PEAK_SORTING_STRONGEST"),
        ("acc_sensor_id_t", "1"),
        ("acc_detector_distance_reflector_shape_t", "ACC_DETECTOR_DISTANCE_REFLECTOR_SHAPE_GENERIC"),
    ];
    for (kind, literal) in expected {
        assert_eq!(registry.get(kind).map(|s| s.as_str()), Some(literal));
    }
    assert_eq!(registry.get("void"), None);
    assert_eq!(registry.get("acc_config_t *"), None);
}

#[test]
fn whitespace_agrees_with_the_standard_library_on_every_character() {
    let mut code: u32 = 0;
    while code <= 0x10FFFF {
        if let Some(c) = char::from_u32(code) {
            assert_eq!(is_whitespace(c), c.is_whitespace());
        }
        code += 1;
    }
}

#[test]
fn trimming_agrees_with_the_standard_library() {
    for sample in ["", " ", "a", "  a  ", "\t\r\na b\u{2003}", "\u{200B} x \u{200B}", "x\u{85}", "\u{FEFF}y "] {
        assert_eq!(string_of(&trim(&chars(sample))), sample.trim());
        assert_eq!(string_of(&trim_start(&chars(sample))), sample.trim_start());
        assert_eq!(string_of(&trim_end(&chars(sample))), sample.trim_end());
    }
}

#[test]
fn searching_and_stripping_agree_with_the_standard_library() {
    let samples = ["", "a", "->", "a->b", "fn fn x", "extern \"C\" extern \"C\" fn f();", "x;;;", "((a))", "a,b,,c,"];
    let patterns = ["", "a", "->", "fn ", "extern \"C\" ", ";", ","];
    for sample in samples {
        for pattern in patterns {
            let found = find(&chars(sample), &chars(pattern));
            assert_eq!(found, sample.find(pattern).map(|byte| sample[..byte].chars().count()));
            assert_eq!(contains(&chars(sample), &chars(pattern)), sample.contains(pattern));
            assert_eq!(starts_with(&chars(sample), &chars(pattern)), sample.starts_with(pattern));
            if !pattern.is_empty() {
                assert_eq!(
                    string_of(&strip_prefix_all(&chars(sample), &chars(pattern))),
                    sample.trim_start_matches(pattern)
                );
            }
        }
        assert_eq!(string_of(&strip_suffix_char_all(&chars(sample), ';')), sample.trim_end_matches(';'));
        assert_eq!(
            split(&chars(sample), ',').iter().map(string_of).collect::<Vec<String>>(),
            sample.split(',').map(|s| s.to_string()).collect::<Vec<String>>()
        );
        assert_eq!(rfind_char(&chars(sample), ' '), sample.rfind(' ').map(|byte| sample[..byte].chars().count()));
    }
}
