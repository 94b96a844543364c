use repo_health::size::format_bytes;
use repo_health::text::{
    char_is_white_space, chars_of, decimal_text, joined_text, padded_text, same_text, signed_text, text_contains,
    text_ends_with, text_same_ignoring_case,
};

fn by_floats(bytes: u64) -> String {
    const KB: f64 = 1024.0;
    const MB: f64 = 1024.0 * 1024.0;
    const GB: f64 = 1024.0 * 1024.0 * 1024.0;
    let b = bytes as f64;
    if b >= GB {
        format!("{:.2} GB", b / GB)
    } else if b >= MB {
        format!("{:.2} MB", b / MB)
    } else if b >= KB {
        format!("{:.2} KB", b / KB)
    } else {
        format!("{} B", bytes)
    }
}

#[test]
fn sizes_have_exact_texts() {
    assert_eq!(format_bytes(0), "0 B");
    assert_eq!(format_bytes(1023), "1023 B");
    assert_eq!(format_bytes(1024), "1.00 KB");
    assert_eq!(format_bytes(1536), "1.50 KB");
    assert_eq!(format_bytes(1152), "1.12 KB");
    assert_eq!(format_bytes(1408), "1.38 KB");
    assert_eq!(format_bytes(1024 * 1024 - 1), "1024.00 KB");
    assert_eq!(format_bytes(1024 * 1024), "1.00 MB");
    assert_eq!(format_bytes(1024 * 1024 * 1024), "1.00 GB");
    assert_eq!(format_bytes(u64::MAX), "17179869184.00 GB");
}

#[test]
fn sizes_agree_with_floating_point() {
    for n in 0..70_000u64 {
        assert_eq!(format_bytes(n), by_floats(n), "{n}");
    }
    for shift in 0..64u32 {
        let base = 1u64 << shift;
        for near in 0..400u64 {
            for n in [base.wrapping_add(near), base.wrapping_sub(near)] {
                assert_eq!(format_bytes(n), by_floats(n), "{n}");
            }
        }
    }
    let mut n: u64 = 0x9e37_79b9_7f4a_7c15;
    for _ in 0..100_000 {
        n ^= n << 13;
        n ^= n >> 7;
        n ^= n << 17;
        assert_eq!(format_bytes(n), by_floats(n), "{n}");
        let m = n >> (n % 50);
        assert_eq!(format_bytes(m), by_floats(m), "{m}");
    }
}

#[test]
fn sizes_agree_near_ties() {
    let step = (1u64 << 30) / 8;
    for k in 0..2000u64 {
        let n = k.wrapping_mul(step).wrapping_add(k << 53);
        for d in 0..40u64 {
            for m in [n.wrapping_add(d * 128), n.wrapping_sub(d * 128), n.wrapping_add(d), n.wrapping_sub(d)] {
                assert_eq!(format_bytes(m), by_floats(m), "{m}");
            }
        }
    }
}

#[test]
fn numbers_have_exact_texts() {
    for n in [0u128, 9, 10, 99, 100, 12345, u64::MAX as u128, u128::MAX] {
        assert_eq!(decimal_text(n), n.to_string());
    }
    for n in [0i32, 1, -1, 10, -10, i32::MAX, i32::MIN] {
        assert_eq!(signed_text(n), format!("{n:+}"));
    }
}

#[test]
fn columns_and_lists_have_exact_texts() {
    assert_eq!(padded_text("ab", 4), "  ab");
    assert_eq!(padded_text("é", 3), format!("{:>3}", "é"));
    assert_eq!(padded_text("abcd", 2), "abcd");
    let list = vec!["a".to_string(), "b".to_string(), "c".to_string()];
    assert_eq!(joined_text(&list, ", "), "a, b, c");
    assert_eq!(joined_text(&list[..1].to_vec(), ", "), "a");
    assert_eq!(joined_text(&Vec::new(), ", "), "");
}

#[test]
fn texts_are_searched_by_characters() {
    assert!(same_text("é", "é"));
    assert!(!same_text("é", "e"));
    assert!(!same_text("ab", "a"));
    assert!(text_ends_with("x.env", ".env"));
    assert!(text_ends_with(".env", ".env"));
    assert!(!text_ends_with("env", ".env"));
    assert!(text_contains("abc", "bc"));
    assert!(text_contains("abc", ""));
    assert!(text_contains("", ""));
    assert!(!text_contains("abc", "cb"));
    assert!(text_same_ignoring_case("CARGO.toml", "Cargo.TOML"));
    assert!(!text_same_ignoring_case("\u{212a}", "k"));
    assert!(!text_same_ignoring_case("[", "{"));
    assert_eq!(chars_of("aé"), ['a', 'é']);
}

#[test]
fn white_space_is_that_of_unicode() {
    for c in '\0'..=char::MAX {
        assert_eq!(char_is_white_space(c), c.is_whitespace(), "{c:?}");
    }
}
