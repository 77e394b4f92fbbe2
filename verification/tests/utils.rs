use iris::colors::{format_size, hex_to_rgb};
use iris::palette::Palette;
use iris::{capitalize, remove_key, remove_marker, replace_block};

#[test]
fn should_parse_hex_to_rgb() {
    assert_eq!(hex_to_rgb("#ffffff"), (255, 255, 255));
    assert_eq!(hex_to_rgb("000000"), (0, 0, 0));
    assert_eq!(hex_to_rgb("#ff5500"), (255, 85, 0));
}

#[test]
fn should_handle_wrong_hex() {
    assert_eq!(hex_to_rgb("short"), (128, 128, 128));
    assert_eq!(hex_to_rgb("#zzzzzz"), (0, 0, 0));
}

#[test]
fn hex_to_rgb_drops_every_leading_hash_and_reads_both_cases() {
    assert_eq!(hex_to_rgb("##AbCdEf"), (0xab, 0xcd, 0xef));
    assert_eq!(hex_to_rgb(""), (128, 128, 128));
    assert_eq!(hex_to_rgb("#1234567"), (128, 128, 128));
}

#[test]
fn hex_to_rgb_reads_a_plus_sign_as_from_str_radix_does() {
    assert_eq!(hex_to_rgb("+f+a00"), (15, 10, 0));
    assert_eq!(hex_to_rgb("-f0000"), (0, 0, 0));
}

#[test]
fn hex_to_rgb_gives_zero_for_a_two_byte_character() {
    // "é" takes two bytes: the pair is not a number.
    assert_eq!(hex_to_rgb("é0000"), (0, 0, 0));
}

#[test]
fn should_capitalize_string() {
    assert_eq!(capitalize("iris"), "Iris");
    assert_eq!(capitalize("A"), "A");
    assert_eq!(capitalize(""), "");
}

#[test]
fn capitalize_uses_the_unicode_upper_case() {
    assert_eq!(capitalize("ßa"), "SSa");
    assert_eq!(capitalize("émile"), "Émile");
}

#[test]
fn should_format_size_correctly() {
    assert_eq!(format_size(500), "500 b");
    assert_eq!(format_size(1024), "1.0 kb");
    assert_eq!(format_size(1536), "1.5 kb");
    assert_eq!(format_size(1024 * 1024), "1.0 mb");
    assert_eq!(format_size(2097152), "2.0 mb");
}

#[test]
fn format_size_edges() {
    assert_eq!(format_size(0), "0 b");
    assert_eq!(format_size(1023), "1023 b");
    assert_eq!(format_size(1048575), "1024.0 kb");
    assert_eq!(format_size(u64::MAX), "17592186044416.0 mb");
}

fn float_size(bytes: u64) -> String {
    if bytes < 1024 {
        format!("{} b", bytes)
    } else if bytes < 1024 * 1024 {
        format!("{:.1} kb", bytes as f64 / 1024.0)
    } else {
        format!("{:.1} mb", bytes as f64 / (1024.0 * 1024.0))
    }
}

#[test]
fn format_size_agrees_with_float_formatting() {
    let mut samples: Vec<u64> = Vec::new();
    for b in 0..5000u64 {
        samples.push(b);
    }
    for k in 0..2000u64 {
        samples.push(1024 * 1024 - 1000 + k);
        samples.push(1024 * 1024 * 7 + 52428 * k);
        samples.push((1u64 << 53) - 1000 + k);
        samples.push(u64::MAX - k * 1023);
    }
    let mut x: u64 = 0x9e37_79b9_7f4a_7c15;
    for _ in 0..20000 {
        x ^= x << 13;
        x ^= x >> 7;
        x ^= x << 17;
        samples.push(x >> (x % 60));
    }
    for b in samples {
        assert_eq!(format_size(b), float_size(b), "bytes = {}", b);
    }
}

#[test]
fn should_replace_existing_block() {
    let content = "line 1\n# [iris:begin:fzf]\nold content\n# [iris:end:fzf]\nline 2";
    let result = replace_block(content, "fzf", "new content");
    let expected = "line 1\n# [iris:begin:fzf]\nnew content\n# [iris:end:fzf]\nline 2";
    assert_eq!(result, expected);
}

#[test]
fn should_append_block_if_markers_missing() {
    let content = "line 1\nline 2";
    let result = replace_block(content, "fzf", "new content");
    let expected = "line 1\nline 2\n\n# [iris:begin:fzf]\nnew content\n# [iris:end:fzf]\n";
    assert_eq!(result, expected);
}

#[test]
fn replace_block_twice_gives_the_same_text() {
    let once = replace_block("a\nb", "x", "inner");
    let twice = replace_block(&once, "x", "inner");
    assert_eq!(once, twice);
}

#[test]
fn replace_block_into_empty_content() {
    assert_eq!(replace_block("", "m", "  body  "), "# [iris:begin:m]\nbody\n# [iris:end:m]\n");
}

#[test]
fn should_remove_key_correctly() {
    let content = "theme = 'dark'\npalette = 'gruvbox'\nother = 123";
    let result = remove_key(content, "palette");
    let expected = "theme = 'dark'\nother = 123";
    assert_eq!(result, expected);
}

#[test]
fn remove_key_keeps_keys_that_only_share_a_prefix() {
    assert_eq!(remove_key("palettes = 1\n  palette = 2", "palette"), "palettes = 1");
}

#[test]
fn should_remove_marker_line_correctly() {
    let content = "line 1\n[iris:begin:fzf] some config\nline 2";
    let result = remove_marker(content, "[iris:begin:fzf]");
    let expected = "line 1\nline 2";
    assert_eq!(result, expected);
}

#[test]
fn should_parse_nvim_json_with_garbage() {
    let raw_output = r##"
            [NVIM] Warning: Semantic tokens not supported
            {
                "bg": "#121212", "fg": "#ffffff", "caret": "#ffffff",
                "line_hl": "#000000", "sel": "#000000", "gutter_fg": "#000000",
                "comment": "#000000", "variable": "#000000", "constant": "#000000",
                "number": "#000000", "string": "#000000", "keyword": "#000000",
                "operator": "#000000", "func": "#000000", "type_name": "#000000",
                "tag": "#000000", "attribute": "#000000", "white": "#ffffff",
                "added": "#ffffff", "changed": "#ffffff", "deleted": "#ffffff",
                "ansi": [
                    "#000000", "#111111", "#222222", "#333333",
                    "#444444", "#555555", "#666666", "#777777",
                    "#888888", "#999999", "#aaaaaa", "#bbbbbb",
                    "#cccccc", "#dddddd", "#eeeeee", "#ffffff"
                ]
            }
            [NVIM] Process exited
        "##;

    let result = Palette::parse_from_nvim(raw_output);
    assert!(result.is_ok(), "Parser failed: {:?}", result.err());
    assert_eq!(result.unwrap().bg, "#121212");
}
