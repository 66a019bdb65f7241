use issue_dash::color::{label_color, parse_hex_color, LabelColor};
use issue_dash::width::{truncate_str_by_width, width_of_char};

#[test]
fn fitting_title_is_kept_whole() {
    assert_eq!(truncate_str_by_width("abc", 3), "abc");
    assert_eq!(truncate_str_by_width("abc", 10), "abc");
    assert_eq!(truncate_str_by_width("", 0), "");
}

#[test]
fn long_title_ends_with_ellipsis() {
    assert_eq!(truncate_str_by_width("hello world", 5), "hell…");
    assert_eq!(truncate_str_by_width("ab", 1), "…");
}

#[test]
fn nothing_fits_in_zero_columns() {
    assert_eq!(truncate_str_by_width("abc", 0), "");
}

#[test]
fn wide_characters_take_two_columns() {
    assert_eq!(width_of_char('日'), 2);
    assert_eq!(width_of_char('a'), 1);
    assert_eq!(truncate_str_by_width("日本語", 4), "日…");
    assert_eq!(truncate_str_by_width("日本語", 6), "日本語");
    assert_eq!(truncate_str_by_width("日本語", 5), "日…");
}

#[test]
fn truncated_title_fits_its_columns() {
    let t = truncate_str_by_width("a fairly long issue title", 10);
    assert_eq!(t, "a fairly …");
    assert_eq!(t.chars().count(), 10);
}

#[test]
fn hex_codes_read_as_colours() {
    assert_eq!(parse_hex_color("#d73a4a"), LabelColor::Rgb(0xd7, 0x3a, 0x4a));
    assert_eq!(parse_hex_color("D73A4A"), LabelColor::Rgb(0xd7, 0x3a, 0x4a));
    assert_eq!(parse_hex_color("##ffffff"), LabelColor::Rgb(255, 255, 255));
    assert_eq!(parse_hex_color("000000"), LabelColor::Rgb(0, 0, 0));
}

#[test]
fn other_lengths_are_dark_gray() {
    assert_eq!(parse_hex_color("fff"), LabelColor::DarkGray);
    assert_eq!(parse_hex_color(""), LabelColor::DarkGray);
    assert_eq!(parse_hex_color("#1234567"), LabelColor::DarkGray);
}

#[test]
fn unreadable_components_are_128() {
    assert_eq!(parse_hex_color("#zz0000"), LabelColor::Rgb(128, 0, 0));
    assert_eq!(parse_hex_color("-1-1-1"), LabelColor::Rgb(128, 128, 128));
    // `from_str_radix` accepts a leading plus sign
    assert_eq!(parse_hex_color("+f+f+f"), LabelColor::Rgb(15, 15, 15));
    // a two-byte character makes a two-byte component that does not read
    assert_eq!(parse_hex_color("é1234"), LabelColor::Rgb(128, 0x12, 0x34));
}

#[test]
fn written_colour_reads_back() {
    for (r, g, b) in [(0u8, 0u8, 0u8), (1, 2, 3), (255, 128, 16), (171, 205, 239)] {
        let code = format!("#{:02x}{:02x}{:02x}", r, g, b);
        assert_eq!(parse_hex_color(&code), LabelColor::Rgb(r, g, b));
    }
}

#[test]
fn leading_hash_does_not_matter() {
    assert_eq!(parse_hex_color("#a0b0c0"), parse_hex_color("a0b0c0"));
}

#[test]
fn labels_without_colour_are_dark_gray() {
    assert_eq!(label_color(None), LabelColor::DarkGray);
    assert_eq!(label_color(Some("0e8a16")), LabelColor::Rgb(0x0e, 0x8a, 0x16));
}

#[test]
fn ellipsis_is_one_column() {
    assert_eq!(width_of_char('\u{2026}'), 1);
}
