use octos_tui::terminal_probe::{
    color_level_from_env, is_light, nearest_xterm_256, parse_osc_color_response, parse_rgb_triplet,
    xterm_color, StdoutColorLevel,
};

#[test]
fn is_light_dark() {
    assert!(is_light((255, 255, 255)));
    assert!(is_light((200, 200, 200)));
    assert!(!is_light((0, 0, 0)));
    assert!(!is_light((30, 30, 30)));
    assert!(!is_light((128, 128, 128)));
}

#[test]
fn xterm_color_cube() {
    assert_eq!(xterm_color(16), (0, 0, 0));
    assert_eq!(xterm_color(21), (0, 0, 255));
    assert_eq!(xterm_color(231), (255, 255, 255));
    assert_eq!(xterm_color(232), (8, 8, 8));
    assert_eq!(xterm_color(255), (238, 238, 238));
}

#[test]
fn nearest_xterm_finds_close() {
    let red = nearest_xterm_256((255, 0, 0));
    assert_eq!(xterm_color(red), (255, 0, 0));
}

#[test]
fn parse_rgb() {
    assert_eq!(parse_rgb_triplet("rgb:ff/00/80"), Some((255, 0, 128)));
    assert_eq!(parse_rgb_triplet("rgb:0a/1b/2c"), Some((10, 27, 44)));
}

#[test]
fn parse_rgb_accepts_sixteen_bit_channels_and_rejects_garbage() {
    assert_eq!(parse_rgb_triplet("rgb:ffff/0000/8080"), Some((255, 0, 128)));
    assert_eq!(parse_rgb_triplet("rgb:ff/00"), None);
    assert_eq!(parse_rgb_triplet("hsl:1/2/3"), None);
}

#[test]
fn light_threshold_is_a_weighted_luma() {
    // 0.299 * 128 + 0.587 * 128 + 0.114 * 129 is just above the middle.
    assert!(!is_light((128, 128, 128)));
    assert!(is_light((129, 129, 129)));
    assert!(is_light((0, 255, 0)));
    assert!(!is_light((255, 0, 0)));
}

#[test]
fn nearest_xterm_prefers_exact_grey() {
    let idx = nearest_xterm_256((8, 8, 8));
    assert_eq!(xterm_color(idx), (8, 8, 8));
}

#[test]
fn osc_responses_give_foreground_and_background() {
    let reply = b"\x1b]10;rgb:ffff/ffff/ffff\x1b\\\x1b]11;rgb:0000/0000/0000\x1b\\";
    let colors = parse_osc_color_response(reply).expect("both colours");
    assert_eq!(colors.fg, (255, 255, 255));
    assert_eq!(colors.bg, (0, 0, 0));
    assert!(parse_osc_color_response(b"\x1b]10;rgb:ff/ff/ff\x07").is_none());
    // A BEL-terminated answer does not end a part: the second colour is lost.
    assert!(parse_osc_color_response(b"\x1b]10;rgb:ff/ff/ff\x07\x1b]11;rgb:00/00/00\x07").is_none());
}

#[test]
fn color_level_follows_colorterm_then_term() {
    assert_eq!(color_level_from_env(Some("truecolor"), None), StdoutColorLevel::TrueColor);
    assert_eq!(color_level_from_env(Some("24bit"), None), StdoutColorLevel::TrueColor);
    assert_eq!(color_level_from_env(None, Some("xterm-256color")), StdoutColorLevel::Ansi256);
}

#[test]
fn color_level_names_are_matched_without_case() {
    assert_eq!(color_level_from_env(Some("TrueColor"), None), StdoutColorLevel::TrueColor);
    assert_eq!(color_level_from_env(None, Some("XTERM-256COLOR")), StdoutColorLevel::Ansi256);
    assert_eq!(color_level_from_env(Some("yes"), Some("vt100")), StdoutColorLevel::Ansi16);
    assert_eq!(color_level_from_env(None, None), StdoutColorLevel::Unknown);
}
