use std::borrow::Cow;

use octos_tui::sanitize::strip_terminal_controls;

#[test]
fn clean_text_borrows_without_allocation() {
    let text = "plain text\nwith lines\tand tabs";
    assert!(matches!(
        strip_terminal_controls(text),
        Cow::Borrowed(borrowed) if borrowed == text
    ));
}

#[test]
fn strips_csi_color_and_cursor_sequences() {
    let input = "\u{1b}[32mready\u{1b}[0m in \u{1b}[1m123 ms\u{1b}[0m\u{1b}[2J\u{1b}[H";
    assert_eq!(strip_terminal_controls(input), "ready in 123 ms");
}

#[test]
fn strips_osc_title_writes_with_bel_and_st_terminators() {
    let input = "\u{1b}]0;astro dev\u{07}serving\u{1b}]8;;http://x\u{1b}\\link";
    assert_eq!(strip_terminal_controls(input), "servinglink");
}

#[test]
fn normalises_carriage_returns_and_drops_progress_overwrites() {
    assert_eq!(
        strip_terminal_controls("line one\r\nline two"),
        "line one\nline two"
    );
    assert_eq!(strip_terminal_controls("50%\r100%"), "50%100%");
}

#[test]
fn strips_c0_controls_but_keeps_newline_and_tab() {
    let input = "a\u{08}b\u{07}c\nd\te\u{7f}f";
    assert_eq!(strip_terminal_controls(input), "abc\nd\tef");
}

#[test]
fn vite_style_boxed_banner_survives_readably() {
    let input = "\u{1b}[36m\u{1b}[1m  ┃ Local    http://localhost:4321/\u{1b}[22m\u{1b}[39m";
    assert_eq!(
        strip_terminal_controls(input),
        "  ┃ Local    http://localhost:4321/"
    );
}

#[test]
fn stripping_twice_changes_nothing_more() {
    let input = "\u{1b}[31mred\u{1b}[0m\r\n\u{1b}]0;t\u{07}done";
    let once = strip_terminal_controls(input).into_owned();
    let twice = strip_terminal_controls(&once).into_owned();
    assert_eq!(once, "red\ndone");
    assert_eq!(once, twice);
    assert!(matches!(strip_terminal_controls(&once), Cow::Borrowed(_)));
}

#[test]
fn stripped_text_is_never_longer() {
    let input = "\u{1b}[1mbold\u{1b}[0m and \u{08}plain";
    let out = strip_terminal_controls(input);
    assert!(out.chars().count() <= input.chars().count());
    assert_eq!(out, "bold and plain");
}
