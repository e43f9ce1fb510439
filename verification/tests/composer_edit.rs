use octos_tui::model::composer::ComposerPresentation;
use octos_tui::model::composer_edit::{
    char_len_utf8, next_char_boundary, next_word_boundary, prev_char_boundary, prev_word_boundary, ComposerState,
};

fn composer(text: &str, cursor: Option<usize>) -> ComposerState {
    ComposerState { composer: text.to_string(), composer_cursor: cursor, composer_drafts: Vec::new() }
}

#[test]
fn cursor_defaults_to_the_end_and_is_clamped() {
    assert_eq!(composer("héllo", None).composer_cursor_index(), 6);
    assert_eq!(composer("héllo", Some(99)).composer_cursor_index(), 6);
    assert_eq!(composer("héllo", Some(3)).composer_cursor_index(), 3);
    // Inside the two-byte `é` (bytes 1..3): falls back past its start.
    assert_eq!(composer("héllo", Some(2)).composer_cursor_index(), 0);
    assert_eq!(composer("aé", Some(2)).composer_cursor_index(), 0);
}

#[test]
fn typing_inserts_at_the_cursor() {
    let mut c = composer("hllo", Some(1));
    c.insert_composer_char('é');
    assert_eq!(c.composer, "héllo");
    assert_eq!(c.composer_cursor, Some(3));
    c.insert_composer_text(", wörld");
    assert_eq!(c.composer, "hé, wörldllo");
    assert_eq!(c.composer_cursor, Some(11));
    let before = c.clone();
    c.insert_composer_text("");
    assert_eq!(c, before);
}

#[test]
fn backspace_and_delete_work_on_whole_characters() {
    let mut c = composer("a→b", Some(4));
    c.delete_composer_prev_char();
    assert_eq!(c.composer, "ab");
    assert_eq!(c.composer_cursor, Some(1));
    c.delete_composer_next_char();
    assert_eq!(c.composer, "a");
    assert_eq!(c.composer_cursor, Some(1));
    c.delete_composer_next_char();
    assert_eq!(c.composer, "a");
    assert_eq!(c.composer_cursor, Some(1));
    let mut start = composer("xy", Some(0));
    start.delete_composer_prev_char();
    assert_eq!(start.composer, "xy");
    assert_eq!(start.composer_cursor, Some(0));
}

#[test]
fn insert_then_backspace_restores() {
    let mut c = composer("日本語", Some(3));
    c.insert_composer_char('x');
    assert_eq!(c.composer, "日x本語");
    c.delete_composer_prev_char();
    assert_eq!(c.composer, "日本語");
    assert_eq!(c.composer_cursor, Some(3));
}

#[test]
fn arrows_move_by_character() {
    let mut c = composer("añb", Some(3));
    c.move_composer_cursor_left();
    assert_eq!(c.composer_cursor, Some(1));
    c.move_composer_cursor_left();
    assert_eq!(c.composer_cursor, Some(0));
    c.move_composer_cursor_left();
    assert_eq!(c.composer_cursor, Some(0));
    c.move_composer_cursor_right();
    assert_eq!(c.composer_cursor, Some(1));
    c.move_composer_cursor_right();
    assert_eq!(c.composer_cursor, Some(3));
    c.move_composer_cursor_right();
    c.move_composer_cursor_right();
    assert_eq!(c.composer_cursor, Some(4));
}

#[test]
fn home_and_end_stay_on_the_line() {
    let mut c = composer("one\ntwo\nthree", Some(5));
    c.move_composer_cursor_line_start();
    assert_eq!(c.composer_cursor, Some(4));
    c.move_composer_cursor_line_end();
    assert_eq!(c.composer_cursor, Some(7));
    let mut last = composer("one\ntwo", None);
    last.move_composer_cursor_line_end();
    assert_eq!(last.composer_cursor, Some(7));
    let mut first = composer("one\ntwo", Some(2));
    first.move_composer_cursor_line_start();
    assert_eq!(first.composer_cursor, Some(0));
}

#[test]
fn word_motions_skip_whitespace_then_the_word() {
    let mut c = composer("foo  bar baz", Some(10));
    c.move_composer_cursor_prev_word();
    assert_eq!(c.composer_cursor, Some(9));
    c.move_composer_cursor_prev_word();
    assert_eq!(c.composer_cursor, Some(5));
    c.move_composer_cursor_prev_word();
    assert_eq!(c.composer_cursor, Some(0));
    c.move_composer_cursor_next_word();
    assert_eq!(c.composer_cursor, Some(3));
    c.move_composer_cursor_next_word();
    assert_eq!(c.composer_cursor, Some(8));
}

#[test]
fn word_deletion_and_kill_to_line_end() {
    let mut c = composer("git commit -m", None);
    c.delete_composer_prev_word();
    assert_eq!(c.composer, "git commit ");
    assert_eq!(c.composer_cursor, Some(11));
    let mut d = composer("git commit -m", Some(3));
    d.delete_composer_next_word();
    assert_eq!(d.composer, "git -m");
    assert_eq!(d.composer_cursor, Some(3));
    let mut k = composer("first line\nsecond", Some(5));
    k.kill_composer_to_line_end();
    assert_eq!(k.composer, "first\nsecond");
    assert_eq!(k.composer_cursor, Some(5));
}

#[test]
fn setting_text_moves_the_cursor_to_the_end() {
    let mut c = composer("abc", Some(1));
    c.set_composer_text("/onboard".to_string());
    assert_eq!(c.composer, "/onboard");
    assert_eq!(c.composer_cursor, None);
    assert_eq!(c.composer_cursor_index(), 8);
    assert_eq!(ComposerState::new().composer_presentation(), ComposerPresentation::Empty);
    assert_eq!(char_len_utf8('a'), 1);
    assert_eq!(char_len_utf8('é'), 2);
    assert_eq!(char_len_utf8('日'), 3);
    assert_eq!(char_len_utf8('😀'), 4);
}

#[test]
fn char_boundaries_step_over_whole_characters() {
    // "aé日" has boundaries 0, 1, 3, 6.
    let text = "aé日";
    assert_eq!(prev_char_boundary(text, 6), Some(3));
    assert_eq!(prev_char_boundary(text, 3), Some(1));
    assert_eq!(prev_char_boundary(text, 1), Some(0));
    assert_eq!(prev_char_boundary(text, 0), None);
    assert_eq!(prev_char_boundary(text, 99), Some(3));
    // From inside `é`: its start is the boundary below, so the result is
    // the character before it.
    assert_eq!(prev_char_boundary(text, 2), Some(0));
    assert_eq!(next_char_boundary(text, 0), Some(1));
    assert_eq!(next_char_boundary(text, 1), Some(3));
    assert_eq!(next_char_boundary(text, 3), Some(6));
    assert_eq!(next_char_boundary(text, 6), None);
    // From inside `é`: the boundary above is 3, then past `日`.
    assert_eq!(next_char_boundary(text, 2), Some(6));
    assert_eq!(next_char_boundary("", 0), None);
}

#[test]
fn word_boundaries_on_byte_offsets() {
    let text = "héllo  wörld";
    assert_eq!(prev_word_boundary(text, text.len()), 8);
    assert_eq!(prev_word_boundary(text, 8), 0);
    assert_eq!(next_word_boundary(text, 0), 6);
    assert_eq!(next_word_boundary(text, 6), text.len());
    assert_eq!(prev_word_boundary(text, 0), 0);
    // Inside the first or the last character the cursor stays put.
    assert_eq!(prev_word_boundary("éa", 1), 1);
    assert_eq!(next_word_boundary("aé", 2), 2);
}

#[test]
fn clamping_keeps_boundaries_and_backs_off_inside_characters() {
    let c = composer("aé日", None);
    assert_eq!(c.clamp_composer_cursor(3), 3);
    assert_eq!(c.clamp_composer_cursor(4), 1);
    assert_eq!(c.clamp_composer_cursor(100), 6);
    assert_eq!(c.clamp_composer_cursor(0), 0);
}
