use octos_tui::cell_diff::{
    cells_to_write, modifier_transition, needs_cursor_move, plan_cursor, CellChange, CursorPlan, ModifierSet, SgrChange,
};

fn narrow(changed: bool) -> CellChange {
    CellChange { skip: false, changed, width: 1, old_width: 1 }
}

fn plain() -> ModifierSet {
    ModifierSet {
        bold: false,
        dim: false,
        italic: false,
        underlined: false,
        slow_blink: false,
        rapid_blink: false,
        reversed: false,
        crossed_out: false,
    }
}

#[test]
fn unchanged_frame_emits_zero_bytes_so_selection_survives() {
    // A redraw with the same cells and the same cursor writes no cell and
    // touches the cursor in no way.
    let cells = vec![narrow(false); 20];
    assert!(cells_to_write(&cells).is_empty());
    let plan = plan_cursor(Some((2, 4)), false, false, (2, 4));
    assert_eq!(plan, CursorPlan { hide: false, show: false, move_to: None });
    assert!(!plan.changes());
}

#[test]
fn cursor_is_replaced_after_writing_the_target_cell() {
    // Writing cells moves the physical cursor, so it is placed again even
    // when the requested position equals the last one.
    let plan = plan_cursor(Some((2, 4)), false, true, (2, 4));
    assert_eq!(plan.move_to, Some((2, 4)));
    assert!(plan.changes());
}

#[test]
fn changed_cell_repaints_only_the_delta() {
    let mut cells = vec![narrow(false); 6];
    cells[3] = narrow(true);
    assert_eq!(cells_to_write(&cells), vec![3]);
}

#[test]
fn wide_symbol_invalidates_and_covers_its_neighbour() {
    // A changed two-column symbol at 1: cell 2 is covered by it and not
    // written, even though it changed.
    let cells = vec![
        narrow(false),
        CellChange { skip: false, changed: true, width: 2, old_width: 1 },
        narrow(true),
        narrow(false),
    ];
    assert_eq!(cells_to_write(&cells), vec![1]);
    // An old wide symbol that shrank forces its right neighbour out.
    let cells = vec![
        CellChange { skip: false, changed: true, width: 1, old_width: 2 },
        narrow(false),
        narrow(false),
    ];
    assert_eq!(cells_to_write(&cells), vec![0, 1]);
}

#[test]
fn skipped_cells_are_never_written() {
    let cells = vec![CellChange { skip: true, changed: true, width: 1, old_width: 1 }, narrow(true)];
    assert_eq!(cells_to_write(&cells), vec![1]);
}

#[test]
fn dropping_bold_keeps_dim() {
    let from = ModifierSet { bold: true, dim: true, ..plain() };
    let to = ModifierSet { dim: true, ..plain() };
    assert_eq!(modifier_transition(from, to), vec![SgrChange::NormalIntensity, SgrChange::Dim]);
}

#[test]
fn transition_removes_then_adds() {
    let from = ModifierSet { reversed: true, italic: true, ..plain() };
    let to = ModifierSet { bold: true, underlined: true, ..plain() };
    assert_eq!(
        modifier_transition(from, to),
        vec![SgrChange::NoReverse, SgrChange::NoItalic, SgrChange::Bold, SgrChange::Underlined]
    );
    let blink = ModifierSet { slow_blink: true, rapid_blink: true, ..plain() };
    assert_eq!(modifier_transition(blink, plain()), vec![SgrChange::NoBlink]);
    assert_eq!(modifier_transition(plain(), blink), vec![SgrChange::SlowBlink, SgrChange::RapidBlink]);
}

#[test]
fn same_style_changes_nothing() {
    let m = ModifierSet { bold: true, crossed_out: true, ..plain() };
    assert!(modifier_transition(m, m).is_empty());
}

#[test]
fn consecutive_cells_need_no_cursor_move() {
    assert!(needs_cursor_move(None, 0, 0));
    assert!(!needs_cursor_move(Some((3, 1)), 4, 1));
    assert!(needs_cursor_move(Some((3, 1)), 5, 1));
    assert!(needs_cursor_move(Some((3, 1)), 4, 2));
    assert!(needs_cursor_move(Some((u16::MAX, 1)), 0, 1));
}

#[test]
fn frame_without_cursor_hides_it_once() {
    assert_eq!(plan_cursor(None, false, true, (0, 0)), CursorPlan { hide: true, show: false, move_to: None });
    assert_eq!(plan_cursor(None, true, true, (0, 0)), CursorPlan { hide: false, show: false, move_to: None });
    assert_eq!(
        plan_cursor(Some((1, 2)), true, false, (1, 2)),
        CursorPlan { hide: false, show: true, move_to: None }
    );
    assert_eq!(
        plan_cursor(Some((1, 3)), false, false, (1, 2)),
        CursorPlan { hide: false, show: false, move_to: Some((1, 3)) }
    );
}
