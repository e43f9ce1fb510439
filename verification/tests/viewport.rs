use octos_tui::viewport::{scroll_region_up, InlineViewport, ScreenSize, ViewportRect};

fn rect(x: u16, y: u16, width: u16, height: u16) -> ViewportRect {
    ViewportRect { x, y, width, height }
}

fn viewport_at(area: ViewportRect, screen: ScreenSize) -> InlineViewport {
    let mut viewport = InlineViewport::new(area.y, screen);
    viewport.set_viewport_area(area);
    viewport
}

#[test]
fn terminal_shrink_reanchors_and_clears() {
    let mut viewport = viewport_at(rect(0, 46, 200, 4), ScreenSize { width: 200, height: 50 });
    let actions = viewport.resize_viewport_to_size(4, ScreenSize { width: 130, height: 38 });
    assert_eq!(viewport.viewport_area, rect(0, 34, 130, 4));
    assert_eq!(actions.clear_from, Some((0, 46)));
    assert_eq!(actions.scroll, Some((46, 12)));
    assert!(scroll_region_up(46, 12).contains("\u{1b}D"));
    assert_eq!(viewport.last_known_screen_size, ScreenSize { width: 130, height: 38 });
}

#[test]
fn width_resize_clears_from_existing_viewport_top() {
    let mut viewport = viewport_at(rect(0, 45, 200, 5), ScreenSize { width: 200, height: 50 });
    let actions = viewport.resize_viewport_to_size(5, ScreenSize { width: 130, height: 50 });
    assert_eq!(viewport.viewport_area, rect(0, 45, 130, 5));
    assert_eq!(actions.clear_from, Some((0, 45)));
    assert_eq!(actions.scroll, None);
}

#[test]
fn terminal_y_grow_keeps_viewport_in_place_no_clear() {
    let mut viewport = viewport_at(rect(0, 25, 200, 25), ScreenSize { width: 200, height: 50 });
    assert!(!viewport.viewport_resize_needed(25, ScreenSize { width: 200, height: 55 }));
    let actions = viewport.resize_viewport_to_size(25, ScreenSize { width: 200, height: 55 });
    assert_eq!(viewport.viewport_area, rect(0, 25, 200, 25), "viewport should not move when only terminal Y grew");
    assert_eq!(actions.clear_from, None);
    assert_eq!(actions.scroll, None);
}

#[test]
fn viewport_growth_scrolls_visible_history_extent_up() {
    let mut viewport = viewport_at(rect(0, 8, 10, 2), ScreenSize { width: 10, height: 10 });
    viewport.set_visible_history_extent(5, 6);
    assert!(viewport.viewport_resize_needed(4, ScreenSize { width: 10, height: 10 }));
    viewport.resize_viewport_to_size(4, ScreenSize { width: 10, height: 10 });
    assert_eq!(viewport.viewport_area, rect(0, 6, 10, 4));
    assert_eq!(viewport.visible_history_bottom(), 4);
    assert_eq!(viewport.visible_history_rows(), 4);
}

#[test]
fn first_draw_clears_from_the_new_top() {
    let mut viewport = InlineViewport::new(3, ScreenSize { width: 80, height: 24 });
    let actions = viewport.resize_viewport_to_size(5, ScreenSize { width: 80, height: 24 });
    assert_eq!(viewport.viewport_area, rect(0, 3, 80, 5));
    assert_eq!(actions.clear_from, Some((0, 3)));
}

#[test]
fn history_extent_stays_above_the_viewport() {
    let mut viewport = viewport_at(rect(0, 10, 80, 4), ScreenSize { width: 80, height: 24 });
    viewport.set_visible_history_extent(30, 20);
    assert_eq!(viewport.visible_history_bottom(), 10);
    assert_eq!(viewport.visible_history_rows(), 10);
    viewport.set_viewport_area(rect(0, 6, 80, 4));
    assert_eq!(viewport.visible_history_bottom(), 6);
    viewport.clear_after_row(2);
    assert_eq!(viewport.visible_history_rows(), 2);
    viewport.clear_visible_screen();
    assert_eq!(viewport.visible_history_bottom(), 0);
}

#[test]
fn scroll_sequence_bytes() {
    assert_eq!(scroll_region_up(46, 2), "\u{1b}[1;46r\u{1b}[46;1H\u{1b}D\u{1b}D\u{1b}[r");
    assert_eq!(scroll_region_up(0, 2), "");
    assert_eq!(scroll_region_up(5, 0), "");
}
