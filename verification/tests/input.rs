use scroll_engine::event::{
    EventResult, KeyCode, KeyEvent, Modifiers, MouseButton, MouseEvent, MouseEventKind,
};
use scroll_engine::geometry::Rect;
use scroll_engine::scroll::Scrollable;

fn key(code: KeyCode, modifiers: Modifiers) -> KeyEvent {
    KeyEvent { code, modifiers }
}

fn plain(c: char) -> KeyEvent {
    key(KeyCode::Char(c), Modifiers::Unmodified)
}

#[test]
fn j_and_k_move_by_one() {
    let mut s = Scrollable::new(100);
    assert_eq!(s.handle_key_event(plain('j')), EventResult::Redraw);
    assert_eq!(s.handle_key_event(plain('j')), EventResult::Redraw);
    assert_eq!(s.index(), 2);
    assert_eq!(s.handle_key_event(plain('k')), EventResult::Redraw);
    assert_eq!(s.index(), 1);
}

#[test]
fn arrow_keys_move_only_unmodified() {
    let mut s = Scrollable::new(100);
    assert_eq!(
        s.handle_key_event(key(KeyCode::Down, Modifiers::Unmodified)),
        EventResult::Redraw
    );
    assert_eq!(s.index(), 1);
    // a shifted arrow falls through to "anything else"
    assert_eq!(
        s.handle_key_event(key(KeyCode::Down, Modifiers::Shift)),
        EventResult::NoRedraw
    );
    assert_eq!(s.index(), 1);
    assert_eq!(
        s.handle_key_event(key(KeyCode::Up, Modifiers::Unmodified)),
        EventResult::Redraw
    );
    assert_eq!(s.index(), 0);
    assert_eq!(
        s.handle_key_event(key(KeyCode::Up, Modifiers::Shift)),
        EventResult::NoRedraw
    );
}

#[test]
fn shifted_letters_are_still_honored() {
    let mut s = Scrollable::new(100);
    assert_eq!(
        s.handle_key_event(key(KeyCode::Char('j'), Modifiers::Shift)),
        EventResult::Redraw
    );
    assert_eq!(s.index(), 1);
}

#[test]
fn other_modifier_combinations_are_ignored() {
    let mut s = Scrollable::new(100);
    assert_eq!(
        s.handle_key_event(key(KeyCode::Char('j'), Modifiers::Other)),
        EventResult::NoRedraw
    );
    assert_eq!(
        s.handle_key_event(key(KeyCode::Down, Modifiers::Other)),
        EventResult::NoRedraw
    );
    assert_eq!(s.index(), 0);
}

#[test]
fn unknown_keys_are_ignored() {
    let mut s = Scrollable::new(100);
    assert_eq!(s.handle_key_event(plain('q')), EventResult::NoRedraw);
    assert_eq!(
        s.handle_key_event(key(KeyCode::Other, Modifiers::Unmodified)),
        EventResult::NoRedraw
    );
    assert_eq!(s.index(), 0);
}

#[test]
fn capital_g_jumps_to_the_bottom() {
    let mut s = Scrollable::new(100);
    assert_eq!(
        s.handle_key_event(key(KeyCode::Char('G'), Modifiers::Shift)),
        EventResult::Redraw
    );
    assert_eq!(s.index(), 99);
}

#[test]
fn double_g_jumps_to_the_top() {
    let mut s = Scrollable::new(100);
    s.move_down(42);
    // the first tap only arms the chord
    assert_eq!(s.handle_key_event(plain('g')), EventResult::NoRedraw);
    assert_eq!(s.index(), 42);
    assert_eq!(s.handle_key_event(plain('g')), EventResult::Redraw);
    assert_eq!(s.index(), 0);
}

#[test]
fn double_g_at_the_top_completes_without_redraw() {
    let mut s = Scrollable::new(100);
    assert_eq!(s.handle_key_event(plain('g')), EventResult::NoRedraw);
    assert_eq!(s.handle_key_event(plain('g')), EventResult::NoRedraw);
    assert_eq!(s.index(), 0);
}

#[test]
fn keys_that_never_reach_the_matcher_leave_the_chord_armed() {
    let mut s = Scrollable::new(100);
    s.move_down(42);
    assert_eq!(s.handle_key_event(plain('g')), EventResult::NoRedraw);
    // 'x' is ignored by the router, so the armed chord persists
    assert_eq!(s.handle_key_event(plain('x')), EventResult::NoRedraw);
    assert_eq!(s.handle_key_event(plain('g')), EventResult::Redraw);
    assert_eq!(s.index(), 0);
}

#[test]
fn empty_list_ignores_navigation_keys() {
    let mut s = Scrollable::new(0);
    assert_eq!(s.handle_key_event(plain('j')), EventResult::NoRedraw);
    assert_eq!(s.handle_key_event(plain('k')), EventResult::NoRedraw);
    assert_eq!(
        s.handle_key_event(key(KeyCode::Char('G'), Modifiers::Shift)),
        EventResult::NoRedraw
    );
    assert_eq!(s.index(), 0);
}

#[test]
fn wheel_scrolls_by_one_inside_the_bounds() {
    let mut s = Scrollable::new(100);
    s.set_bounds(Rect { x: 0, y: 0, width: 20, height: 20 });
    let down = MouseEvent { kind: MouseEventKind::ScrollDown, column: 1, row: 1 };
    let up = MouseEvent { kind: MouseEventKind::ScrollUp, column: 1, row: 1 };
    assert_eq!(s.handle_mouse_event(down), EventResult::Redraw);
    assert_eq!(s.index(), 1);
    assert_eq!(s.handle_mouse_event(up), EventResult::Redraw);
    assert_eq!(s.index(), 0);
    assert_eq!(s.handle_mouse_event(up), EventResult::NoRedraw);
}

#[test]
fn wheel_outside_the_bounds_is_ignored() {
    let mut s = Scrollable::new(100);
    // a fresh panel has zero-size bounds: every position is outside
    let down = MouseEvent { kind: MouseEventKind::ScrollDown, column: 0, row: 0 };
    assert_eq!(s.handle_mouse_event(down), EventResult::NoRedraw);
    assert_eq!(s.index(), 0);
    s.set_bounds(Rect { x: 4, y: 3, width: 20, height: 10 });
    let beside = MouseEvent { kind: MouseEventKind::ScrollDown, column: 30, row: 5 };
    assert_eq!(s.handle_mouse_event(beside), EventResult::NoRedraw);
    let below = MouseEvent { kind: MouseEventKind::ScrollUp, column: 5, row: 20 };
    assert_eq!(s.handle_mouse_event(below), EventResult::NoRedraw);
    assert_eq!(s.index(), 0);
}

#[test]
fn click_selects_the_pressed_row() {
    let mut s = Scrollable::new(100);
    s.set_bounds(Rect { x: 0, y: 0, width: 20, height: 20 });
    let press = MouseEvent {
        kind: MouseEventKind::Press(MouseButton::Left),
        column: 3,
        row: 5,
    };
    assert_eq!(s.handle_mouse_event(press), EventResult::Redraw);
    assert_eq!(s.index(), 5);
    // clicking the selected row again changes nothing
    assert_eq!(s.handle_mouse_event(press), EventResult::NoRedraw);
    assert_eq!(s.index(), 5);
}

#[test]
fn click_above_the_selection_moves_up() {
    let mut s = Scrollable::new(100);
    s.set_bounds(Rect { x: 0, y: 0, width: 20, height: 20 });
    s.move_down(5);
    let press = MouseEvent {
        kind: MouseEventKind::Press(MouseButton::Left),
        column: 0,
        row: 2,
    };
    assert_eq!(s.handle_mouse_event(press), EventResult::Redraw);
    assert_eq!(s.index(), 2);
}

#[test]
fn click_rows_are_relative_to_the_panel_top() {
    let mut s = Scrollable::new(100);
    s.set_bounds(Rect { x: 4, y: 3, width: 20, height: 10 });
    let press = MouseEvent {
        kind: MouseEventKind::Press(MouseButton::Left),
        column: 5,
        row: 5,
    };
    assert_eq!(s.handle_mouse_event(press), EventResult::Redraw);
    assert_eq!(s.index(), 2);
}

#[test]
fn click_outside_the_bounds_is_ignored() {
    let mut s = Scrollable::new(100);
    s.set_bounds(Rect { x: 4, y: 3, width: 20, height: 10 });
    // below the rectangle (half-open: row 13 is already outside)
    let below = MouseEvent {
        kind: MouseEventKind::Press(MouseButton::Left),
        column: 5,
        row: 13,
    };
    assert_eq!(s.handle_mouse_event(below), EventResult::NoRedraw);
    // left of the rectangle
    let left = MouseEvent {
        kind: MouseEventKind::Press(MouseButton::Left),
        column: 3,
        row: 5,
    };
    assert_eq!(s.handle_mouse_event(left), EventResult::NoRedraw);
    assert_eq!(s.index(), 0);
}

#[test]
fn other_buttons_and_kinds_are_ignored() {
    let mut s = Scrollable::new(100);
    s.set_bounds(Rect { x: 0, y: 0, width: 20, height: 20 });
    let right = MouseEvent {
        kind: MouseEventKind::Press(MouseButton::Right),
        column: 1,
        row: 4,
    };
    assert_eq!(s.handle_mouse_event(right), EventResult::NoRedraw);
    let other = MouseEvent { kind: MouseEventKind::Other, column: 1, row: 4 };
    assert_eq!(s.handle_mouse_event(other), EventResult::NoRedraw);
    assert_eq!(s.index(), 0);
}

#[test]
fn click_tracks_the_window_not_the_list() {
    // scrolled down: the pressed row is visual, so the selection moves by
    // the difference of visual offsets, not to the absolute row
    let mut s = Scrollable::new(100);
    s.set_bounds(Rect { x: 0, y: 0, width: 20, height: 12 });
    s.skip_to_last();
    assert_eq!(s.get_list_start(10), 90);
    // selection sits at visual row 9; clicking visual row 4 moves up by 5
    let press = MouseEvent {
        kind: MouseEventKind::Press(MouseButton::Left),
        column: 1,
        row: 4,
    };
    assert_eq!(s.handle_mouse_event(press), EventResult::Redraw);
    assert_eq!(s.index(), 94);
}
