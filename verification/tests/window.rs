use minui::window::cursor_update;
use minui::{Canvas, CursorSpec, Error, Window, WindowView};

fn ops_of(canvas: &Canvas) -> Vec<(u16, u16, String)> {
    canvas.ops().iter().map(|op| (op.y, op.x, op.text.clone())).collect()
}

#[test]
fn cursor_is_moved_and_shown_after_rendering() {
    let want = CursorSpec { x: 3, y: 4, visible: true };
    let u = cursor_update(Some(want), None, true);
    assert_eq!(u.move_to, Some((3, 4)));
    assert_eq!(u.show, Some(true));
    assert_eq!(u.last, want);
}

#[test]
fn settled_cursor_is_left_alone() {
    let at = CursorSpec { x: 3, y: 4, visible: true };
    let u = cursor_update(None, Some(at), false);
    assert_eq!(u.move_to, None);
    assert_eq!(u.show, None);
    assert_eq!(u.last, at);
    let again = cursor_update(None, Some(at), true);
    assert_eq!(again.move_to, Some((3, 4)));
    assert_eq!(again.show, Some(true));
}

#[test]
fn unwanted_cursor_is_hidden_once() {
    let shown = CursorSpec { x: 1, y: 1, visible: true };
    let hidden = CursorSpec { x: 0, y: 0, visible: false };
    let u = cursor_update(Some(hidden), Some(shown), false);
    assert_eq!(u.move_to, None);
    assert_eq!(u.show, Some(false));
    let v = cursor_update(None, None, false);
    assert_eq!(v.show, None);
    assert_eq!(v.last, hidden);
}

#[test]
fn clearing_reports_out_of_bounds_rows_and_boxes() {
    let mut c = Canvas::new(4, 3);
    assert_eq!(c.clear_line(5), Err(Error::LineOutOfBoundsError { y: 5, height: 3 }));
    assert_eq!(
        c.clear_area(0, 0, 1, 4),
        Err(Error::BoxOutOfBoundsError { x1: 0, y1: 0, x2: 4, y2: 1, width: 4, height: 3 })
    );
    assert!(c.ops().is_empty());
}

#[test]
fn clearing_writes_rows_of_spaces() {
    let mut c = Canvas::new(4, 3);
    c.clear_line(1).unwrap();
    c.clear_area(2, 3, 1, 1).unwrap();
    c.clear_screen().unwrap();
    assert_eq!(
        ops_of(&c),
        vec![
            (1, 0, "    ".to_string()),
            (1, 1, "   ".to_string()),
            (2, 1, "   ".to_string()),
            (0, 0, "    ".to_string()),
            (1, 0, "    ".to_string()),
            (2, 0, "    ".to_string()),
        ]
    );
}

#[test]
fn clearing_inside_a_view_stays_in_the_view() {
    let mut c = Canvas::new(10, 10);
    c.push_view(WindowView { x_offset: 2, y_offset: 3, scroll_x: 0, scroll_y: 0, width: 2, height: 1 });
    assert_eq!(c.clear_line(4), Ok(()));
    c.clear_screen().unwrap();
    assert_eq!(ops_of(&c), vec![(3, 2, "  ".to_string())]);
}

#[test]
fn a_scrolled_view_shows_the_rows_scrolled_into_it() {
    let mut canvas = Canvas::new(20, 10);
    canvas.push_view(WindowView { x_offset: 2, y_offset: 1, scroll_x: 0, scroll_y: 5, width: 4, height: 3 });
    canvas.put(6, 0, "abcdef", None);
    canvas.put(4, 0, "gone", None);
    canvas.put(8, 0, "gone", None);
    canvas.pop_view();
    let ops = canvas.ops();
    assert_eq!(ops.len(), 1);
    assert_eq!((ops[0].y, ops[0].x, ops[0].text.as_str()), (2, 2, "abcd"));
}
