use minui::textops::split_chunks;
use minui::widgets::input::TextInputState;
use minui::widgets::scroll::{ScrollOffset, ScrollOrientation, ScrollSize, ScrollState};
use minui::widgets::table::{align_to_width, clip_view_text};
use minui::widgets::{overlaps_with, Alignment, Label, Panel, Spinner, StatusBar, StatusBarPosition, Viewport, Widget};
use minui::{Canvas, Container, WindowView};

#[test]
fn typing_then_backspace_restores_text_and_caret() {
    let mut s = TextInputState::new();
    s.set_text("héllo");
    s.set_cursor(2);
    s.insert_char('x');
    assert_eq!(s.text(), "héxllo");
    assert_eq!(s.cursor(), 3);
    s.backspace();
    assert_eq!(s.text(), "héllo");
    assert_eq!(s.cursor(), 2);
}

#[test]
fn select_all_then_type_replaces_everything() {
    let mut s = TextInputState::new();
    s.set_text("some text");
    s.select_all();
    s.insert_str("xy");
    assert_eq!(s.text(), "xy");
    assert_eq!(s.cursor(), 2);
    assert!(!s.has_selection());
}

#[test]
fn cut_then_paste_restores_text() {
    let mut s = TextInputState::new();
    s.set_text("hello world");
    s.set_cursor(5);
    s.move_right(true);
    s.move_right(true);
    s.move_right(true);
    let cut = s.cut_selection().unwrap();
    assert_eq!(cut, " wo");
    assert_eq!(s.text(), "hellorld");
    s.insert_str(&cut);
    assert_eq!(s.text(), "hello world");
    assert_eq!(s.cursor(), 8);
}

#[test]
fn chunks_concatenate_back_to_the_input() {
    let chars: Vec<char> = "abcdefgh".chars().collect();
    let chunks = split_chunks(&chars, 3);
    assert_eq!(chunks.len(), 3);
    assert!(chunks.iter().all(|c| !c.is_empty() && c.len() <= 3));
    let joined: Vec<char> = chunks.concat();
    assert_eq!(joined, chars);
}

#[test]
fn clamping_twice_changes_nothing() {
    let mut s = ScrollState::new(ScrollSize::new(30, 40), ScrollSize::new(10, 10));
    s.set_offset(ScrollOffset::new(500, 500));
    let once = s.offset();
    s.clamp();
    assert_eq!(s.offset(), once);
    assert_eq!(once, ScrollOffset::new(20, 30));
}

#[test]
fn scrolling_to_end_reaches_max_and_start_reaches_zero() {
    let mut s = ScrollState::new(ScrollSize::new(30, 40), ScrollSize::new(10, 10));
    s.scroll_to_end(ScrollOrientation::Vertical);
    assert_eq!(s.offset().y, 30);
    assert!(s.at_end(ScrollOrientation::Vertical));
    s.scroll_to_start(ScrollOrientation::Vertical);
    assert_eq!(s.offset().y, 0);
    assert!(s.at_start(ScrollOrientation::Vertical));
}

#[test]
fn scroll_by_then_back_returns_when_in_range() {
    let mut s = ScrollState::new(ScrollSize::new(10, 40), ScrollSize::new(10, 10));
    s.set_offset(ScrollOffset::new(0, 12));
    s.scroll_by(ScrollOrientation::Vertical, 7);
    assert_eq!(s.offset().y, 19);
    s.scroll_by(ScrollOrientation::Vertical, -7);
    assert_eq!(s.offset().y, 12);
}

#[test]
fn panel_scroll_stays_in_range() {
    let body = (0..30).map(|i| format!("line {}", i)).collect::<Vec<_>>().join("\n");
    let mut p = Panel::new(20, 8).with_header("Title").with_body(&body).with_scrollable(true);
    let max = p.max_scroll_offset();
    assert!(max > 0);
    p.scroll_by(1000);
    assert_eq!(p.scroll_offset(), max);
    p.scroll_by(-1000);
    assert_eq!(p.scroll_offset(), 0);
    p.scroll_to(u16::MAX);
    assert_eq!(p.scroll_offset(), max);
}

#[test]
fn aligned_text_has_the_field_width_and_keeps_the_text() {
    let mut out = String::new();
    align_to_width(&mut out, "abc", 8, Alignment::Center);
    assert_eq!(out.chars().count(), 8);
    assert!(out.contains("abc"));
    align_to_width(&mut out, "abcdefghij", 8, Alignment::Right);
    assert_eq!(out, "abcdefghij");
}

#[test]
fn clipped_cell_text_fits_the_visible_columns() {
    let r = clip_view_text("hello world", 3, 5, 4);
    assert_eq!(r, Some((0, "llo ".to_string())));
    let r = clip_view_text("abc", 0, 5, 4);
    assert_eq!(r, None);
    let r = clip_view_text("abcdef", 6, 2, 10);
    assert_eq!(r, Some((4, "abcdef".to_string())));
}

#[test]
fn viewport_scrolling_stays_in_range() {
    let mut v = Viewport::new(10, 5).with_content_size(20, 12);
    v.scroll_vertical(100);
    assert_eq!(v.scroll_position(), (0, 7));
    v.scroll_vertical(-100);
    assert_eq!(v.scroll_position(), (0, 0));
    v.scroll_horizontal(3);
    assert_eq!(v.scroll_position(), (3, 0));
    v.scroll_horizontal(100);
    assert_eq!(v.scroll_position(), (10, 0));
}

#[test]
fn spinner_cycles_through_its_frames() {
    let mut s = Spinner::with_frames(&["a", "b", "c"]);
    assert_eq!(s.current_frame(), "a");
    s.advance();
    assert_eq!(s.current_frame(), "b");
    s.advance();
    s.advance();
    assert_eq!(s.current_frame(), "a");
    let mut d = Spinner::new();
    let first = d.current_frame().to_string();
    for _ in 0..d.frame_count() {
        d.advance();
    }
    assert_eq!(d.current_frame(), first);
}

#[test]
fn status_bar_rows_fit_in_the_window() {
    let bottom = StatusBar::new().with_height(2);
    assert_eq!(bottom.calculate_y(24), 22);
    let top = StatusBar::new().with_position(StatusBarPosition::Top);
    assert_eq!(top.calculate_y(24), 0);
    let pct = StatusBar::new().with_height(3).with_position(StatusBarPosition::Percentage(100));
    let y = pct.calculate_y(50);
    assert!(y + 3 <= 50);
    assert_eq!(y, 47);
    let tall = StatusBar::new().with_height(30).with_position(StatusBarPosition::Bottom);
    assert_eq!(tall.calculate_y(20), 0);
}

#[test]
fn overlap_is_symmetric() {
    let a = Viewport::new(10, 5);
    let b = Label::new("hello");
    assert_eq!(overlaps_with(&a, &b), overlaps_with(&b, &a));
    assert!(overlaps_with(&a, &a));
}

#[test]
fn container_children_follow_each_other_inside_the_content_area() {
    let c = Container::vertical()
        .with_position_and_size(0, 0, 20, 10)
        .without_border()
        .add_child(Label::new("one"))
        .add_child(Label::new("two"))
        .add_child(Label::new("three"));
    let cells = c.child_layout();
    assert_eq!(cells.len(), 3);
    let (ax, ay, aw, ah) = c.content_area();
    for w in &cells {
        assert!(w.x_offset >= ax && w.y_offset >= ay);
        assert!(w.x_offset + w.width <= ax + aw && w.y_offset + w.height <= ay + ah);
    }
    for i in 1..cells.len() {
        assert!(cells[i].y_offset >= cells[i - 1].y_offset + cells[i - 1].height);
    }
}

#[test]
fn writes_outside_a_view_are_dropped() {
    let mut canvas = Canvas::new(20, 5);
    canvas.push_view(WindowView { x_offset: 2, y_offset: 1, scroll_x: 0, scroll_y: 0, width: 4, height: 2 });
    Label::new("abcdefgh").draw(&mut canvas).unwrap();
    canvas.put(5, 0, "zz", None);
    canvas.pop_view();
    let ops = canvas.ops();
    assert_eq!(ops.len(), 1);
    assert_eq!((ops[0].y, ops[0].x, ops[0].text.as_str()), (1, 2, "abcd"));
}

#[test]
fn every_body_row_has_both_side_borders() {
    let p = Panel::new(6, 5).with_body("ab");
    let mut canvas = Canvas::new(10, 10);
    p.draw(&mut canvas).unwrap();
    for y in 1..4u16 {
        assert!(canvas.ops().iter().any(|o| o.y == y && o.x == 0 && o.text == "│"));
        assert!(canvas.ops().iter().any(|o| o.y == y && o.x == 5 && o.text == "│"));
    }
}
