use minui::widgets::controls::StickyEdge;
use minui::widgets::scroll::{ScrollOffset, ScrollSize, ScrollState};
use minui::{Canvas, Label, ScrollBox, Widget};

fn tall_box() -> ScrollBox {
    let mut b = ScrollBox::vertical().with_position_and_size(0, 0, 10, 5).without_border();
    for i in 0..12 {
        b = b.add_child(Label::new(&format!("row {}", i)));
    }
    b.sync_sizes();
    b
}

#[test]
fn content_size_comes_from_the_children() {
    let b = tall_box();
    assert_eq!(b.state().content_size(), ScrollSize::new(10, 12));
    assert_eq!(b.state().viewport_size(), ScrollSize::new(10, 5));
    assert_eq!(b.scrollable_height(), 7);
    assert_eq!(b.scrollable_width(), 0);
}

#[test]
fn scrolling_is_clamped_and_per_axis() {
    let mut b = tall_box();
    b.scroll_by(3, 4);
    assert_eq!((b.scroll_x(), b.scroll_y()), (0, 4));
    b.scroll_by(0, 100);
    assert_eq!(b.scroll_y(), 7);
    b.scroll_to_top();
    assert_eq!(b.scroll_y(), 0);
    b.scroll_to_bottom();
    assert_eq!(b.scroll_y(), 7);
    b.scroll_to(5, 2);
    assert_eq!((b.scroll_x(), b.scroll_y()), (0, 2));
}

#[test]
fn leaving_the_sticky_edge_is_a_manual_scroll() {
    let mut b = tall_box().with_sticky_scroll(true).with_sticky_start(StickyEdge::Bottom);
    b.scroll_to_bottom();
    assert!(!b.has_manual_scroll);
    b.scroll_by(0, -2);
    assert!(b.has_manual_scroll);
}

#[test]
fn drag_near_an_edge_starts_auto_scrolling() {
    let mut b = tall_box();
    b.viewport_width = 10;
    b.viewport_height = 10;
    b.set_scroll_y(3);
    assert_eq!(b.get_auto_scroll_direction_y(0), -1);
    assert_eq!(b.get_auto_scroll_direction_y(9), 1);
    assert_eq!(b.get_auto_scroll_direction_y(4), 0);
    assert_eq!(b.get_auto_scroll_direction_y(11), 0);
    assert_eq!(b.get_auto_scroll_speed(5, 0), 72);
    assert_eq!(b.get_auto_scroll_speed(5, 2), 36);
    assert_eq!(b.get_auto_scroll_speed(5, 5), 6);
    b.handle_drag(5, 9);
    assert!(b.auto_scrolling);
    b.handle_drag(5, 4);
    assert!(!b.auto_scrolling);
}

#[test]
fn drawing_shows_the_scrolled_rows() {
    let mut b = tall_box();
    b.scroll_by(0, 3);
    let mut canvas = Canvas::new(10, 5);
    b.draw(&mut canvas).unwrap();
    let first: Vec<(u16, String)> = canvas.ops().iter().map(|o| (o.y, o.text.clone())).take(2).collect();
    assert_eq!(first, vec![(0, "row 3".to_string()), (1, "row 4".to_string())]);
    let s = ScrollState::new(ScrollSize::new(10, 40), ScrollSize::new(10, 5));
    let c = b.with_state(s);
    assert_eq!(c.state().offset(), ScrollOffset::new(0, 0));
}
