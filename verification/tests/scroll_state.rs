use minui::widgets::scroll::{ScrollOffset, ScrollOrientation, ScrollSize, ScrollState};

#[test]
fn clamps_offsets_on_set_sizes() {
    let mut s = ScrollState::new(ScrollSize::new(100, 50), ScrollSize::new(20, 10));
    s.set_offset(ScrollOffset::new(999, 999));
    assert_eq!(s.offset(), ScrollOffset::new(80, 40));

    // Make viewport larger than content -> max offsets become 0
    s.set_viewport_size(ScrollSize::new(200, 100));
    assert_eq!(s.max_offset(), ScrollOffset::new(0, 0));
    assert_eq!(s.offset(), ScrollOffset::new(0, 0));
}

#[test]
fn scroll_by_saturates_and_clamps() {
    let mut s = ScrollState::new(ScrollSize::new(10, 10), ScrollSize::new(5, 5));

    s.scroll_by(ScrollOrientation::Vertical, 3);
    assert_eq!(s.offset().y, 3);

    s.scroll_by(ScrollOrientation::Vertical, -10);
    assert_eq!(s.offset().y, 0);

    // Max vertical offset is 5
    s.scroll_by(ScrollOrientation::Vertical, 999);
    assert_eq!(s.offset().y, 5);
}
