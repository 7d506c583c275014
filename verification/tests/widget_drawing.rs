use minui::widgets::tooltip::delay_reached;
use minui::widgets::{ScrollOffset, ScrollState};
use minui::widgets::{HoverTracker, Label, Scroller, StatusBar, Table, TableColumn, Text, Tooltip, Viewport, Widget};
use minui::{Canvas, Color, ColorPair, Container};
use minui::widgets::container::{Gap, Padding};

fn ops_of(canvas: &Canvas) -> Vec<(u16, u16, String)> {
    canvas.ops().iter().map(|op| (op.y, op.x, op.text.clone())).collect()
}

#[test]
fn status_bar_draws_fill_then_left_right_center() {
    let colors = ColorPair::new(Color::White, Color::Blue);
    let bar = StatusBar::new().with_sections("Left", "Mid", "Right").with_color(colors);
    let mut canvas = Canvas::new(20, 5);
    bar.draw(&mut canvas).unwrap();
    assert_eq!(
        ops_of(&canvas),
        vec![
            (4, 0, " ".repeat(20)),
            (4, 0, "Left".to_string()),
            (4, 15, "Right".to_string()),
            (4, 8, "Mid".to_string()),
        ]
    );
    assert!(canvas.ops().iter().all(|op| op.colors == Some(colors)));
}

#[test]
fn status_bar_cuts_long_sections_with_an_ellipsis() {
    let bar = StatusBar::new().with_left("abcdefghij");
    let mut canvas = Canvas::new(5, 1);
    bar.draw(&mut canvas).unwrap();
    assert_eq!(ops_of(&canvas), vec![(0, 0, "abcd…".to_string())]);
}

#[test]
fn table_draws_header_rule_rows_and_blank_rows() {
    let table = Table::new(0, 0, 9, 4)
        .with_border(false)
        .with_columns(vec![TableColumn::new("A").with_width(3), TableColumn::new("B").with_width(3)])
        .with_rows(vec![vec!["x".to_string(), "yy".to_string()]]);
    let mut canvas = Canvas::new(9, 4);
    table.draw(&mut canvas).unwrap();
    assert_eq!(
        ops_of(&canvas),
        vec![
            (0, 0, " ".repeat(9)),
            (0, 0, "A  ".to_string()),
            (0, 3, "│".to_string()),
            (0, 4, "B  ".to_string()),
            (1, 0, "───┼─────".to_string()),
            (2, 0, " ".repeat(9)),
            (2, 0, "x  ".to_string()),
            (2, 3, "│".to_string()),
            (2, 4, "yy ".to_string()),
            (3, 0, " ".repeat(9)),
        ]
    );
}

#[test]
fn table_with_border_frames_the_content() {
    let table = Table::new(0, 0, 5, 3).with_header(false);
    let mut canvas = Canvas::new(5, 3);
    table.draw(&mut canvas).unwrap();
    assert_eq!(
        ops_of(&canvas),
        vec![
            (0, 0, "┌".to_string()),
            (0, 1, "───".to_string()),
            (0, 4, "┐".to_string()),
            (1, 0, "│".to_string()),
            (1, 4, "│".to_string()),
            (2, 0, "└".to_string()),
            (2, 1, "───".to_string()),
            (2, 4, "┘".to_string()),
        ]
    );
    assert_eq!(table.content_area(), (1, 1, 3, 1));
}

#[test]
fn scroller_stays_between_top_and_max() {
    let mut s = Scroller::new();
    s.scroll_by(5, 10);
    assert_eq!(s.offset(), 5);
    s.scroll_by(20, 10);
    assert_eq!(s.offset(), 10);
    assert!(!s.can_scroll_down(10));
    s.scroll_by(-30, 10);
    assert_eq!(s.offset(), 0);
    assert!(!s.can_scroll_up());
}

#[test]
fn hover_tracking_starts_and_ends() {
    let mut h = HoverTracker::new();
    assert!(!h.is_hovering());
    assert_eq!(h.hover_duration(), None);
    h.start_hover();
    assert!(h.is_hovering());
    assert!(h.hover_duration().is_some());
    assert!(h.should_show_tooltip(0));
    h.end_hover();
    assert!(!h.is_hovering());
    assert!(!h.should_show_tooltip(0));
}

#[test]
fn container_frame_draws_border_and_title() {
    let c = Container::new().with_position_and_size(0, 0, 6, 3).with_border().with_title("Hi");
    let mut canvas = Canvas::new(10, 5);
    c.draw_frame(&mut canvas).unwrap();
    let expect: Vec<(u16, u16, &str)> = vec![
        (0, 0, "┌"),
        (0, 1, "─"),
        (0, 1, " "),
        (0, 2, "Hi"),
        (0, 4, " "),
        (0, 5, "┐"),
        (2, 0, "└"),
        (2, 1, "─"),
        (2, 2, "─"),
        (2, 3, "─"),
        (2, 4, "─"),
        (2, 5, "┘"),
        (1, 0, "│"),
        (1, 5, "│"),
    ];
    let expect: Vec<(u16, u16, String)> = expect.into_iter().map(|(y, x, s)| (y, x, s.to_string())).collect();
    assert_eq!(ops_of(&canvas), expect);
}

#[test]
fn container_background_fills_the_content_area() {
    let bg = ColorPair::new(Color::Black, Color::Blue);
    let c = Container::new()
        .with_position_and_size(1, 1, 4, 3)
        .with_border()
        .with_background_color(bg)
        .with_fill(true);
    let mut canvas = Canvas::new(10, 5);
    c.draw_frame(&mut canvas).unwrap();
    let ops = ops_of(&canvas);
    assert_eq!(&ops[..2], &[(2, 2, " ".to_string()), (2, 3, " ".to_string())]);
    assert!(canvas.ops()[..2].iter().all(|o| o.colors == Some(bg)));
    assert_eq!(ops.len(), 2 + 4 + 4 + 1 + 1);
}

#[test]
fn container_draws_its_children_in_turn() {
    let c = Container::new()
        .with_position_and_size(0, 0, 6, 3)
        .add_child(Label::new("ab"))
        .add_child(Label::new("cd"));
    let mut canvas = Canvas::new(10, 5);
    assert!(c.draw(&mut canvas).is_ok());
    let ops = ops_of(&canvas);
    let n = ops.len();
    assert!(n >= 2);
    assert_eq!(ops[n - 2].2, "ab");
    assert_eq!(ops[n - 1].2, "cd");
    assert!(ops[n - 1].0 > ops[n - 2].0);
}

#[test]
fn viewport_draws_content_through_its_view() {
    let v = Viewport::new(4, 2);
    let mut canvas = Canvas::new(10, 5);
    assert!(v.draw_content(&mut canvas, &Label::new("abcdefgh")).is_ok());
    assert_eq!(ops_of(&canvas), vec![(0, 0, "abcd".to_string())]);
}

#[test]
fn tooltip_defaults_to_half_a_second_in_yellow_on_transparent() {
    let t = Tooltip::new("hi");
    assert_eq!(t.text(), "hi");
    assert_eq!(t.delay(), 500);
    assert_eq!(t.colors, ColorPair::new(Color::Yellow, Color::Transparent));
    assert_eq!(t.with_delay(20).delay(), 20);
}

#[test]
fn a_delay_is_reached_once_the_hover_lasts_as_long() {
    assert!(delay_reached(500, 500));
    assert!(delay_reached(501, 500));
    assert!(!delay_reached(499, 500));
    assert!(delay_reached(0, 0));
}

#[test]
fn a_fresh_hover_shows_a_tooltip_without_delay_only() {
    let mut h = HoverTracker::new();
    assert!(!h.should_show_tooltip_once(0));
    h.start_hover();
    assert!(!h.should_show_tooltip(3_600_000));
    assert!(!h.has_delay_passed(3_600_000));
    assert!(h.should_show_tooltip_once(0));
    assert!(!h.is_hovering());
}

#[test]
fn resetting_a_driven_viewport_scrolls_its_state_home() {
    let mut v = Viewport::new(10, 5).with_content_size(20, 20).with_scroll_state(ScrollState::default());
    v.scroll_to(3, 4);
    assert_eq!(v.scroll_position(), (3, 4));
    v.reset_scroll();
    assert_eq!(v.scroll_position(), (0, 0));
    assert_eq!(v.scroll_state().unwrap().offset(), ScrollOffset::new(0, 0));
}

#[test]
fn fill_children_share_the_rows_left_over() {
    let c = Container::vertical()
        .with_position_and_size(0, 0, 10, 5)
        .add_child_fill(Text::new("A"))
        .add_child_fill(Text::new("B"));
    let mut canvas = Canvas::new(80, 24);
    assert!(c.draw(&mut canvas).is_ok());
    assert_eq!(ops_of(&canvas), vec![(0, 0, "A".to_string()), (3, 0, "B".to_string())]);
}

#[test]
fn a_content_sized_container_wraps_its_children() {
    let c = Container::vertical()
        .with_border()
        .with_padding(Padding::uniform(1))
        .with_gap(Gap::Pixels(2))
        .add_child(Text::new("abc"))
        .add_child(Text::new("abcdef"));
    assert_eq!(c.get_size(), (6 + 4, 1 + 2 + 1 + 4));
    let h = Container::horizontal().add_child(Text::new("ab")).add_child(Text::new("cde"));
    assert_eq!(h.get_size(), (5, 1));
    assert_eq!(Container::new().with_padding(Padding::uniform(2)).get_size(), (4, 4));
}

#[test]
fn percentage_gaps_take_a_share_of_the_space() {
    let c = Container::vertical().with_gap(Gap::Percent(100));
    assert_eq!(c.resolve_gap(1000), 1000);
    assert_eq!(Container::vertical().with_gap(Gap::Percent(10)).resolve_gap(5), 1);
    assert_eq!(Container::vertical().with_gap(Gap::Pixels(3)).resolve_gap(5), 3);
    assert_eq!(Container::vertical().resolve_gap(5), 0);
}

#[test]
fn children_come_back_in_the_order_they_were_added() {
    let c = Container::vertical()
        .add_child(Text::new("a"))
        .with_border()
        .add_child_fill(Text::new("bbb"))
        .with_padding(Padding::uniform(1))
        .add_child_fixed_main(Label::new("cc"), 2);
    assert_eq!(c.child_count(), 3);
    let sizes: Vec<(u16, u16)> = c.children().iter().map(|w| w.widget.get_size()).collect();
    assert_eq!(sizes, vec![(1, 1), (3, 1), (2, 1)]);
}

#[test]
fn a_title_adds_a_row_unless_the_top_border_is_on() {
    let c = Container::vertical().add_child(Text::new("ab"));
    assert_eq!(c.get_size(), (2, 1));
    let t = Container::vertical().add_child(Text::new("ab")).with_title("T");
    assert_eq!(t.get_size(), (2, 2));
    let b = Container::vertical().with_border().add_child(Text::new("ab"));
    let bt = Container::vertical().with_border().add_child(Text::new("ab")).with_title("T");
    assert_eq!(bt.get_size(), b.get_size());
}
