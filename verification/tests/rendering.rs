use minui::input::Event;
use minui::widgets::helpers::decimal_string;
use minui::widgets::input::{cell_column_for_char_index, char_index_from_cell_column};
use minui::widgets::{Alignment, Border, Label, TextBlock, TextWrapMode, Tooltip, Widget, WidgetArea};
use minui::{Canvas, Color, ColorPair, CursorSpec, Error, TextInput, TextInputState};

fn ops_of(canvas: &Canvas) -> Vec<(u16, u16, String)> {
    canvas.ops().iter().map(|op| (op.y, op.x, op.text.clone())).collect()
}

#[test]
fn label_alignment_places_the_text() {
    let mut canvas = Canvas::new(10, 2);
    Label::new("abc").with_alignment(Alignment::Center).draw(&mut canvas).unwrap();
    Label::new("abc").with_alignment(Alignment::Right).draw(&mut canvas).unwrap();
    Label::new("a longer text").draw(&mut canvas).unwrap();
    assert_eq!(
        ops_of(&canvas),
        vec![(0, 3, "abc".to_string()), (0, 7, "abc".to_string()), (0, 0, "a longer t".to_string())]
    );
}

#[test]
fn border_draws_corners_then_edges() {
    let mut canvas = Canvas::new(10, 10);
    Border::new(1, 1, 3, 3).draw(&mut canvas).unwrap();
    let ops = ops_of(&canvas);
    assert_eq!(
        ops,
        vec![
            (1, 1, "┌".to_string()),
            (1, 3, "┐".to_string()),
            (3, 1, "└".to_string()),
            (3, 3, "┘".to_string()),
            (1, 2, "─".to_string()),
            (3, 2, "─".to_string()),
            (2, 1, "│".to_string()),
            (2, 3, "│".to_string()),
        ]
    );
}

#[test]
fn word_wrap_breaks_at_spaces() {
    let block = TextBlock::new(5, 3, "hello world foo").with_word_wrap();
    assert_eq!(block.get_wrapped_lines(), vec!["hello", "world", "foo"]);
    let chars = TextBlock::new(4, 3, "abcdefghij").with_wrap_mode(TextWrapMode::Wrap);
    assert_eq!(chars.get_wrapped_lines(), vec!["abcd", "efgh", "ij"]);
    let plain = TextBlock::new(4, 3, "one\ntwo").with_wrap_mode(TextWrapMode::NoWrap);
    assert_eq!(plain.get_wrapped_lines(), vec!["one", "two"]);
}

#[test]
fn decimal_strings() {
    assert_eq!(decimal_string(0), "0");
    assert_eq!(decimal_string(7), "7");
    assert_eq!(decimal_string(65535), "65535");
}

#[test]
fn tooltip_stays_inside_the_window() {
    let t = Tooltip::new("hint!");
    assert_eq!(t.position_near_mouse(3, 4, 80, 24), (3, 5));
    assert_eq!(t.position_near_mouse(78, 23, 80, 24), (75, 23));
}

#[test]
fn widget_areas_intersect_and_contain() {
    let a = WidgetArea::new(0, 0, 5, 5);
    let b = WidgetArea::new(4, 4, 2, 2);
    let c = WidgetArea::new(5, 0, 2, 2);
    assert!(a.intersects(&b) && b.intersects(&a));
    assert!(!a.intersects(&c));
    assert!(a.contains_point(4, 4));
    assert!(!a.contains_point(5, 4));
    assert_eq!((a.right(), a.bottom()), (5, 5));
}

#[test]
fn grapheme_clusters_take_one_column() {
    let text = "e\u{301}x🇨🇦y";
    assert_eq!(cell_column_for_char_index(text, 0), 0);
    assert_eq!(cell_column_for_char_index(text, 2), 1);
    assert_eq!(cell_column_for_char_index(text, 3), 2);
    assert_eq!(cell_column_for_char_index(text, 5), 3);
    assert_eq!(char_index_from_cell_column(text, 3), 5);
    let mut s = TextInputState::new();
    s.set_text(text);
    s.move_end(false);
    s.move_left(false);
    assert_eq!(s.cursor(), 5);
    s.move_left(false);
    assert_eq!(s.cursor(), 4);
    assert_eq!(s.position_at_character(4).column, 2);
}

#[test]
fn events_edit_the_input() {
    let mut s = TextInputState::new();
    assert!(!s.handle_event(Event::Character('h')));
    s.set_focused(true);
    assert!(s.handle_event(Event::Character('h')));
    assert!(s.handle_event(Event::Character('i')));
    assert!(s.handle_event(Event::KeyLeft));
    assert!(s.handle_event(Event::Backspace));
    assert_eq!(s.text(), "i");
    assert!(!s.handle_event(Event::Enter));
}

#[test]
fn text_input_draws_text_and_requests_the_cursor() {
    let mut canvas = Canvas::new(20, 3);
    let mut state = TextInputState::new();
    state.set_text("hello");
    state.set_focused(true);
    let input = TextInput::new().with_position(2, 1).with_width(8).with_border(true);
    input.draw(&mut canvas, &mut state).unwrap();
    let ops = ops_of(&canvas);
    assert_eq!(
        ops,
        vec![
            (1, 2, "[".to_string()),
            (1, 9, "]".to_string()),
            (1, 3, "      ".to_string()),
            (1, 3, "ello".to_string()),
        ]
    );
    assert_eq!(state.view_col(), 1);
    assert_eq!(canvas.cursor(), Some(CursorSpec { x: 7, y: 1, visible: true }));
}

#[test]
fn text_input_shows_the_placeholder_when_empty() {
    let mut canvas = Canvas::new(20, 3);
    let mut state = TextInputState::new();
    let input = TextInput::new().with_width(4).with_placeholder("type here");
    input.draw(&mut canvas, &mut state).unwrap();
    assert_eq!(ops_of(&canvas), vec![(0, 0, "    ".to_string()), (0, 0, "type".to_string())]);
    assert_eq!(canvas.cursor(), None);
}

#[test]
fn colour_pairs_keep_their_parts() {
    let c = ColorPair::new(Color::Red, Color::Blue);
    assert_eq!(c.fg, Color::Red);
    assert_eq!(c.bg, Color::Blue);
    let e = Error::RenderError { text: "x".to_string() };
    assert!(matches!(e, Error::RenderError { .. }));
}
