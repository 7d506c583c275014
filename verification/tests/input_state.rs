use minui::text::{byte_index_for_char_index, cell_column_for_char_index, char_index_from_cell_column};
use minui::widgets::input::TextInputState;

fn assert_positions(state: &TextInputState) {
    assert_eq!(state.len_chars(), state.text().chars().count());
    for character in 0..=state.len_chars() + 1 {
        let position = state.position_at_character(character);
        assert_eq!(position.byte, byte_index_for_char_index(state.text(), character));
        assert_eq!(position.column, usize::from(cell_column_for_char_index(state.text(), character)));
    }
    let end_column = state.position_at_character(state.len_chars()).column;
    for column in 0..=end_column + 1 {
        let position = state.position_at_column(column);
        assert_eq!(position.character, char_index_from_cell_column(state.text(), column as u16));
        assert_eq!(position.byte, byte_index_for_char_index(state.text(), position.character));
    }
}

#[test]
fn input_positions_follow_edits_across_checkpoints_and_graphemes() {
    for text in [
        "a".repeat(200),
        format!("{}e\u{301}🧑‍💻🇨🇦\t\r\n界", "a".repeat(63)).repeat(2),
        "🇨🇦🇺🇸\u{301}\u{600}क्\u{200d}ष".repeat(20),
    ] {
        let mut original = TextInputState::new();
        original.set_text(&text);
        assert_positions(&original);
        for cursor in [0, 1, 63, 64, 65, original.len_chars()] {
            let mut state = original.clone();
            state.set_cursor(cursor);
            state.insert_str("\u{301}🇨🧑‍💻");
            assert_positions(&state);
            state.backspace();
            assert_positions(&state);
            state.delete_forward();
            assert_positions(&state);
            state.move_left(true);
            state.cut_selection();
            assert_positions(&state);
            state.select_all();
            state.insert_str("replacement");
            assert_positions(&state);
            state.clear();
            assert_positions(&state);
        }
    }
}

#[test]
fn dragging_over_ascii_text_selects_up_to_the_column() {
    let mut st = TextInputState::new();
    st.set_text("hello world");
    st.set_cursor(2);
    st.last_x = 10;
    st.last_w = 20;
    st.drag_select_to(15);
    assert_eq!(st.cursor(), 5);
    assert_eq!(st.selection(), Some((2, 5)));
    st.drag_select_to(3);
    assert_eq!(st.cursor(), 0);
    assert_eq!(st.selection(), Some((0, 2)));
    st.drag_select_to(200);
    assert_eq!(st.cursor(), 11);
    assert_eq!(st.selection(), Some((2, 11)));
}
