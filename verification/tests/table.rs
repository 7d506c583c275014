use minui::widgets::table::align_to_width;
use minui::Alignment;

#[test]
fn alignment_pads_only_after_clipping() {
    let mut output = String::new();
    for (alignment, expected) in [
        (Alignment::Left, "ab   "),
        (Alignment::Right, "   ab"),
        (Alignment::Center, " ab  "),
    ] {
        align_to_width(&mut output, "ab", 5, alignment);
        assert_eq!(output, expected);
    }
}

#[test]
fn alignment_leaves_full_width_text_unchanged() {
    let mut output = String::from("stale text");
    align_to_width(&mut output, "abcde", 5, Alignment::Right);
    assert_eq!(output, "abcde");
}
