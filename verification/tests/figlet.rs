use minui::widgets::figlet::{FigletFont, FigletGlyph};
use minui::widgets::{Alignment, FigletText, Widget};
use std::collections::HashMap;
use minui::{Canvas, Error};

#[test]
fn standard_font_renders_several_rows() {
    let f = FigletText::standard("Hi").unwrap();
    assert_eq!(f.text(), "Hi");
    let rows: Vec<&str> = f.rendered().lines().collect();
    assert!(rows.len() > 1);
    assert!(rows.iter().any(|r| r.contains('|')));
    let (w, h) = f.get_size();
    assert_eq!(h as usize, rows.len());
    assert_eq!(w as usize, rows.iter().map(|r| r.chars().count()).max().unwrap());
}

#[test]
fn figlet_without_a_rendering_is_an_error() {
    let r = FigletText::from_rendered("abc", None);
    assert!(matches!(r, Err(Error::RenderError { ref text }) if text == "abc"));
    let ok = FigletText::from_rendered("abc", Some(" _\n|_|\n".to_string())).unwrap();
    assert_eq!(ok.rendered(), " _\n|_|\n");
    assert_eq!(ok.get_size(), (3, 2));
}

#[test]
fn figlet_draws_each_row_aligned() {
    let f = FigletText::from_rendered("x", Some("ab\nc".to_string())).unwrap().with_alignment(Alignment::Right);
    let mut canvas = Canvas::new(6, 3);
    f.draw(&mut canvas).unwrap();
    let ops: Vec<(u16, u16, String)> = canvas.ops().iter().map(|o| (o.y, o.x, o.text.clone())).collect();
    assert_eq!(ops, vec![(0, 4, "ab".to_string()), (1, 5, "c".to_string())]);
}

fn two_row_font() -> FigletFont {
    let mut glyphs = HashMap::new();
    glyphs.insert('a' as u32, FigletGlyph { rows: vec!["ab".to_string(), "cd".to_string()], width: 2 });
    glyphs.insert('b' as u32, FigletGlyph { rows: vec!["x$".to_string(), "yy".to_string()], width: 2 });
    FigletFont { height: 2, hardblank: '$', old_layout: 0, full_layout: Some(0), print_direction: Some(0), glyphs }
}

#[test]
fn a_plain_font_renders_glyph_rows_side_by_side() {
    let font = two_row_font();
    assert!(font.can_render("ab"));
    let f = FigletText::with_font("ab", font).unwrap();
    assert_eq!(f.rendered(), "abx \ncdyy\n");
    assert_eq!(f.get_size(), (4, 2));
}

#[test]
fn a_font_without_the_glyphs_renders_nothing() {
    let r = FigletText::with_font("zz", two_row_font());
    assert!(matches!(r, Err(Error::RenderError { ref text }) if text == "zz"));
    assert!(matches!(FigletText::standard(""), Err(Error::RenderError { .. })));
}

#[test]
fn a_glyph_shorter_than_the_font_cannot_be_rendered() {
    let mut font = two_row_font();
    font.glyphs.insert('c' as u32, FigletGlyph { rows: vec!["c".to_string()], width: 1 });
    assert!(!font.can_render("ac"));
    assert!(font.can_render("ab"));
    font.height = -1;
    assert!(!font.can_render("a"));
    assert!(font.can_render("z"));
}
