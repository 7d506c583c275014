//! Large ASCII-art text rendered with a FIGlet font.

use vstd::prelude::*;
use std::collections::HashMap;
use figlet_rs::{FIGcharacter, FIGlet, HeaderLine};
use crate::color::ColorPair;
use crate::error::Error;
use crate::text::{str_chars, to_owned_string, cell_width, string_from_chars, TabPolicy};
use crate::textops::{lines_spec, max_bytes, split_lines, max_line_bytes, char_vec_views};
use crate::window::{Canvas, Window, DrawOp, ops_views, push_op};
use crate::widgets::text::{Alignment, align_offset, aligned_offset};
use crate::widgets::Widget;

verus! {

/// A FIGlet font of figlet-rs, carried through unchanged.
#[verifier::external_type_specification]
#[verifier::external_body]
pub struct ExFIGlet(FIGlet);

/// One glyph of a FIGlet font: its rows, top first, and its width.
pub struct FigletGlyph {
    pub rows: Vec<String>,
    pub width: u32,
}

/// What rendering reads of a FIGlet font, as plain values: the header's
/// height, hardblank, layouts and print direction, and the glyph of each
/// char code.
pub struct FigletFont {
    pub height: i32,
    pub hardblank: char,
    pub old_layout: i32,
    pub full_layout: Option<i32>,
    pub print_direction: Option<i32>,
    pub glyphs: HashMap<u32, FigletGlyph>,
}

/// The plain value of a glyph: its rows and its width.
pub open spec fn glyph_view(g: FigletGlyph) -> (Seq<Seq<char>>, u32) {
    (g.rows@.map_values(|row: String| row@), g.width)
}

/// The figure that figlet-rs's `FIGlet::convert` renders for `text` in a
/// font of the given header values and glyphs, taken as text by
/// `FIGure::as_str`; `None` when it renders none.
pub uninterp spec fn figlet_figure(height: int, hardblank: char, old_layout: int, full_layout: Option<i32>,
    print_direction: Option<i32>, glyphs: Map<u32, (Seq<Seq<char>>, u32)>, text: Seq<char>) -> Option<Seq<char>>;

impl FigletFont {
    /// The figure of `text` in this font.
    pub open spec fn figure(&self, text: Seq<char>) -> Option<Seq<char>> {
        figlet_figure(self.height as int, self.hardblank, self.old_layout as int, self.full_layout,
            self.print_direction, self.glyphs@.map_values(|g: FigletGlyph| glyph_view(g)), text)
    }

    /// Whether some char of `text` has a glyph.
    pub open spec fn has_glyph_for(&self, text: Seq<char>) -> bool {
        exists|i: int| 0 <= i < text.len() && self.glyphs@.contains_key(text[i] as u32)
    }

    /// Whether rendering `text` stays within the font: every glyph that a
    /// char of `text` picks has at least `height` rows, and the height is
    /// not negative (figlet-rs indexes the rows of each glyph up to the
    /// height, and allocates one buffer row per unit of height).
    pub open spec fn renders_safely(&self, text: Seq<char>) -> bool {
        forall|i: int| 0 <= i < text.len() && #[trigger] self.glyphs@.contains_key(text[i] as u32) ==> {
            &&& self.height >= 0
            &&& self.glyphs@[text[i] as u32].rows@.len() >= self.height
        }
    }

    /// Whether rendering `text` in this font stays within it (see
    /// [`FigletFont::renders_safely`]).
    pub fn can_render(&self, text: &str) -> (r: bool)
        ensures
            r == self.renders_safely(text@),
    {
        broadcast use vstd::std_specs::hash::group_hash_axioms;
        let cs = str_chars(text);
        let mut i: usize = 0;
        while i < cs.len()
            invariant
                cs@ == text@,
                i <= cs@.len(),
                forall|j: int| 0 <= j < i && #[trigger] self.glyphs@.contains_key(text@[j] as u32) ==> {
                    &&& self.height >= 0
                    &&& self.glyphs@[text@[j] as u32].rows@.len() >= self.height
                },
            decreases cs.len() - i,
        {
            let code = cs[i] as u32;
            match self.glyphs.get(&code) {
                Some(g) => {
                    if self.height < 0 || (g.rows.len() as u64) < (self.height as u64) {
                        return false;
                    }
                },
                None => {},
            }
            i = i + 1;
        }
        true
    }
}

/// `FIGlet::standard`: the standard font bundled with figlet-rs, taken as
/// plain values. The crate's documentation and tests load it without
/// fail; its header gives a height of 6, the parser gives every glyph as
/// many rows as the height, and the bundled file holds a glyph for each
/// printable ASCII char (codes 32 to 126). What the glyphs hold is not
/// stated.
#[verifier::external_body]
fn load_standard_font() -> (r: Result<FigletFont, String>)
    ensures
        r is Ok,
        r matches Ok(f) ==> f.height == 6,
        r matches Ok(f) ==> forall|c: u32| #[trigger] f.glyphs@.contains_key(c) ==> f.glyphs@[c].rows@.len() == 6,
        r matches Ok(f) ==> forall|c: u32| 32 <= c <= 126 ==> #[trigger] f.glyphs@.contains_key(c),
{
    let f = FIGlet::standard()?;
    let h = f.header_line;
    let glyphs = f.fonts.into_iter().map(|(c, g)| (c, FigletGlyph { rows: g.characters, width: g.width })).collect();
    Ok(FigletFont { height: h.height, hardblank: h.hardblank, old_layout: h.old_layout, full_layout: h.full_layout,
        print_direction: h.print_direction, glyphs })
}

/// `FIGlet::convert` on `font` taken as a figlet-rs font, with the figure
/// taken as text by `FIGure::as_str` (each rendered row followed by a
/// newline). It renders a figure exactly when some char of `text` has a
/// glyph; the figure is named by `figlet_figure`. The header fields that
/// rendering does not read are left empty.
#[verifier::external_body]
fn render_text(font: &FigletFont, text: &str) -> (r: Option<String>)
    requires
        font.renders_safely(text@),
    ensures
        r is Some <==> font.has_glyph_for(text@),
        match r {
            Some(s) => figlet_figure(font.height as int, font.hardblank, font.old_layout as int, font.full_layout,
                font.print_direction, font.glyphs@.map_values(|g: FigletGlyph| glyph_view(g)), text@) == Some(s@),
            None => figlet_figure(font.height as int, font.hardblank, font.old_layout as int, font.full_layout,
                font.print_direction, font.glyphs@.map_values(|g: FigletGlyph| glyph_view(g)), text@) is None,
        },
{
    let fonts = font.glyphs.iter().map(|(c, g)| (*c, FIGcharacter { code: *c, characters: g.rows.clone(),
        width: g.width, height: g.rows.len() as u32 })).collect();
    let header_line = HeaderLine { header_line: String::new(), signature: String::new(), hardblank: font.hardblank,
        height: font.height, baseline: 0, max_length: 0, old_layout: font.old_layout, comment_lines: 0,
        print_direction: font.print_direction, full_layout: font.full_layout, codetag_count: None };
    FIGlet { header_line, comments: String::new(), fonts }.convert(text).map(|figure| figure.as_str())
}

/// Text drawn in a FIGlet font, one rendered row per window row.
pub struct FigletText {
    pub text: String,
    pub rendered: String,
    pub width: u16,
    pub height: u16,
    pub colors: Option<ColorPair>,
    pub alignment: Alignment,
}

impl FigletText {
    /// A figure of `text` whose rendering is `rendered`: as wide as its
    /// widest line in bytes and as tall as its number of lines (both
    /// truncated to `u16`), left-aligned in the default colors.
    pub open spec fn made_from(&self, text: Seq<char>, rendered: Seq<char>) -> bool {
        &&& self.text@ == text
        &&& self.rendered@ == rendered
        &&& self.width == max_bytes(lines_spec(rendered)) as u16
        &&& self.height == lines_spec(rendered).len() as u16
        &&& self.colors is None
        &&& self.alignment == Alignment::Left
    }

    /// `text` in the standard FIGlet font, as figlet-rs renders it in the
    /// bundled font (six rows high): it renders whenever `text` holds
    /// a printable ASCII char, and fails, naming the text, when no char of
    /// it has a glyph (an empty text among them).
    pub fn standard(text: &str) -> (r: Result<Self, Error>)
        ensures
            r matches Ok(f) ==> exists|font: FigletFont| font.height == 6 && #[trigger] f.made_from(text@,
                font.figure(text@)->0),
            r matches Err(e) ==> (e matches Error::RenderError { text: t } && t@ == text@),
            (exists|i: int| 0 <= i < text@.len() && 32 <= #[trigger] (text@[i] as u32) <= 126) ==> r is Ok,
            text@.len() == 0 ==> r is Err,
    {
        match load_standard_font() {
            Ok(font) => {
                proof {
                    if exists|i: int| 0 <= i < text@.len() && 32 <= #[trigger] (text@[i] as u32) <= 126 {
                        let i = choose|i: int| 0 <= i < text@.len() && 32 <= #[trigger] (text@[i] as u32) <= 126;
                        assert(font.glyphs@.contains_key(text@[i] as u32));
                    }
                }
                FigletText::with_font(text, font)
            },
            Err(message) => Err(Error::FontLoadError { message }),
        }
    }

    /// `text` in `font`: the figure that the font renders for it, or an
    /// error naming the text when no char of it has a glyph.
    pub fn with_font(text: &str, font: FigletFont) -> (r: Result<Self, Error>)
        requires
            font.renders_safely(text@),
        ensures
            r is Ok <==> font.has_glyph_for(text@),
            r matches Ok(f) ==> f.made_from(text@, font.figure(text@)->0),
            r matches Err(e) ==> (e matches Error::RenderError { text: t } && t@ == text@),
    {
        let rendered = render_text(&font, text);
        FigletText::from_rendered(text, rendered)
    }

    /// The figure of `text` for the renderer's output `rendered`: an error
    /// naming the text when there is none.
    pub fn from_rendered(text: &str, rendered: Option<String>) -> (r: Result<Self, Error>)
        ensures
            match rendered {
                Some(s) => r matches Ok(f) && f.made_from(text@, s@),
                None => r matches Err(e) && e matches Error::RenderError { text: t } && t@ == text@,
            },
    {
        match rendered {
            None => Err(Error::RenderError { text: to_owned_string(text) }),
            Some(s) => {
                let cs = str_chars(s.as_str());
                let lines = split_lines(cs.as_slice());
                let height = lines.len() as u16;
                let width = max_line_bytes(&lines) as u16;
                Ok(FigletText {
                    text: to_owned_string(text),
                    rendered: s,
                    width,
                    height,
                    colors: None,
                    alignment: Alignment::Left,
                })
            },
        }
    }

    /// Sets the colors.
    pub fn with_color(self, colors: ColorPair) -> (r: Self)
        ensures
            r == (FigletText { colors: Some(colors), ..self }),
    {
        FigletText { colors: Some(colors), ..self }
    }

    /// Sets the alignment of each row in the window.
    pub fn with_alignment(self, alignment: Alignment) -> (r: Self)
        ensures
            r == (FigletText { alignment, ..self }),
    {
        FigletText { alignment, ..self }
    }

    /// The text.
    pub fn text(&self) -> (r: &str)
        ensures
            r@ == self.text@,
    {
        self.text.as_str()
    }

    /// The rendered figure.
    pub fn rendered(&self) -> (r: &str)
        ensures
            r@ == self.rendered@,
    {
        self.rendered.as_str()
    }

    /// The rows of the figure, each aligned in a window `width` cells wide
    /// by its length in chars (as a `u16`), on rows 0, 1, ... (as `u16`).
    pub open spec fn figure_writes(&self, width: int) -> Seq<(int, int, Seq<char>, Option<ColorPair>)> {
        let lines = lines_spec(self.rendered@);
        Seq::new(lines.len(), |i: int| ((i as u16) as int, align_offset(self.alignment, (lines[i].len() as u16) as int,
            width), lines[i], self.colors))
    }
}

impl Widget for FigletText {
    open spec fn size_spec(&self) -> (u16, u16) {
        (self.width, self.height)
    }

    open spec fn position_spec(&self) -> (u16, u16) {
        (0, 0)
    }

    open spec fn draws(&self, views: Seq<crate::widgets::WindowView>, size: (u16, u16), before: Seq<crate::window::OpView>,
        after: Seq<crate::window::OpView>, r: Result<(), Error>) -> bool {
        r is Ok && after == crate::window::apply_writes(before, views, size, self.figure_writes(crate::window::visible_of(views, size).0 as int))
    }

    /// Writes each row of the figure, aligned in the visible width.
    fn draw(&self, window: &mut Canvas) -> (r: Result<(), Error>)
        ensures
            r is Ok,
            final(window).ops_view() == old(window).ops_after_each(self.figure_writes(old(window).visible_size().0 as int)),
            final(window).cursor_view() == old(window).cursor_view(),
    {
        let (window_width, _) = window.get_size();
        let cs = str_chars(self.rendered.as_str());
        let lines = split_lines(cs.as_slice());
        let ghost ws = self.figure_writes(window_width as int);
        let mut out: Vec<DrawOp> = Vec::new();
        let mut row: usize = 0;
        proof {
            assert(ops_views(out@) =~= ws.take(0));
        }
        while row < lines.len()
            invariant
                row <= lines@.len(),
                char_vec_views(lines@) == lines_spec(self.rendered@),
                ws == self.figure_writes(window_width as int),
                ws.len() == lines@.len(),
                ops_views(out@) == ws.take(row as int),
            decreases lines.len() - row,
        {
            let line = string_from_chars(lines[row].as_slice());
            let line_len = cell_width(line.as_str(), TabPolicy::SingleCell) as u16;
            let x = aligned_offset(self.alignment, line_len, window_width);
            proof {
                assert(char_vec_views(lines@)[row as int] == lines@[row as int]@);
            }
            push_op(&mut out, row as u16, x, line, self.colors);
            proof {
                assert(ws.take(row + 1) =~= ws.take(row as int).push(ws[row as int]));
            }
            row = row + 1;
        }
        proof {
            assert(ws.take(row as int) =~= ws);
        }
        window.emit(&out);
        Ok(())
    }

    fn get_size(&self) -> (r: (u16, u16)) {
        (self.width, self.height)
    }

    fn get_position(&self) -> (r: (u16, u16)) {
        (0, 0)
    }
}

impl crate::widgets::BoxedWidget for FigletText {
    fn into_boxed(self) -> (r: crate::widgets::DynWidget) {
        crate::widgets::DynWidget { widget: Box::new(self) }
    }
}

} // verus!
