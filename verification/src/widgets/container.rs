//! [`Container`]: stacks child widgets vertically or horizontally, with
//! padding, gaps, an optional border with a title, and a background.

use vstd::prelude::*;
use crate::color::{Color, ColorPair};
use crate::error::Error;
use crate::text::{clip_to_cells, cell_width, char_string, repeat_string, take_cells, TabPolicy};
use crate::window::{Canvas, Window, DrawOp, OpView, ops_views, push_op};
use crate::widgets::common::{BorderChars, WindowView};
use crate::widgets::{Widget, BoxedWidget, DynWidget};
use crate::widgets::scroll::{sat_sub, min};

verus! {

broadcast use crate::window::lemma_grows_chain;
use crate::window::{lemma_grows_through_view, lands_under, cells_drawn};

/// One side of a box.
#[derive(Debug, Clone, Copy, PartialEq, Eq, Structural)]
pub enum BorderSide {
    Top,
    Right,
    Bottom,
    Left,
}

/// Where a title sits in the top border.
#[derive(Debug, Clone, Copy, PartialEq, Eq, Structural)]
pub enum TitleAlignment {
    Left,
    Center,
    Right,
}

/// Space between children: a number of cells, or a percentage of the space
/// along the layout axis.
#[derive(Debug, Clone, Copy, PartialEq, Eq, Structural)]
pub enum Gap {
    Pixels(u16),
    Percent(u8),
}

/// The set of sides that carry a border.
#[derive(Debug, Clone, Copy, PartialEq, Eq, Structural)]
pub struct BorderSides {
    pub top: bool,
    pub right: bool,
    pub bottom: bool,
    pub left: bool,
}

impl BorderSides {
    /// No side.
    pub fn none() -> (r: Self)
        ensures
            r == (BorderSides { top: false, right: false, bottom: false, left: false }),
    {
        BorderSides { top: false, right: false, bottom: false, left: false }
    }

    /// All four sides.
    pub fn all() -> (r: Self)
        ensures
            r == (BorderSides { top: true, right: true, bottom: true, left: true }),
    {
        BorderSides { top: true, right: true, bottom: true, left: true }
    }

    /// Whether `side` is in the set.
    pub open spec fn has(self, side: BorderSide) -> bool {
        match side {
            BorderSide::Top => self.top,
            BorderSide::Right => self.right,
            BorderSide::Bottom => self.bottom,
            BorderSide::Left => self.left,
        }
    }

    /// Whether `side` is in the set.
    pub fn contains(&self, side: BorderSide) -> (r: bool)
        ensures
            r == self.has(side),
    {
        match side {
            BorderSide::Top => self.top,
            BorderSide::Right => self.right,
            BorderSide::Bottom => self.bottom,
            BorderSide::Left => self.left,
        }
    }

    /// The set with `side` added.
    pub open spec fn with_side(self, side: BorderSide) -> Self {
        match side {
            BorderSide::Top => BorderSides { top: true, ..self },
            BorderSide::Right => BorderSides { right: true, ..self },
            BorderSide::Bottom => BorderSides { bottom: true, ..self },
            BorderSide::Left => BorderSides { left: true, ..self },
        }
    }

    /// Adds `side`.
    pub fn insert(&mut self, side: BorderSide)
        ensures
            *final(self) == old(self).with_side(side),
    {
        match side {
            BorderSide::Top => self.top = true,
            BorderSide::Right => self.right = true,
            BorderSide::Bottom => self.bottom = true,
            BorderSide::Left => self.left = true,
        }
    }

    /// Whether no side is in the set.
    pub fn is_empty(&self) -> (r: bool)
        ensures
            r == !(self.top || self.right || self.bottom || self.left),
    {
        !(self.top || self.right || self.bottom || self.left)
    }

    /// The set of the sides in `sides`.
    pub open spec fn from_seq(sides: Seq<BorderSide>) -> Self {
        BorderSides {
            top: sides.contains(BorderSide::Top),
            right: sides.contains(BorderSide::Right),
            bottom: sides.contains(BorderSide::Bottom),
            left: sides.contains(BorderSide::Left),
        }
    }

    /// The set of the sides in `sides`.
    pub fn from_vec(sides: &Vec<BorderSide>) -> (r: Self)
        ensures
            r == Self::from_seq(sides@),
    {
        let mut r = BorderSides::none();
        let mut i: usize = 0;
        while i < sides.len()
            invariant
                i <= sides@.len(),
                r == Self::from_seq(sides@.take(i as int)),
            decreases sides.len() - i,
        {
            r.insert(sides[i]);
            proof {
                assert(sides@.take(i + 1) == sides@.take(i as int).push(sides@[i as int]));
                lemma_contains_push(sides@.take(i as int), sides@[i as int], BorderSide::Top);
                lemma_contains_push(sides@.take(i as int), sides@[i as int], BorderSide::Right);
                lemma_contains_push(sides@.take(i as int), sides@[i as int], BorderSide::Bottom);
                lemma_contains_push(sides@.take(i as int), sides@[i as int], BorderSide::Left);
            }
            i = i + 1;
        }
        assert(sides@.take(sides@.len() as int) == sides@);
        r
    }
}

/// A sequence with `x` pushed contains `y` exactly when the sequence did or `x` is `y`.
pub proof fn lemma_contains_push<T>(s: Seq<T>, x: T, y: T)
    ensures
        s.push(x).contains(y) <==> (s.contains(y) || x == y),
{
    if s.contains(y) {
        let j = choose|j: int| 0 <= j < s.len() && #[trigger] s[j] == y;
        assert(s.push(x)[j] == y);
    }
    if x == y {
        assert(s.push(x)[s.len() as int] == y);
    }
    if s.push(x).contains(y) {
        let j = choose|j: int| 0 <= j < s.len() + 1 && #[trigger] s.push(x)[j] == y;
        if j < s.len() {
            assert(s[j] == y);
        }
    }
}

/// Border settings of a container.
#[derive(Debug, Clone, Copy, PartialEq, Eq, Structural)]
pub struct BorderConfig {
    pub sides: BorderSides,
    pub chars: BorderChars,
    pub color: ColorPair,
    pub focused_color: Option<ColorPair>,
}

impl BorderConfig {
    /// A border on all four sides.
    pub fn all_sides(chars: BorderChars, color: ColorPair) -> (r: Self)
        ensures
            r == (BorderConfig { sides: BorderSides { top: true, right: true, bottom: true, left: true },
                chars, color, focused_color: None }),
    {
        BorderConfig { sides: BorderSides::all(), chars, color, focused_color: None }
    }

    /// A border configuration with no side drawn.
    pub fn no_sides(chars: BorderChars, color: ColorPair) -> (r: Self)
        ensures
            r == (BorderConfig { sides: BorderSides { top: false, right: false, bottom: false, left: false },
                chars, color, focused_color: None }),
    {
        BorderConfig { sides: BorderSides::none(), chars, color, focused_color: None }
    }

    /// Whether any side is drawn.
    pub fn has_border(&self) -> (r: bool)
        ensures
            r == (self.sides.top || self.sides.right || self.sides.bottom || self.sides.left),
    {
        !self.sides.is_empty()
    }
}

/// The axis along which children are stacked.
#[derive(Debug, Clone, Copy, PartialEq, Eq, Structural)]
pub enum LayoutDirection {
    Vertical,
    Horizontal,
}

/// How content is placed inside the container.
#[derive(Debug, Clone, Copy, PartialEq, Eq, Structural)]
pub enum ContentAlignment {
    Normal,
    AutoCenter,
}

/// Space between the border and the content, per side.
#[derive(Debug, Clone, Copy, PartialEq, Eq, Structural)]
pub struct Padding {
    pub top: u16,
    pub right: u16,
    pub bottom: u16,
    pub left: u16,
}

impl Padding {
    /// The same padding on every side.
    pub fn uniform(amount: u16) -> (r: Self)
        ensures
            r == (Padding { top: amount, right: amount, bottom: amount, left: amount }),
    {
        Padding { top: amount, right: amount, bottom: amount, left: amount }
    }

    /// `vertical` on top and bottom, `horizontal` left and right.
    pub fn symmetric(vertical: u16, horizontal: u16) -> (r: Self)
        ensures
            r == (Padding { top: vertical, right: horizontal, bottom: vertical, left: horizontal }),
    {
        Padding { top: vertical, right: horizontal, bottom: vertical, left: horizontal }
    }

    /// Each side given.
    pub fn custom(top: u16, right: u16, bottom: u16, left: u16) -> (r: Self)
        ensures
            r == (Padding { top, right, bottom, left }),
    {
        Padding { top, right, bottom, left }
    }

    /// `left + right`.
    pub fn horizontal_total(&self) -> (r: u16)
        requires
            self.left + self.right <= u16::MAX,
        ensures
            r == self.left + self.right,
    {
        self.left + self.right
    }

    /// `top + bottom`.
    pub fn vertical_total(&self) -> (r: u16)
        requires
            self.top + self.bottom <= u16::MAX,
        ensures
            r == self.top + self.bottom,
    {
        self.top + self.bottom
    }

    /// No padding.
    pub fn default() -> (r: Self)
        ensures
            r == (Padding { top: 0, right: 0, bottom: 0, left: 0 }),
    {
        Self::uniform(0)
    }
}

/// How a child's size along one axis is chosen.
#[derive(Debug, Clone, Copy, PartialEq, Eq, Structural)]
pub enum SizeSpec {
    /// The child's own size.
    Auto,
    /// A fixed number of cells.
    Fixed(u16),
    /// A share of the space left over.
    Fill,
}

impl SizeSpec {
    /// `Auto`.
    pub fn default() -> (r: Self)
        ensures
            r == SizeSpec::Auto,
    {
        SizeSpec::Auto
    }
}

/// Lower and optional upper bound for a size along one axis.
#[derive(Debug, Clone, Copy, PartialEq, Eq, Structural)]
pub struct AxisConstraints {
    pub min: u16,
    pub max: Option<u16>,
}

impl AxisConstraints {
    /// No bound.
    pub fn default() -> (r: Self)
        ensures
            r == (AxisConstraints { min: 0, max: None }),
    {
        AxisConstraints { min: 0, max: None }
    }

    /// The given bounds.
    pub fn new(min: u16, max: Option<u16>) -> (r: Self)
        ensures
            r == (AxisConstraints { min, max }),
    {
        AxisConstraints { min, max }
    }

    /// `v` raised to `min` and then lowered to `max`.
    pub open spec fn clamp_spec(self, v: int) -> int {
        let lo = if v < self.min { self.min as int } else { v };
        match self.max {
            Some(m) => if lo > m { m as int } else { lo },
            None => lo,
        }
    }

    /// `v` raised to `min` and then lowered to `max` (the upper bound wins
    /// when the bounds cross).
    pub fn clamp(&self, v: u16) -> (r: u16)
        ensures
            r == self.clamp_spec(v as int),
    {
        let v = if v < self.min { self.min } else { v };
        match self.max {
            Some(max) => if v > max { max } else { v },
            None => v,
        }
    }
}

/// A clamped value is within the bounds whenever the bounds do not cross.
pub proof fn lemma_clamp_within(c: AxisConstraints, v: int)
    requires
        c.max matches Some(m) ==> c.min <= m,
    ensures
        c.min <= c.clamp_spec(v),
        c.max matches Some(m) ==> c.clamp_spec(v) <= m,
        (c.min <= v && (c.max matches Some(m) ==> v <= m)) ==> c.clamp_spec(v) == v,
{
}

/// Size bounds for a child on both axes.
#[derive(Debug, Clone, Copy, PartialEq, Eq, Structural)]
pub struct ChildConstraints {
    pub width: AxisConstraints,
    pub height: AxisConstraints,
}

impl ChildConstraints {
    /// No bounds.
    pub fn default() -> (r: Self)
        ensures
            r == (ChildConstraints { width: AxisConstraints { min: 0, max: None },
                height: AxisConstraints { min: 0, max: None } }),
    {
        ChildConstraints { width: AxisConstraints::default(), height: AxisConstraints::default() }
    }
}

/// `v` capped at `u16::MAX`.
pub open spec fn sat16(v: int) -> int {
    if v > u16::MAX { u16::MAX as int } else { v }
}

/// 1 for a drawn border side, 0 otherwise.
pub open spec fn side_w(b: bool) -> int {
    if b { 1 } else { 0 }
}

/// A content extent grown by a border, two paddings and another border,
/// each addition saturating at `u16::MAX`.
pub open spec fn outer_extent(content: int, b1: bool, p1: u16, p2: u16, b2: bool) -> int {
    sat16(sat16(sat16(sat16(content + side_w(b1)) + p1) + p2) + side_w(b2))
}

/// The extent of `sizes` laid end to end with `gap` between neighbours, every
/// addition saturating at `u16::MAX`.
pub open spec fn stack_extent(sizes: Seq<u16>, gap: u16) -> int
    decreases sizes.len(),
{
    if sizes.len() == 0 {
        0
    } else {
        let prev = stack_extent(sizes.drop_last(), gap);
        let with_gap = if sizes.len() > 1 { sat16(prev + gap) } else { prev };
        sat16(with_gap + sizes.last())
    }
}

/// The largest of `sizes` (0 for none).
pub open spec fn max_extent(sizes: Seq<u16>) -> int
    decreases sizes.len(),
{
    if sizes.len() == 0 {
        0
    } else {
        let prev = max_extent(sizes.drop_last());
        if sizes.last() > prev { sizes.last() as int } else { prev }
    }
}

/// Whether child `i` of `c` reports the size of `w` and draws as `w`
/// does.
pub open spec fn child_is<T: Widget>(c: &Container, i: int, w: &T) -> bool {
    &&& 0 <= i < c.child_sizes().len()
    &&& c.child_sizes()[i] == w.size_spec()
    &&& forall|v: Seq<WindowView>, s: (u16, u16), b: Seq<OpView>, a: Seq<OpView>, res: Result<(), Error>|
        #[trigger] c.child_draws(i, v, s, b, a, res) == w.draws(v, s, b, a, res)
}

/// A write recorded by the surface, as plain values.
pub type FrameWrite = (int, int, Seq<char>, Option<ColorPair>);

/// `count` cells of `c` on row `y` from column `x` on, one write per cell
/// (columns saturate at the last one).
pub open spec fn run_writes(y: int, x: int, count: nat, c: char, color: ColorPair) -> Seq<FrameWrite> {
    Seq::new(count, |i: int| (y, sat16(x + i), seq![c], Some(color)))
}

/// `c` in column `x` on rows `[start, end)`, top row first.
pub open spec fn column_writes(x: int, start: int, end: int, c: char, color: ColorPair) -> Seq<FrameWrite> {
    Seq::new(sat_sub(end, start) as nat, |i: int| (start + i, x, seq![c], Some(color)))
}

/// Row `y` of a fill: `n` spaces from column `x`, one write per cell.
pub open spec fn fill_row_at(y: int, x: int, n: nat, color: ColorPair) -> Seq<FrameWrite> {
    Seq::new(n, |i: int| (y, x + i, seq![' '], Some(color)))
}

/// `rows` rows of `cols` spaces from `(y, x)`, top row first.
pub open spec fn fill_block(y: int, x: int, rows: nat, cols: nat, color: ColorPair) -> Seq<FrameWrite>
    decreases rows,
{
    if rows == 0 {
        Seq::empty()
    } else {
        fill_block(y, x, (rows - 1) as nat, cols, color) + fill_row_at(y + rows - 1, x, cols, color)
    }
}

/// Layout settings of a child.
#[derive(Debug, Clone, Copy, PartialEq, Eq, Structural)]
pub struct ChildProps {
    pub width: SizeSpec,
    pub height: SizeSpec,
    pub constraints: ChildConstraints,
    pub intrinsic_width: u16,
    pub intrinsic_height: u16,
}

/// A stored child: its widget and its layout settings.
pub struct ContainerChild {
    widget: DynWidget,
    props: ChildProps,
}

/// The settings of a container, as plain values.
pub struct ContainerProps {
    pub x: u16,
    pub y: u16,
    pub width: u16,
    pub height: u16,
    pub layout_direction: LayoutDirection,
    pub padding: Padding,
    pub gap: Option<Gap>,
    pub row_gap: Option<Gap>,
    pub column_gap: Option<Gap>,
    pub content_alignment: ContentAlignment,
    pub auto_size: bool,
    pub fullscreen: bool,
    pub border: BorderConfig,
    pub background_color: Option<ColorPair>,
    pub should_fill: bool,
    pub title: Option<Seq<char>>,
    pub title_alignment: TitleAlignment,
    pub focused: bool,
}

/// The gap that applies along the layout axis.
pub open spec fn axis_gap(p: ContainerProps) -> Option<Gap> {
    match p.layout_direction {
        LayoutDirection::Vertical => if p.row_gap is Some { p.row_gap } else { p.gap },
        LayoutDirection::Horizontal => if p.column_gap is Some { p.column_gap } else { p.gap },
    }
}

/// The gap used when sizing a container to its content: the cell count of a
/// fixed gap, 1 for a percentage, 0 for none.
pub open spec fn autosize_gap_spec(p: ContainerProps) -> u16 {
    match axis_gap(p) {
        Some(Gap::Pixels(n)) => n,
        Some(Gap::Percent(_)) => 1,
        None => 0,
    }
}

/// The gap used for drawing, given the space along the layout axis: a fixed
/// gap as is, a percentage (at most 100) of the space rounded down but at
/// least 1, or 0 for none.
pub open spec fn resolve_gap_spec(p: ContainerProps, available: u16) -> int {
    match axis_gap(p) {
        Some(Gap::Pixels(n)) => n as int,
        Some(Gap::Percent(pct)) => {
            let percent = if pct > 100 { 100 } else { pct as int };
            let v = (available * percent) / 100;
            if v < 1 { 1 } else { v }
        },
        None => 0,
    }
}

/// The size a content-sized container takes for children `cs`.
pub open spec fn auto_extent(p: ContainerProps, cs: Seq<ChildProps>) -> (int, int) {
    let (cw, ch) = auto_extent_content(p, cs);
    (outer_extent(cw, p.border.sides.left, p.padding.left, p.padding.right, p.border.sides.right),
    outer_extent(ch, p.border.sides.top, p.padding.top, p.padding.bottom, p.border.sides.bottom))
}

/// The extent of the children `cs` themselves in a content-sized
/// container: along the layout axis stacked with gaps, across it the
/// largest; nothing for no children.
pub open spec fn auto_extent_content(p: ContainerProps, cs: Seq<ChildProps>) -> (int, int) {
    let ws = cs.map_values(|c: ChildProps| c.intrinsic_width);
    let hs = cs.map_values(|c: ChildProps| c.intrinsic_height);
    let g = autosize_gap_spec(p);
    if cs.len() == 0 {
        (0, 0)
    } else {
        match p.layout_direction {
            LayoutDirection::Vertical => (max_extent(ws), stack_extent(hs, g)),
            LayoutDirection::Horizontal => (stack_extent(ws, g), max_extent(hs)),
        }
    }
}

/// The plain sum of `sizes`.
pub open spec fn total16(sizes: Seq<u16>) -> int
    decreases sizes.len(),
{
    if sizes.len() == 0 { 0 } else { total16(sizes.drop_last()) + sizes.last() }
}

/// Saturating twice is saturating once: adding to a saturated sum and
/// saturating again gives the saturated full sum.
proof fn lemma_sat16_add(a: int, b: int)
    requires
        a >= 0,
        b >= 0,
    ensures
        sat16(sat16(a) + b) == sat16(a + b),
{
}

/// Children stacked with gaps take, saturating once at `u16::MAX`, the sum
/// of their sizes and of the gaps between them.
pub proof fn lemma_stack_extent_total(sizes: Seq<u16>, gap: u16)
    requires
        sizes.len() > 0,
    ensures
        stack_extent(sizes, gap) == sat16(total16(sizes) + gap * (sizes.len() - 1)),
    decreases sizes.len(),
{
    let init = sizes.drop_last();
    if sizes.len() == 1 {
        assert(init.len() == 0);
        assert(stack_extent(init, gap) == 0);
        assert(total16(init) == 0);
        assert(gap * (sizes.len() - 1) == 0);
        assert(stack_extent(sizes, gap) == sat16(0 + sizes.last()));
    } else {
        lemma_stack_extent_total(init, gap);
        lemma_total16_nonneg(init);
        let t = total16(init) + gap * (init.len() - 1);
        assert(gap * (init.len() - 1) >= 0) by (nonlinear_arith)
            requires init.len() >= 1, gap >= 0;
        assert(gap * (sizes.len() - 1) == gap * (init.len() - 1) + gap) by (nonlinear_arith)
            requires sizes.len() == init.len() + 1;
        let prev = stack_extent(init, gap);
        assert(prev == sat16(t));
        assert(stack_extent(sizes, gap) == sat16(sat16(prev + gap) + sizes.last()));
        lemma_sat16_add(t, gap as int);
        lemma_sat16_add(t + gap, sizes.last() as int);
        assert(total16(sizes) == total16(init) + sizes.last());
    }
}

/// A sum of sizes is not negative.
proof fn lemma_total16_nonneg(sizes: Seq<u16>)
    ensures
        total16(sizes) >= 0,
    decreases sizes.len(),
{
    if sizes.len() > 0 {
        lemma_total16_nonneg(sizes.drop_last());
    }
}

/// The largest size is one of the sizes and none exceeds it.
pub proof fn lemma_max_extent_is_max(sizes: Seq<u16>)
    requires
        sizes.len() > 0,
    ensures
        forall|i: int| 0 <= i < sizes.len() ==> sizes[i] <= max_extent(sizes),
        exists|i: int| 0 <= i < sizes.len() && sizes[i] == max_extent(sizes),
    decreases sizes.len(),
{
    let init = sizes.drop_last();
    if sizes.len() == 1 {
        assert(sizes[0] == max_extent(sizes));
    } else {
        lemma_max_extent_is_max(init);
        let j = choose|j: int| 0 <= j < init.len() && init[j] == max_extent(init);
        assert forall|i: int| 0 <= i < sizes.len() implies sizes[i] <= max_extent(sizes) by {
            if i < init.len() {
                assert(sizes[i] == init[i]);
            }
        }
        if sizes.last() > max_extent(init) {
            assert(sizes[sizes.len() - 1] == max_extent(sizes));
        } else {
            assert(sizes[j] == init[j]);
        }
    }
}

/// A content extent grown by borders and paddings takes, saturating once,
/// the sum of them all.
pub proof fn lemma_outer_extent_total(content: int, b1: bool, p1: u16, p2: u16, b2: bool)
    requires
        content >= 0,
    ensures
        outer_extent(content, b1, p1, p2, b2) == sat16(content + side_w(b1) + p1 + p2 + side_w(b2)),
{
    lemma_sat16_add(content + side_w(b1), p1 as int);
    lemma_sat16_add(content + side_w(b1) + p1, p2 as int);
    lemma_sat16_add(content + side_w(b1) + p1 + p2, side_w(b2));
}

/// How a content-sized container that is not full-screen sizes itself for
/// children `cs`: with none, to its borders and padding; stacked
/// vertically, as wide as its widest child and as tall as all of them and
/// the gaps between them; stacked horizontally, the other way round; the
/// borders and padding added each way, and every sum saturating at
/// `u16::MAX`.
pub proof fn lemma_auto_size(p: ContainerProps, cs: Seq<ChildProps>)
    requires
        p.auto_size,
        !p.fullscreen,
    ensures
        ({
            let ws = cs.map_values(|c: ChildProps| c.intrinsic_width);
            let hs = cs.map_values(|c: ChildProps| c.intrinsic_height);
            let g = autosize_gap_spec(p);
            let bw = side_w(p.border.sides.left) + p.padding.left + p.padding.right + side_w(p.border.sides.right);
            let bh = side_w(p.border.sides.top) + p.padding.top + p.padding.bottom + side_w(p.border.sides.bottom);
            let r = resized(p, cs);
            &&& cs.len() == 0 ==> r.width == sat16(bw) && r.height == sat16(bh)
            &&& cs.len() > 0 && p.layout_direction == LayoutDirection::Vertical ==> r.width == sat16(max_extent(ws)
                + bw) && r.height == sat16(total16(hs) + g * (cs.len() - 1) + bh)
            &&& cs.len() > 0 && p.layout_direction == LayoutDirection::Horizontal ==> r.width == sat16(total16(ws)
                + g * (cs.len() - 1) + bw) && r.height == sat16(max_extent(hs) + bh)
        }),
{
    let ws = cs.map_values(|c: ChildProps| c.intrinsic_width);
    let hs = cs.map_values(|c: ChildProps| c.intrinsic_height);
    let g = autosize_gap_spec(p);
    if cs.len() > 0 {
        lemma_stack_extent_total(ws, g);
        lemma_stack_extent_total(hs, g);
        lemma_max_extent_nonneg(ws);
        lemma_max_extent_nonneg(hs);
        lemma_total16_nonneg(ws);
        lemma_total16_nonneg(hs);
        assert(g * (cs.len() - 1) >= 0) by (nonlinear_arith)
            requires cs.len() >= 1, g >= 0;
    }
    assert(auto_extent_content(p, cs).0 >= 0 && auto_extent_content(p, cs).1 >= 0);
    lemma_outer_extent_total(auto_extent_content(p, cs).0, p.border.sides.left, p.padding.left, p.padding.right,
        p.border.sides.right);
    lemma_outer_extent_total(auto_extent_content(p, cs).1, p.border.sides.top, p.padding.top, p.padding.bottom,
        p.border.sides.bottom);
}

/// A title turns the top border on: a content-sized container that is not
/// full-screen grows by one row (saturating at `u16::MAX`) unless the top
/// border was on already, and keeps its width.
pub proof fn lemma_title_adds_a_row(p: ContainerProps, cs: Seq<ChildProps>, title: Seq<char>)
    requires
        p.auto_size,
        !p.fullscreen,
    ensures
        ({
            let q = ContainerProps { title: Some(title), border: BorderConfig { sides: BorderSides { top: true,
                ..p.border.sides }, ..p.border }, ..p };
            &&& resized(q, cs).width == resized(p, cs).width
            &&& resized(q, cs).height as int == (if p.border.sides.top { resized(p, cs).height as int } else {
                sat16(resized(p, cs).height + 1) })
        }),
{
    let q = ContainerProps { title: Some(title), border: BorderConfig { sides: BorderSides { top: true,
        ..p.border.sides }, ..p.border }, ..p };
    assert(auto_extent_content(q, cs) == auto_extent_content(p, cs));
    let ch = auto_extent_content(p, cs).1;
    lemma_auto_content_nonneg(p, cs);
    lemma_outer_extent_total(ch, p.border.sides.top, p.padding.top, p.padding.bottom, p.border.sides.bottom);
    lemma_outer_extent_total(ch, true, p.padding.top, p.padding.bottom, p.border.sides.bottom);
    let x = ch + p.padding.top + p.padding.bottom + side_w(p.border.sides.bottom);
    lemma_sat16_add(x, 1);
}

/// The children's own extent is not negative.
proof fn lemma_auto_content_nonneg(p: ContainerProps, cs: Seq<ChildProps>)
    ensures
        auto_extent_content(p, cs).0 >= 0,
        auto_extent_content(p, cs).1 >= 0,
{
    let ws = cs.map_values(|c: ChildProps| c.intrinsic_width);
    let hs = cs.map_values(|c: ChildProps| c.intrinsic_height);
    let g = autosize_gap_spec(p);
    if cs.len() > 0 {
        lemma_stack_extent_total(ws, g);
        lemma_stack_extent_total(hs, g);
        lemma_max_extent_nonneg(ws);
        lemma_max_extent_nonneg(hs);
        lemma_total16_nonneg(ws);
        lemma_total16_nonneg(hs);
        assert(g * (cs.len() - 1) >= 0) by (nonlinear_arith)
            requires cs.len() >= 1, g >= 0;
    }
}

/// The largest size is not negative.
proof fn lemma_max_extent_nonneg(sizes: Seq<u16>)
    ensures
        max_extent(sizes) >= 0,
    decreases sizes.len(),
{
    if sizes.len() > 0 {
        lemma_max_extent_nonneg(sizes.drop_last());
    }
}

/// The settings after re-sizing to the content: unchanged unless the
/// container sizes itself and is not full-screen.
pub open spec fn resized(p: ContainerProps, cs: Seq<ChildProps>) -> ContainerProps {
    if !p.auto_size || p.fullscreen {
        p
    } else {
        ContainerProps { width: auto_extent(p, cs).0 as u16, height: auto_extent(p, cs).1 as u16, ..p }
    }
}

/// How a child added by `add_child` is sized in a container stacking along
/// `dir`: filling across the axis, its own size along it.
pub open spec fn add_child_specs(dir: LayoutDirection) -> (SizeSpec, SizeSpec) {
    match dir {
        LayoutDirection::Vertical => (SizeSpec::Fill, SizeSpec::Auto),
        LayoutDirection::Horizontal => (SizeSpec::Auto, SizeSpec::Fill),
    }
}

/// The size of child `c` along the layout axis (`main`) or across it.
pub open spec fn axis_spec(c: ChildProps, vertical: bool, main: bool) -> SizeSpec {
    if vertical == main { c.height } else { c.width }
}

/// The own size of child `c` along the layout axis (`main`) or across it.
pub open spec fn axis_intrinsic(c: ChildProps, vertical: bool, main: bool) -> u16 {
    if vertical == main { c.intrinsic_height } else { c.intrinsic_width }
}

/// The number of children among `cs` that fill along the layout axis.
pub open spec fn fill_count_spec(cs: Seq<ChildProps>, vertical: bool) -> int
    decreases cs.len(),
{
    if cs.len() == 0 {
        0
    } else {
        fill_count_spec(cs.drop_last(), vertical) + if axis_spec(cs.last(), vertical, true) is Fill { 1int } else { 0int }
    }
}

/// The sum of the fixed and own sizes along the layout axis of the children
/// that do not fill, each addition saturating at `u16::MAX`.
pub open spec fn fixed_total_spec(cs: Seq<ChildProps>, vertical: bool) -> int
    decreases cs.len(),
{
    if cs.len() == 0 {
        0
    } else {
        let prev = fixed_total_spec(cs.drop_last(), vertical);
        match axis_spec(cs.last(), vertical, true) {
            SizeSpec::Fill => prev,
            SizeSpec::Fixed(v) => sat16(prev + v),
            SizeSpec::Auto => sat16(prev + axis_intrinsic(cs.last(), vertical, true)),
        }
    }
}

/// What the layout of `cs` in a container `p` is computed from: the content
/// area, the gap, and the equal share and remainder of the space the fill
/// children divide along the axis (what the gaps and the other children
/// leave).
pub open spec fn layout_params(p: ContainerProps, cs: Seq<ChildProps>) -> (int, int, int, int, int, int, int) {
    let (cx, cy, cw, ch) = Container::content_area_spec(p);
    let vertical = p.layout_direction == LayoutDirection::Vertical;
    let gap = resolve_gap_spec(p, (if vertical { ch } else { cw }) as u16);
    let n = cs.len();
    let gap_total = if n > 1 { sat16(gap * (((n - 1) as int) as u16) as int) } else { 0 };
    let available = sat_sub(if vertical { ch } else { cw }, gap_total);
    let fills = fill_count_spec(cs, vertical);
    let remaining = sat_sub(available, fixed_total_spec(cs, vertical));
    let fc = if fills > u16::MAX { u16::MAX as int } else { fills };
    let (each, rem) = if fills > 0 { (remaining / fc, remaining % fc) } else { (0, 0) };
    (cx, cy, cw, ch, gap, each, rem)
}

/// The cell of child `i` when it starts at `(cur_x, cur_y)` after
/// `assigned` fill children, with the position of the next child and the
/// new count: a fill child takes its share along the axis (the first `rem`
/// of them one cell more) and what is left across it; the size is clamped
/// by the child's bounds and by the room left in the content area; the next
/// child starts after it and a gap.
pub open spec fn layout_step(p: ContainerProps, cs: Seq<ChildProps>, i: int, cur_x: int, cur_y: int, assigned: int)
    -> (WindowView, int, int, int) {
    let (cx, cy, cw, ch, gap, each, rem) = layout_params(p, cs);
    let c = cs[i];
    let vertical = p.layout_direction == LayoutDirection::Vertical;
    let rw = sat_sub(cw, cur_x - cx);
    let rh = sat_sub(ch, cur_y - cy);
    let share = sat16(each + if assigned < rem { 1int } else { 0int });
    let main_fill = axis_spec(c, vertical, true) is Fill;
    let main0 = match axis_spec(c, vertical, true) {
        SizeSpec::Fill => share,
        SizeSpec::Fixed(v) => v as int,
        SizeSpec::Auto => axis_intrinsic(c, vertical, true) as int,
    };
    let cross0 = match axis_spec(c, vertical, false) {
        SizeSpec::Fill => if vertical { rw } else { rh },
        SizeSpec::Fixed(v) => v as int,
        SizeSpec::Auto => axis_intrinsic(c, vertical, false) as int,
    };
    let (w0, h0) = if vertical { (cross0, main0) } else { (main0, cross0) };
    let cwc = c.constraints.width.clamp_spec(w0);
    let w = if cwc < rw { cwc } else { rw };
    let chc = c.constraints.height.clamp_spec(h0);
    let h = if chc < rh { chc } else { rh };
    let view = WindowView {
        x_offset: cur_x as u16,
        y_offset: cur_y as u16,
        scroll_x: 0,
        scroll_y: 0,
        width: w as u16,
        height: h as u16,
    };
    let more = i + 1 < cs.len();
    let (nx, ny) = if vertical {
        (cur_x, if more { sat16(sat16(cur_y + h) + gap) } else { sat16(cur_y + h) })
    } else {
        (if more { sat16(sat16(cur_x + w) + gap) } else { sat16(cur_x + w) }, cur_y)
    };
    (view, nx, ny, if main_fill { sat16(assigned + 1) } else { assigned })
}

/// The cells of the first `k` children, with the position of the next one
/// and the number of fill children placed.
pub open spec fn layout_fold(p: ContainerProps, cs: Seq<ChildProps>, k: nat) -> (Seq<WindowView>, int, int, int)
    decreases k,
{
    if k == 0 {
        (Seq::empty(), layout_params(p, cs).0, layout_params(p, cs).1, 0)
    } else {
        let prev = layout_fold(p, cs, (k - 1) as nat);
        let st = layout_step(p, cs, k - 1, prev.1, prev.2, prev.3);
        (prev.0.push(st.0), st.1, st.2, st.3)
    }
}

/// The cells the children of a container `p` are drawn in, in order.
pub open spec fn layout_spec(p: ContainerProps, cs: Seq<ChildProps>) -> Seq<WindowView> {
    layout_fold(p, cs, cs.len()).0
}

/// A widget container that stacks its children.
pub struct Container {
    x: u16,
    y: u16,
    width: u16,
    height: u16,
    layout_direction: LayoutDirection,
    padding: Padding,
    gap: Option<Gap>,
    row_gap: Option<Gap>,
    column_gap: Option<Gap>,
    content_alignment: ContentAlignment,
    auto_size: bool,
    fullscreen: bool,
    border: BorderConfig,
    background_color: Option<ColorPair>,
    should_fill: bool,
    title: Option<String>,
    title_alignment: TitleAlignment,
    focused: bool,
    children: Vec<ContainerChild>,
}

impl Container {
    /// The settings, as plain values.
    pub closed spec fn props(&self) -> ContainerProps {
        ContainerProps {
            x: self.x,
            y: self.y,
            width: self.width,
            height: self.height,
            layout_direction: self.layout_direction,
            padding: self.padding,
            gap: self.gap,
            row_gap: self.row_gap,
            column_gap: self.column_gap,
            content_alignment: self.content_alignment,
            auto_size: self.auto_size,
            fullscreen: self.fullscreen,
            border: self.border,
            background_color: self.background_color,
            should_fill: self.should_fill,
            title: match self.title {
                Some(t) => Some(t@),
                None => None,
            },
            title_alignment: self.title_alignment,
            focused: self.focused,
        }
    }

    /// The stored children, in order.
    pub closed spec fn child_entries(&self) -> Seq<ContainerChild> {
        self.children@
    }

    /// The children's layout settings, in order.
    pub closed spec fn child_props(&self) -> Seq<ChildProps> {
        self.children@.map_values(|c: ContainerChild| c.props)
    }

    /// The default settings of a new container before it sizes itself.
    pub open spec fn initial_props() -> ContainerProps {
        ContainerProps {
            x: 0,
            y: 0,
            width: 0,
            height: 0,
            layout_direction: LayoutDirection::Vertical,
            padding: Padding { top: 0, right: 0, bottom: 0, left: 0 },
            gap: None,
            row_gap: None,
            column_gap: None,
            content_alignment: ContentAlignment::Normal,
            auto_size: true,
            fullscreen: false,
            border: BorderConfig {
                sides: BorderSides { top: false, right: false, bottom: false, left: false },
                chars: BorderChars::single_line_spec(),
                color: ColorPair { fg: Color::White, bg: Color::Black },
                focused_color: None,
            },
            background_color: None,
            should_fill: false,
            title: None,
            title_alignment: TitleAlignment::Left,
            focused: false,
        }
    }

    /// Resizes to the content when the container sizes itself.
    fn recalculate_size(&mut self)
        ensures
            final(self).props() == resized(old(self).props(), old(self).child_props()),
            final(self).child_props() == old(self).child_props(),
            final(self).child_entries() == old(self).child_entries(),
    {
        if !self.auto_size || self.fullscreen {
            return;
        }
        let ghost cs = self.child_props();
        let ghost ws = cs.map_values(|c: ChildProps| c.intrinsic_width);
        let ghost hs = cs.map_values(|c: ChildProps| c.intrinsic_height);
        let bl: u16 = if self.border.sides.left { 1 } else { 0 };
        let br: u16 = if self.border.sides.right { 1 } else { 0 };
        let bt: u16 = if self.border.sides.top { 1 } else { 0 };
        let bb: u16 = if self.border.sides.bottom { 1 } else { 0 };
        let gap = self.autosize_gap_pixels();
        let mut cw: u16 = 0;
        let mut ch: u16 = 0;
        let n = self.children.len();
        let vertical = match self.layout_direction {
            LayoutDirection::Vertical => true,
            LayoutDirection::Horizontal => false,
        };
        let mut i: usize = 0;
        while i < n
            invariant
                n == self.children@.len(),
                cs == self.child_props(),
                ws == cs.map_values(|c: ChildProps| c.intrinsic_width),
                hs == cs.map_values(|c: ChildProps| c.intrinsic_height),
                i <= n,
                vertical ==> cw == max_extent(ws.take(i as int)) && ch == stack_extent(hs.take(i as int), gap),
                !vertical ==> cw == stack_extent(ws.take(i as int), gap) && ch == max_extent(hs.take(i as int)),
            decreases n - i,
        {
            let w = self.children[i].props.intrinsic_width;
            let h = self.children[i].props.intrinsic_height;
            proof {
                assert(ws.take(i + 1).drop_last() == ws.take(i as int));
                assert(hs.take(i + 1).drop_last() == hs.take(i as int));
                assert(ws.take(i + 1).last() == w);
                assert(hs.take(i + 1).last() == h);
            }
            if vertical {
                if w > cw {
                    cw = w;
                }
                if i > 0 {
                    ch = ch.saturating_add(gap);
                }
                ch = ch.saturating_add(h);
            } else {
                if h > ch {
                    ch = h;
                }
                if i > 0 {
                    cw = cw.saturating_add(gap);
                }
                cw = cw.saturating_add(w);
            }
            i = i + 1;
        }
        proof {
            assert(ws.take(n as int) == ws);
            assert(hs.take(n as int) == hs);
        }
        self.width = cw.saturating_add(bl).saturating_add(self.padding.left).saturating_add(self.padding.right)
            .saturating_add(br);
        self.height = ch.saturating_add(bt).saturating_add(self.padding.top).saturating_add(self.padding.bottom)
            .saturating_add(bb);
    }

    /// The gap used when sizing to the content.
    pub fn autosize_gap_pixels(&self) -> (r: u16)
        ensures
            r == autosize_gap_spec(self.props()),
    {
        let gap = match self.layout_direction {
            LayoutDirection::Vertical => if self.row_gap.is_some() { self.row_gap } else { self.gap },
            LayoutDirection::Horizontal => if self.column_gap.is_some() { self.column_gap } else { self.gap },
        };
        match gap {
            Some(Gap::Pixels(n)) => n,
            Some(Gap::Percent(_)) => 1,
            None => 0,
        }
    }

    /// The gap used for drawing, given the space along the layout axis.
    pub fn resolve_gap(&self, available_space: u16) -> (r: u16)
        ensures
            r == resolve_gap_spec(self.props(), available_space),
    {
        let gap = match self.layout_direction {
            LayoutDirection::Vertical => if self.row_gap.is_some() { self.row_gap } else { self.gap },
            LayoutDirection::Horizontal => if self.column_gap.is_some() { self.column_gap } else { self.gap },
        };
        match gap {
            Some(Gap::Pixels(n)) => n,
            Some(Gap::Percent(pct)) => {
                let percent: u32 = if pct > 100 { 100 } else { pct as u32 };
                assert(available_space as u32 * percent <= 6553500) by (nonlinear_arith)
                    requires available_space <= 65535, percent <= 100;
                let v = (available_space as u32 * percent) / 100;
                assert(v <= available_space) by (nonlinear_arith)
                    requires v == (available_space as u32 * percent) / 100, percent <= 100;
                if v < 1 { 1 } else { v as u16 }
            },
            None => 0,
        }
    }

    /// An empty vertical container that sizes itself to its content.
    pub fn new() -> (r: Self)
        ensures
            r.props() == resized(Self::initial_props(), Seq::empty()),
            r.child_props() == Seq::<ChildProps>::empty(),
    {
        let mut this = Container {
            x: 0,
            y: 0,
            width: 0,
            height: 0,
            layout_direction: LayoutDirection::Vertical,
            padding: Padding::uniform(0),
            gap: None,
            row_gap: None,
            column_gap: None,
            content_alignment: ContentAlignment::Normal,
            auto_size: true,
            fullscreen: false,
            border: BorderConfig::no_sides(BorderChars::single_line(), ColorPair::new(Color::White, Color::Black)),
            background_color: None,
            should_fill: false,
            title: None,
            title_alignment: TitleAlignment::Left,
            focused: false,
            children: Vec::new(),
        };
        proof {
            assert(this.child_props() =~= Seq::<ChildProps>::empty());
        }
        this.recalculate_size();
        this
    }

    /// A new vertical container.
    pub fn vertical() -> (r: Self)
        ensures
            r.props() == resized(ContainerProps { layout_direction: LayoutDirection::Vertical,
                ..resized(Self::initial_props(), Seq::empty()) }, Seq::empty()),
            r.child_props() == Seq::<ChildProps>::empty(),
    {
        Self::new().with_layout_direction(LayoutDirection::Vertical)
    }

    /// A new horizontal container.
    pub fn horizontal() -> (r: Self)
        ensures
            r.props() == resized(ContainerProps { layout_direction: LayoutDirection::Horizontal,
                ..resized(Self::initial_props(), Seq::empty()) }, Seq::empty()),
            r.child_props() == Seq::<ChildProps>::empty(),
    {
        Self::new().with_layout_direction(LayoutDirection::Horizontal)
    }

    /// A container that fills the window and does not size itself.
    pub fn fullscreen() -> (r: Self)
        ensures
            r.props() == (ContainerProps { fullscreen: true, auto_size: false,
                padding: Padding { top: 0, right: 0, bottom: 0, left: 0 },
                ..resized(Self::initial_props(), Seq::empty()) }),
            r.child_props() == Seq::<ChildProps>::empty(),
    {
        let mut this = Self::new();
        this.fullscreen = true;
        this.auto_size = false;
        this.padding = Padding::uniform(0);
        this
    }

    /// Places and sizes the container; it no longer sizes itself.
    pub fn with_position_and_size(self, x: u16, y: u16, width: u16, height: u16) -> (r: Self)
        ensures
            r.props() == (ContainerProps { x, y, width, height, auto_size: false, ..self.props() }),
            r.child_props() == self.child_props(),
            r.child_entries() == self.child_entries(),
    {
        let mut this = self;
        this.x = x;
        this.y = y;
        this.width = width;
        this.height = height;
        this.auto_size = false;
        this
    }

    /// Sets the stacking axis.
    pub fn with_layout_direction(self, direction: LayoutDirection) -> (r: Self)
        ensures
            r.props() == resized(ContainerProps { layout_direction: direction, ..self.props() }, self.child_props()),
            r.child_props() == self.child_props(),
            r.child_entries() == self.child_entries(),
    {
        let mut this = self;
        this.layout_direction = direction;
        this.recalculate_size();
        this
    }

    /// Sets the padding.
    pub fn with_padding(self, padding: Padding) -> (r: Self)
        ensures
            r.props() == resized(ContainerProps { padding, ..self.props() }, self.child_props()),
            r.child_props() == self.child_props(),
            r.child_entries() == self.child_entries(),
    {
        let mut this = self;
        this.padding = padding;
        this.recalculate_size();
        this
    }

    /// Sets the gap between children on both axes.
    pub fn with_gap(self, gap: Gap) -> (r: Self)
        ensures
            r.props() == resized(ContainerProps { gap: Some(gap), ..self.props() }, self.child_props()),
            r.child_props() == self.child_props(),
            r.child_entries() == self.child_entries(),
    {
        let mut this = self;
        this.gap = Some(gap);
        this.recalculate_size();
        this
    }

    /// Sets the gap between rows (vertical stacking).
    pub fn with_row_gap(self, gap: Gap) -> (r: Self)
        ensures
            r.props() == resized(ContainerProps { row_gap: Some(gap), ..self.props() }, self.child_props()),
            r.child_props() == self.child_props(),
            r.child_entries() == self.child_entries(),
    {
        let mut this = self;
        this.row_gap = Some(gap);
        this.recalculate_size();
        this
    }

    /// Sets the gap between columns (horizontal stacking).
    pub fn with_column_gap(self, gap: Gap) -> (r: Self)
        ensures
            r.props() == resized(ContainerProps { column_gap: Some(gap), ..self.props() }, self.child_props()),
            r.child_props() == self.child_props(),
            r.child_entries() == self.child_entries(),
    {
        let mut this = self;
        this.column_gap = Some(gap);
        this.recalculate_size();
        this
    }

    /// Sets the content alignment.
    pub fn with_content_alignment(self, alignment: ContentAlignment) -> (r: Self)
        ensures
            r.props() == (ContainerProps { content_alignment: alignment, ..self.props() }),
            r.child_props() == self.child_props(),
            r.child_entries() == self.child_entries(),
    {
        let mut this = self;
        this.content_alignment = alignment;
        this
    }

    /// Draws a border on exactly the given sides.
    pub fn with_border_sides(self, sides: Vec<BorderSide>) -> (r: Self)
        ensures
            r.props() == resized(ContainerProps { border: BorderConfig { sides: BorderSides::from_seq(sides@),
                ..self.props().border }, ..self.props() }, self.child_props()),
            r.child_props() == self.child_props(),
            r.child_entries() == self.child_entries(),
    {
        let mut this = self;
        this.border.sides = BorderSides::from_vec(&sides);
        this.recalculate_size();
        this
    }

    /// Draws a border on all four sides.
    pub fn with_border(self) -> (r: Self)
        ensures
            r.props() == resized(ContainerProps { border: BorderConfig {
                sides: BorderSides { top: true, right: true, bottom: true, left: true },
                ..self.props().border }, ..self.props() }, self.child_props()),
            r.child_props() == self.child_props(),
            r.child_entries() == self.child_entries(),
    {
        let mut this = self;
        this.border.sides = BorderSides::all();
        this.recalculate_size();
        this
    }

    /// Removes the border.
    pub fn without_border(self) -> (r: Self)
        ensures
            r.props() == resized(ContainerProps { border: BorderConfig {
                sides: BorderSides { top: false, right: false, bottom: false, left: false },
                ..self.props().border }, ..self.props() }, self.child_props()),
            r.child_props() == self.child_props(),
            r.child_entries() == self.child_entries(),
    {
        let mut this = self;
        this.border.sides = BorderSides::none();
        this.recalculate_size();
        this
    }

    /// The border with all four sides when none was drawn.
    pub open spec fn ensure_sides(b: BorderConfig) -> BorderConfig {
        if !(b.sides.top || b.sides.right || b.sides.bottom || b.sides.left) {
            BorderConfig { sides: BorderSides { top: true, right: true, bottom: true, left: true }, ..b }
        } else {
            b
        }
    }

    /// Sets the border glyphs; a container without border gets one on all sides.
    pub fn with_border_chars(self, chars: BorderChars) -> (r: Self)
        ensures
            r.props() == resized(ContainerProps { border: Self::ensure_sides(BorderConfig { chars,
                ..self.props().border }), ..self.props() }, self.child_props()),
            r.child_props() == self.child_props(),
            r.child_entries() == self.child_entries(),
    {
        let mut this = self;
        this.border.chars = chars;
        if this.border.sides.is_empty() {
            this.border.sides = BorderSides::all();
        }
        this.recalculate_size();
        this
    }

    /// Sets the border color; a container without border gets one on all sides.
    pub fn with_border_color(self, color: ColorPair) -> (r: Self)
        ensures
            r.props() == resized(ContainerProps { border: Self::ensure_sides(BorderConfig { color,
                ..self.props().border }), ..self.props() }, self.child_props()),
            r.child_props() == self.child_props(),
            r.child_entries() == self.child_entries(),
    {
        let mut this = self;
        this.border.color = color;
        if this.border.sides.is_empty() {
            this.border.sides = BorderSides::all();
        }
        this.recalculate_size();
        this
    }

    /// Sets the border color used while focused; a container without border
    /// gets one on all sides.
    pub fn with_focused_border_color(self, color: ColorPair) -> (r: Self)
        ensures
            r.props() == resized(ContainerProps { border: Self::ensure_sides(BorderConfig {
                focused_color: Some(color), ..self.props().border }), ..self.props() }, self.child_props()),
            r.child_props() == self.child_props(),
            r.child_entries() == self.child_entries(),
    {
        let mut this = self;
        this.border.focused_color = Some(color);
        if this.border.sides.is_empty() {
            this.border.sides = BorderSides::all();
        }
        this.recalculate_size();
        this
    }

    /// Sets a title shown in the top border (which is turned on).
    pub fn with_title(self, title: &str) -> (r: Self)
        ensures
            r.props() == resized(ContainerProps { title: Some(title@), border: BorderConfig {
                sides: BorderSides { top: true, ..self.props().border.sides }, ..self.props().border },
                ..self.props() }, self.child_props()),
            r.child_props() == self.child_props(),
            r.child_entries() == self.child_entries(),
    {
        let mut this = self;
        this.title = Some(crate::text::to_owned_string(title));
        this.border.sides.insert(BorderSide::Top);
        this.recalculate_size();
        this
    }

    /// Sets where the title sits.
    pub fn with_title_alignment(self, alignment: TitleAlignment) -> (r: Self)
        ensures
            r.props() == (ContainerProps { title_alignment: alignment, ..self.props() }),
            r.child_props() == self.child_props(),
            r.child_entries() == self.child_entries(),
    {
        let mut this = self;
        this.title_alignment = alignment;
        this
    }

    /// Fills the content area with `color`.
    pub fn with_background_color(self, color: ColorPair) -> (r: Self)
        ensures
            r.props() == (ContainerProps { background_color: Some(color), should_fill: true, ..self.props() }),
            r.child_props() == self.child_props(),
            r.child_entries() == self.child_entries(),
    {
        let mut this = self;
        this.background_color = Some(color);
        this.should_fill = true;
        this
    }

    /// Turns background filling on or off.
    pub fn with_fill(self, fill: bool) -> (r: Self)
        ensures
            r.props() == (ContainerProps { should_fill: fill, ..self.props() }),
            r.child_props() == self.child_props(),
            r.child_entries() == self.child_entries(),
    {
        let mut this = self;
        this.should_fill = fill;
        this
    }

    /// Appends `cc` to the children.
    fn append_child(&mut self, cc: ContainerChild)
        ensures
            final(self).props() == old(self).props(),
            final(self).child_props() == old(self).child_props().push(cc.props),
            final(self).child_entries() == old(self).child_entries().push(cc),
    {
        self.children.push(cc);
        assert(self.child_props() =~= old(self).child_props().push(cc.props));
    }

    /// Appends a boxed child of intrinsic size `(w, h)` with the given size rules.
    fn push_boxed(self, b: DynWidget, w: u16, h: u16, width: SizeSpec, height: SizeSpec) -> (r: Self)
        ensures
            r.props() == resized(self.props(), r.child_props()),
            r.child_props() == self.child_props().push(ChildProps { width, height,
                constraints: ChildConstraints { width: AxisConstraints { min: 0, max: None },
                    height: AxisConstraints { min: 0, max: None } },
                intrinsic_width: w, intrinsic_height: h }),
            r.child_entries() == self.child_entries().push(r.child_entries().last()),
            r.child_entries().last().widget == b,
    {
        let mut this = self;
        let props = ChildProps { width, height, constraints: ChildConstraints::default(), intrinsic_width: w,
            intrinsic_height: h };
        let cc = ContainerChild { widget: b, props };
        let ghost entries = self.child_entries().push(cc);
        this.append_child(cc);
        assert(this.child_entries() == entries);
        this.recalculate_size();
        assert(this.child_entries() == entries);
        assert(entries.last() == cc);
        assert(entries.drop_last() =~= self.child_entries());
        this
    }

    /// Appends a child with the given size rules.
    fn push_child<T: BoxedWidget>(self, child: T, width: SizeSpec, height: SizeSpec) -> (r: Self)
        ensures
            r.props() == resized(self.props(), r.child_props()),
            r.child_props() == self.child_props().push(ChildProps { width, height,
                constraints: ChildConstraints { width: AxisConstraints { min: 0, max: None },
                    height: AxisConstraints { min: 0, max: None } },
                intrinsic_width: child.size_spec().0, intrinsic_height: child.size_spec().1 }),
            r.child_entries() == self.child_entries().push(r.child_entries().last()),
            child_is(&r, self.child_props().len() as int, &child),
    {
        let (w, h) = child.get_size();
        let b = child.into_boxed();
        let r = self.push_boxed(b, w, h, width, height);
        proof {
            let n = self.child_entries().len() as int;
            assert(r.child_entries()[n] == r.child_entries().last());
            assert(r.child_sizes()[n] == r.child_entries()[n].widget.widget.size_spec());
        }
        r
    }

    /// Appends a child that fills across the layout axis and keeps its own
    /// size along it.
    pub fn add_child<T: BoxedWidget>(self, child: T) -> (r: Self)
        ensures
            r.props() == resized(self.props(), r.child_props()),
            r.child_props() == self.child_props().push(ChildProps {
                width: add_child_specs(self.props().layout_direction).0,
                height: add_child_specs(self.props().layout_direction).1,
                constraints: ChildConstraints { width: AxisConstraints { min: 0, max: None },
                    height: AxisConstraints { min: 0, max: None } },
                intrinsic_width: child.size_spec().0, intrinsic_height: child.size_spec().1 }),
            r.child_entries() == self.child_entries().push(r.child_entries().last()),
            child_is(&r, self.child_props().len() as int, &child),
    {
        let (width, height) = match self.layout_direction {
            LayoutDirection::Vertical => (SizeSpec::Fill, SizeSpec::Auto),
            LayoutDirection::Horizontal => (SizeSpec::Auto, SizeSpec::Fill),
        };
        self.push_child(child, width, height)
    }

    /// Appends a child that fills on both axes.
    pub fn add_child_fill<T: BoxedWidget>(self, child: T) -> (r: Self)
        ensures
            r.props() == resized(self.props(), r.child_props()),
            r.child_props() == self.child_props().push(ChildProps { width: SizeSpec::Fill, height: SizeSpec::Fill,
                constraints: ChildConstraints { width: AxisConstraints { min: 0, max: None },
                    height: AxisConstraints { min: 0, max: None } },
                intrinsic_width: child.size_spec().0, intrinsic_height: child.size_spec().1 }),
            r.child_entries() == self.child_entries().push(r.child_entries().last()),
            child_is(&r, self.child_props().len() as int, &child),
    {
        self.push_child(child, SizeSpec::Fill, SizeSpec::Fill)
    }

    /// Appends a child of `main` cells along the layout axis that fills across it.
    pub fn add_child_fixed_main<T: BoxedWidget>(self, child: T, main: u16) -> (r: Self)
        ensures
            r.props() == resized(self.props(), r.child_props()),
            r.child_props() == self.child_props().push(ChildProps {
                width: match self.props().layout_direction {
                    LayoutDirection::Vertical => SizeSpec::Fill,
                    LayoutDirection::Horizontal => SizeSpec::Fixed(main),
                },
                height: match self.props().layout_direction {
                    LayoutDirection::Vertical => SizeSpec::Fixed(main),
                    LayoutDirection::Horizontal => SizeSpec::Fill,
                },
                constraints: ChildConstraints { width: AxisConstraints { min: 0, max: None },
                    height: AxisConstraints { min: 0, max: None } },
                intrinsic_width: child.size_spec().0, intrinsic_height: child.size_spec().1 }),
            r.child_entries() == self.child_entries().push(r.child_entries().last()),
            child_is(&r, self.child_props().len() as int, &child),
    {
        let (width, height) = match self.layout_direction {
            LayoutDirection::Vertical => (SizeSpec::Fill, SizeSpec::Fixed(main)),
            LayoutDirection::Horizontal => (SizeSpec::Fixed(main), SizeSpec::Fill),
        };
        self.push_child(child, width, height)
    }

    /// Bounds the width of the last child added (nothing without children).
    pub fn last_child_width_constraints(self, min: u16, max: Option<u16>) -> (r: Self)
        ensures
            r.props() == self.props(),
            r.child_props() == (if self.child_props().len() == 0 {
                self.child_props()
            } else {
                self.child_props().update(self.child_props().len() - 1, ChildProps {
                    constraints: ChildConstraints { width: AxisConstraints { min, max },
                        ..self.child_props().last().constraints }, ..self.child_props().last() })
            }),
    {
        let mut this = self;
        let n = this.children.len();
        if n > 0 {
            let mut last = this.children.pop().unwrap();
            last.props.constraints.width = AxisConstraints::new(min, max);
            this.children.push(last);
            proof {
                assert(this.child_props() =~= self.child_props().update(self.child_props().len() - 1, last.props));
            }
        }
        this
    }

    /// Bounds the height of the last child added (nothing without children).
    pub fn last_child_height_constraints(self, min: u16, max: Option<u16>) -> (r: Self)
        ensures
            r.props() == self.props(),
            r.child_props() == (if self.child_props().len() == 0 {
                self.child_props()
            } else {
                self.child_props().update(self.child_props().len() - 1, ChildProps {
                    constraints: ChildConstraints { height: AxisConstraints { min, max },
                        ..self.child_props().last().constraints }, ..self.child_props().last() })
            }),
    {
        let mut this = self;
        let n = this.children.len();
        if n > 0 {
            let mut last = this.children.pop().unwrap();
            last.props.constraints.height = AxisConstraints::new(min, max);
            this.children.push(last);
            proof {
                assert(this.child_props() =~= self.child_props().update(self.child_props().len() - 1, last.props));
            }
        }
        this
    }

    /// The stacking axis.
    pub fn layout_direction(&self) -> (r: LayoutDirection)
        ensures
            r == self.props().layout_direction,
    {
        self.layout_direction
    }

    /// Whether the container is drawn as focused.
    pub fn is_focused(&self) -> (r: bool)
        ensures
            r == self.props().focused,
    {
        self.focused
    }

    /// Marks the container as focused or not.
    pub fn set_focused(self, focused: bool) -> (r: Self)
        ensures
            r.props() == (ContainerProps { focused, ..self.props() }),
            r.child_props() == self.child_props(),
            r.child_entries() == self.child_entries(),
    {
        let mut this = self;
        this.focused = focused;
        this
    }

    /// The number of children.
    pub fn child_count(&self) -> (r: usize)
        ensures
            r == self.child_props().len(),
            r == self.child_sizes().len(),
            r == self.child_entries().len(),
    {
        self.children.len()
    }

    /// The sizes the children report, in order.
    pub closed spec fn child_sizes(&self) -> Seq<(u16, u16)> {
        self.children@.map_values(|c: ContainerChild| c.widget.widget.size_spec())
    }

    /// The size child `i` reports.
    pub fn child_size(&self, i: usize) -> (r: (u16, u16))
        requires
            i < self.child_sizes().len(),
        ensures
            r == self.child_sizes()[i as int],
    {
        self.children[i].widget.widget.get_size()
    }

    /// Whether `b` is `a` after one builder call: the same children (a
    /// setting changed), or the same children and one more at the end (a
    /// child added).
    pub open spec fn one_step(a: &Container, b: &Container) -> bool {
        b.child_entries() == a.child_entries() || b.child_entries() == a.child_entries().push(b.child_entries().last())
    }

    /// The number of steps along `steps` that add a child.
    pub open spec fn adds_in(steps: Seq<Container>) -> int
        decreases steps.len(),
    {
        if steps.len() <= 1 {
            0
        } else {
            Self::adds_in(steps.drop_last()) + if steps.last().child_entries().len() > steps[steps.len() - 2].child_entries().len() {
                1int
            } else {
                0int
            }
        }
    }

    /// Children stay in the order they were added, none dropped and none
    /// repeated: along any run of builder calls, each container's children
    /// come first, in order, among those of the last one, which has one more
    /// child for each call that added one.
    pub proof fn lemma_children_in_insertion_order(steps: Seq<Container>)
        requires
            steps.len() >= 1,
            forall|j: int| 0 <= j < steps.len() - 1 ==> #[trigger] Self::one_step(&steps[j], &steps[j + 1]),
        ensures
            steps.last().child_entries().len() == steps[0].child_entries().len() + Self::adds_in(steps),
            forall|j: int| 0 <= j < steps.len() ==> (#[trigger] steps[j].child_entries()).is_prefix_of(
                steps.last().child_entries()),
        decreases steps.len(),
    {
        let n = steps.len();
        if n == 1 {
            assert(steps.last().child_entries().take(steps[0].child_entries().len() as int) =~= steps[0].child_entries());
        } else {
            let init = steps.drop_last();
            assert forall|j: int| 0 <= j < init.len() - 1 implies #[trigger] Self::one_step(&init[j], &init[j + 1]) by {
                assert(init[j] == steps[j] && init[j + 1] == steps[j + 1]);
                assert(Self::one_step(&steps[j], &steps[j + 1]));
            }
            Self::lemma_children_in_insertion_order(init);
            let a = steps[n - 2].child_entries();
            let b = steps[n - 1].child_entries();
            assert(init.last() == steps[n - 2]);
            let k = n - 2;
            assert(Self::one_step(&steps[k], &steps[k + 1]));
            assert(k + 1 == n - 1);
            assert(a.is_prefix_of(b)) by {
                if b != a {
                    assert(b.take(a.len() as int) =~= a);
                } else {
                    assert(b.take(a.len() as int) =~= a);
                }
            }
            assert forall|j: int| 0 <= j < n implies (#[trigger] steps[j].child_entries()).is_prefix_of(b) by {
                if j < n - 1 {
                    assert(steps[j] == init[j]);
                    let c = steps[j].child_entries();
                    assert(c.is_prefix_of(a));
                    assert(b.take(c.len() as int) =~= a.take(c.len() as int));
                } else {
                    assert(b.take(b.len() as int) =~= b);
                }
            }
        }
    }

    /// A child keeps reporting and drawing as it did while the children
    /// before and up to it stay: when more children are appended, or only the
    /// container's own settings change.
    pub proof fn lemma_child_is_kept<T: Widget>(a: &Container, b: &Container, i: int, w: &T)
        requires
            child_is(a, i, w),
            a.child_entries().is_prefix_of(b.child_entries()),
        ensures
            child_is(b, i, w),
    {
        assert(a.children@[i] == b.children@[i]);
        assert(b.child_sizes()[i] == b.children@[i].widget.widget.size_spec());
        assert(a.child_sizes()[i] == a.children@[i].widget.widget.size_spec());
        assert forall|v: Seq<WindowView>, s: (u16, u16), bf: Seq<OpView>, af: Seq<OpView>, res: Result<(), Error>|
            #[trigger] b.child_draws(i, v, s, bf, af, res) == w.draws(v, s, bf, af, res) by {
            assert(b.child_draws(i, v, s, bf, af, res) == a.child_draws(i, v, s, bf, af, res));
        }
    }

    /// Whether drawing child `i` with `views` active on a surface of `size`
    /// takes the recorded writes from `before` to `after` and returns `r`
    /// (see [`Widget::draws`]).
    pub closed spec fn child_draws(&self, i: int, views: Seq<WindowView>, size: (u16, u16), before: Seq<OpView>,
        after: Seq<OpView>, r: Result<(), Error>) -> bool {
        self.children@[i].widget.widget.draws(views, size, before, after, r)
    }

    /// Whether the recorded writes go through `mids` as the first children
    /// are drawn in turn, each through its cell of `cells` under `views` on a
    /// surface of `size`, all with success: child `i` takes them from
    /// `mids[i]` to `mids[i + 1]`.
    pub open spec fn children_drawn_ok(&self, cells: Seq<WindowView>, views: Seq<WindowView>, size: (u16, u16),
        mids: Seq<Seq<OpView>>) -> bool {
        forall|i: int| 0 <= i < mids.len() - 1 ==> #[trigger] self.child_draws(i, views.push(cells[i]), size,
            mids[i], mids[i + 1], Ok(()))
    }

    /// Drawing the children in turn, each through its cell of `cells`,
    /// stopping at the first that fails: the writes go from `before` through
    /// `mids`, the first `mids.len() - 1` children succeed, and either all did
    /// and the result is `Ok`, or the next one failed and its error is the
    /// result.
    pub open spec fn children_drawn(&self, cells: Seq<WindowView>, views: Seq<WindowView>, size: (u16, u16),
        before: Seq<OpView>, after: Seq<OpView>, r: Result<(), Error>) -> bool {
        exists|mids: Seq<Seq<OpView>>| {
            &&& 1 <= mids.len() <= self.child_sizes().len() + 1
            &&& mids[0] == before
            &&& #[trigger] self.children_drawn_ok(cells, views, size, mids)
            &&& if mids.len() - 1 == self.child_sizes().len() {
                after == mids.last() && r is Ok
            } else {
                r is Err && self.child_draws(mids.len() - 1, views.push(cells[mids.len() - 1]), size, mids.last(), after, r)
            }
        }
    }

    /// The padding.
    pub fn padding(&self) -> (r: Padding)
        ensures
            r == self.props().padding,
    {
        self.padding
    }

    /// The border settings.
    pub fn border_config(&self) -> (r: &BorderConfig)
        ensures
            *r == self.props().border,
    {
        &self.border
    }

    /// The content rectangle inside border and padding as (x, y, width,
    /// height); the origin additions saturate at `u16::MAX`.
    pub open spec fn content_area_spec(p: ContainerProps) -> (int, int, int, int) {
        (sat16(sat16(p.x + side_w(p.border.sides.left)) + p.padding.left),
        sat16(sat16(p.y + side_w(p.border.sides.top)) + p.padding.top),
        sat_sub(p.width as int, side_w(p.border.sides.left) + p.padding.left + p.padding.right
            + side_w(p.border.sides.right)),
        sat_sub(p.height as int, side_w(p.border.sides.top) + p.padding.top + p.padding.bottom
            + side_w(p.border.sides.bottom)))
    }

    /// The content rectangle inside border and padding as (x, y, width, height).
    pub fn content_area(&self) -> (r: (u16, u16, u16, u16))
        ensures
            (r.0 as int, r.1 as int, r.2 as int, r.3 as int) == Self::content_area_spec(self.props()),
    {
        let bl: u16 = if self.border.sides.left { 1 } else { 0 };
        let br: u16 = if self.border.sides.right { 1 } else { 0 };
        let bt: u16 = if self.border.sides.top { 1 } else { 0 };
        let bb: u16 = if self.border.sides.bottom { 1 } else { 0 };
        let x = self.x.saturating_add(bl).saturating_add(self.padding.left);
        let y = self.y.saturating_add(bt).saturating_add(self.padding.top);
        let hw = bl as u32 + self.padding.left as u32 + self.padding.right as u32 + br as u32;
        let vh = bt as u32 + self.padding.top as u32 + self.padding.bottom as u32 + bb as u32;
        let width = if (self.width as u32) > hw { (self.width as u32 - hw) as u16 } else { 0 };
        let height = if (self.height as u32) > vh { (self.height as u32 - vh) as u16 } else { 0 };
        (x, y, width, height)
    }

    /// Draws the background and the border.
    pub fn draw_frame(&self, window: &mut Canvas) -> (r: Result<(), Error>)
        ensures
            r is Ok,
            final(window).ops_view() == old(window).ops_after_each(Self::frame_writes(self.props())),
            final(window).grows_from(old(window)),
            final(window).cursor_view() == old(window).cursor_view(),
    {
        let ops = self.frame_ops();
        window.emit(&ops);
        Ok(())
    }

    /// Draws the children in turn, each through its cell, stopping at the
    /// first that fails.
    pub fn draw_contents(&self, window: &mut Canvas) -> (r: Result<(), Error>)
        ensures
            final(window).grows_from(old(window)),
            final(window).draws_in_cells(old(window), layout_spec(self.props(), self.child_props())),
            self.children_drawn(layout_spec(self.props(), self.child_props()), old(window).views_view(),
                old(window).size_view(), old(window).ops_view(), final(window).ops_view(), r),
    {
        self.draw_children(window)
    }

    /// The border color in effect: the focused color while focused, if set.
    pub open spec fn border_color_spec(p: ContainerProps) -> ColorPair {
        if p.focused {
            match p.border.focused_color {
                Some(c) => c,
                None => p.border.color,
            }
        } else {
            p.border.color
        }
    }

    /// The border color in effect for props `p` (see
    /// [`Container::border_color_spec`]), applied to every border side.
    /// All border writes of props `p`: top, bottom, left, right, each when
    /// its side is on; nothing for an empty container or one without a
    /// border.
    pub open spec fn border_writes(p: ContainerProps) -> Seq<FrameWrite> {
        if p.width == 0 || p.height == 0 || !(p.border.sides.top || p.border.sides.right || p.border.sides.bottom
            || p.border.sides.left) {
            Seq::empty()
        } else {
            let c = Self::border_color_spec(p);
            let chars = p.border.chars;
            (if p.border.sides.top { Self::top_writes(p, chars, c) } else { Seq::empty() })
                + (if p.border.sides.bottom { Self::bottom_writes(p, chars, c) } else { Seq::empty() })
                + (if p.border.sides.left { Self::left_writes(p, chars, c) } else { Seq::empty() })
                + (if p.border.sides.right { Self::right_writes(p, chars, c) } else { Seq::empty() })
        }
    }

    /// The top border: the top-left corner (with a left side), the title or
    /// a line across the cells between the corners, and the top-right corner
    /// (with a right side).
    #[verifier::opaque]
    pub open spec fn top_writes(p: ContainerProps, chars: BorderChars, c: ColorPair) -> Seq<FrameWrite> {
        let hl: int = if p.border.sides.left { 1 } else { 0 };
        let hr: int = if p.border.sides.right { 1 } else { 0 };
        let y = p.y as int;
        let x = sat16(p.x + hl);
        let aw = sat_sub(sat_sub(p.width as int, hl), hr);
        (if p.border.sides.left { seq![(y, p.x as int, seq![chars.top_left], Some(c))] } else { Seq::empty() })
            + Self::top_middle(p, chars, c)
            + (if p.border.sides.right { seq![(y, sat16(p.x + p.width - 1), seq![chars.top_right], Some(c))] } else { Seq::empty() })
    }

    /// The part of the top border between the corners: the title, or a line
    /// across the cells between the corners.
    pub open spec fn top_middle(p: ContainerProps, chars: BorderChars, c: ColorPair) -> Seq<FrameWrite> {
        let hl: int = if p.border.sides.left { 1 } else { 0 };
        let hr: int = if p.border.sides.right { 1 } else { 0 };
        let x = sat16(p.x + hl);
        let aw = sat_sub(sat_sub(p.width as int, hl), hr);
        match p.title {
            Some(t) => Self::title_writes(p, t, x, aw, chars, c),
            None => run_writes(p.y as int, x, aw as nat, chars.horizontal, c),
        }
    }

    /// The title in the top border from column `x`, in `aw` cells: a line up
    /// to the title's padding, a space over its last cell, the title cut to
    /// `aw - 2` cells, then a space and a line up to the end of the cells.
    pub open spec fn title_writes(p: ContainerProps, title: Seq<char>, x: int, aw: int, chars: BorderChars,
        c: ColorPair) -> Seq<FrameWrite> {
        let y = p.y as int;
        let shown = take_cells(title, sat_sub(aw, 2));
        let lp = Self::title_left_padding(p.title_alignment, shown.len() as int, aw);
        let x1 = sat16(x + lp);
        let x3 = x1;
        let x4 = sat16(x3 + shown.len());
        let end = sat16(x + aw);
        let x5 = if x4 < end { x4 + 1 } else { x4 };
        run_writes(y, x, lp as nat, chars.horizontal, c)
            + (if lp > 0 { seq![(y, x1 - 1, seq![' '], Some(c))] } else { Seq::empty() })
            + seq![(y, x3, shown, Some(c))]
            + (if x4 < end { seq![(y, x4, seq![' '], Some(c))] } else { Seq::empty() })
            + (if x5 < end { run_writes(y, x5, (end - x5) as nat, chars.horizontal, c) } else { Seq::empty() })
    }

    /// The bottom border on the last row: the bottom-left corner (with a
    /// left side), a line up to the right corner's column, and the
    /// bottom-right corner (with a right side).
    #[verifier::opaque]
    pub open spec fn bottom_writes(p: ContainerProps, chars: BorderChars, c: ColorPair) -> Seq<FrameWrite> {
        if p.height == 0 {
            Seq::empty()
        } else {
            let y = sat16(p.y + p.height - 1);
            let hl: int = if p.border.sides.left { 1 } else { 0 };
            let x = sat16(p.x + hl);
            let end_x = sat_sub(sat16(p.x + p.width), if p.border.sides.right { 1 } else { 0 });
            (if p.border.sides.left { seq![(y, p.x as int, seq![chars.bottom_left], Some(c))] } else { Seq::empty() })
                + (if x < end_x { run_writes(y, x, (end_x - x) as nat, chars.horizontal, c) } else { Seq::empty() })
                + (if p.border.sides.right && p.width > 0 {
                    seq![(y, sat16(p.x + p.width - 1), seq![chars.bottom_right], Some(c))]
                } else {
                    Seq::empty()
                })
        }
    }

    /// The rows between the top and bottom border, as `[start, end)`.
    pub open spec fn side_rows_spec(p: ContainerProps) -> (int, int) {
        (sat16(p.y + if p.border.sides.top { 1int } else { 0 }),
            sat_sub(sat16(p.y + p.height), if p.border.sides.bottom { 1 } else { 0 }))
    }

    /// The left border: the vertical glyph in the first column, on the rows
    /// between the top and bottom border.
    #[verifier::opaque]
    pub open spec fn left_writes(p: ContainerProps, chars: BorderChars, c: ColorPair) -> Seq<FrameWrite> {
        let (start, end) = Self::side_rows_spec(p);
        column_writes(p.x as int, start, end, chars.vertical, c)
    }

    /// The right border: the vertical glyph in the last column, on the rows
    /// between the top and bottom border.
    #[verifier::opaque]
    pub open spec fn right_writes(p: ContainerProps, chars: BorderChars, c: ColorPair) -> Seq<FrameWrite> {
        if p.width == 0 {
            Seq::empty()
        } else {
            let (start, end) = Self::side_rows_spec(p);
            column_writes(sat16(p.x + p.width - 1), start, end, chars.vertical, c)
        }
    }

    /// The background: every cell of the content area, row by row, a space
    /// in the background color, when one is set and filling is on.
    pub open spec fn background_writes(p: ContainerProps) -> Seq<FrameWrite> {
        if !p.should_fill {
            Seq::empty()
        } else {
            match p.background_color {
                None => Seq::empty(),
                Some(color) => {
                    let (cx, cy, cw, ch) = Self::content_area_spec(p);
                    fill_block(cy, cx, (sat16(cy + ch) - cy) as nat, (sat16(cx + cw) - cx) as nat, color)
                },
            }
        }
    }

    /// Everything the frame of a container with props `p` writes: the
    /// background, then the border.
    pub open spec fn frame_writes(p: ContainerProps) -> Seq<FrameWrite> {
        Self::background_writes(p) + Self::border_writes(p)
    }

    /// Appends the border sides that are on (see [`Container::border_writes`]).
    #[verifier::rlimit(40)]
    fn push_borders(&self, out: &mut Vec<DrawOp>)
        ensures
            ops_views(final(out)@) == ops_views(old(out)@) + Self::border_writes(self.props()),
    {
        if self.width == 0 || self.height == 0 || !self.border.has_border() {
            assert(ops_views(out@) =~= ops_views(out@) + Seq::<FrameWrite>::empty());
            return;
        }
        let color = if self.focused {
            match self.border.focused_color {
                Some(c) => c,
                None => self.border.color,
            }
        } else {
            self.border.color
        };
        let chars = self.border.chars;
        let ghost p = self.props();
        let ghost c = Self::border_color_spec(p);
        assert(c == color);
        let ghost s0 = ops_views(out@);
        if self.border.sides.top {
            self.push_top_border(out, chars, color);
        }
        let ghost t: Seq<FrameWrite> = if p.border.sides.top { Self::top_writes(p, chars, c) } else { Seq::empty() };
        assert(ops_views(out@) =~= s0 + t);
        let ghost s1 = ops_views(out@);
        if self.border.sides.bottom {
            self.push_bottom_border(out, chars, color);
        }
        let ghost bo: Seq<FrameWrite> = if p.border.sides.bottom { Self::bottom_writes(p, chars, c) } else { Seq::empty() };
        assert(ops_views(out@) =~= s1 + bo);
        let ghost s2 = ops_views(out@);
        if self.border.sides.left {
            self.push_left_border(out, chars, color);
        }
        let ghost l: Seq<FrameWrite> = if p.border.sides.left { Self::left_writes(p, chars, c) } else { Seq::empty() };
        assert(ops_views(out@) =~= s2 + l);
        let ghost s3 = ops_views(out@);
        if self.border.sides.right {
            self.push_right_border(out, chars, color);
        }
        let ghost r: Seq<FrameWrite> = if p.border.sides.right { Self::right_writes(p, chars, c) } else { Seq::empty() };
        assert(ops_views(out@) =~= s3 + r);
        proof {
            assert(Self::border_writes(p) == t + bo + l + r);
            assert(ops_views(out@) =~= s0 + (t + bo + l + r));
        }
    }

    /// Appends `count` copies of `c` along row `y` from column `x` on, one
    /// cell at a time; returns the column after the last one.
    fn push_run(out: &mut Vec<DrawOp>, y: u16, x: u16, count: u16, c: char, color: ColorPair) -> (r: u16)
        ensures
            ops_views(final(out)@) == ops_views(old(out)@) + run_writes(y as int, x as int, count as nat, c, color),
            r == sat16(x + count),
    {
        let ghost base = ops_views(out@);
        let x0 = x;
        let mut x = x;
        let mut i: u16 = 0;
        assert(ops_views(out@) =~= base + run_writes(y as int, x0 as int, 0, c, color));
        while i < count
            invariant
                i <= count,
                x == sat16(x0 + i),
                ops_views(out@) == base + run_writes(y as int, x0 as int, i as nat, c, color),
            decreases count - i,
        {
            push_op(out, y, x, char_string(c), Some(color));
            assert(ops_views(out@) =~= base + run_writes(y as int, x0 as int, (i + 1) as nat, c, color));
            x = x.saturating_add(1);
            i = i + 1;
        }
        x
    }

    /// Appends the top border, with the title when there is one.
    #[verifier::rlimit(60)]
    fn push_top_border(&self, out: &mut Vec<DrawOp>, chars: BorderChars, color: ColorPair)
        requires
            self.width > 0,
        ensures
            ops_views(final(out)@) == ops_views(old(out)@) + Self::top_writes(self.props(), chars, color),
    {
        let ghost p = self.props();
        let ghost s0 = ops_views(out@);
        let has_left = self.border.sides.left;
        let has_right = self.border.sides.right;
        let mut x = self.x;
        if has_left {
            push_op(out, self.y, x, char_string(chars.top_left), Some(color));
            x = x.saturating_add(1);
        }
        let ghost s1 = ops_views(out@);
        let available_width = self.width.saturating_sub(if has_left { 1 } else { 0 }).saturating_sub(
            if has_right { 1 } else { 0 });
        match &self.title {
            Some(title) => {
                self.push_title(out, title.as_str(), x, available_width, chars, color);
            },
            None => {
                let _ = Self::push_run(out, self.y, x, available_width, chars.horizontal, color);
            },
        }
        let ghost s2 = ops_views(out@);
        proof {
            let hl: int = if p.border.sides.left { 1 } else { 0 };
            let hr: int = if p.border.sides.right { 1 } else { 0 };
            assert(x == sat16(p.x + hl));
            assert(available_width == sat_sub(sat_sub(p.width as int, hl), hr));
            let lc: Seq<FrameWrite> = if has_left { seq![(p.y as int, p.x as int, seq![chars.top_left], Some(color))] } else { Seq::empty() };
            assert(s1 =~= s0 + lc);
            assert(s2 =~= s1 + Self::top_middle(p, chars, color));
        }
        if has_right {
            push_op(out, self.y, self.x.saturating_add(self.width - 1), char_string(chars.top_right), Some(color));
        }
        proof {
            reveal(Container::top_writes);
            assert(ops_views(out@) =~= s0 + Self::top_writes(p, chars, color));
        }
    }

    /// Where the title starts, counted in cells after the first border cell.
    pub open spec fn title_left_padding(align: TitleAlignment, title_width: int, available_width: int) -> int {
        match align {
            TitleAlignment::Left => 1,
            TitleAlignment::Center => if title_width < available_width {
                (available_width - title_width) / 2
            } else {
                1
            },
            TitleAlignment::Right => sat_sub(available_width, title_width + 1),
        }
    }

    /// The title clipped to `available_width - 2` cells and its left padding.
    fn title_layout(&self, title: &str, available_width: u16) -> (r: (String, u16))
        ensures
            r.0@ == take_cells(title@, sat_sub(available_width as int, 2)),
            r.1 == Self::title_left_padding(self.props().title_alignment, r.0@.len() as int, available_width as int),
    {
        let title_max_width = available_width.saturating_sub(2);
        let display = clip_to_cells(title, title_max_width, TabPolicy::SingleCell);
        let title_width = cell_width(display.as_str(), TabPolicy::SingleCell) as u16;
        let left_padding = match self.title_alignment {
            TitleAlignment::Left => 1,
            TitleAlignment::Center => if title_width < available_width {
                (available_width - title_width) / 2
            } else {
                1
            },
            TitleAlignment::Right => if available_width as u32 > title_width as u32 + 1 {
                available_width - title_width - 1
            } else {
                0
            },
        };
        (display, left_padding)
    }

    /// Appends the title inside the top border: border glyphs, a space, the
    /// title, a space, then glyphs up to the end of the available width.
    fn push_title(&self, out: &mut Vec<DrawOp>, title: &str, start_x: u16, available_width: u16,
        chars: BorderChars, color: ColorPair)
        ensures
            ops_views(final(out)@) == ops_views(old(out)@) + Self::title_writes(self.props(), title@, start_x as int,
                available_width as int, chars, color),
    {
        let ghost p = self.props();
        let ghost s0 = ops_views(out@);
        let (display, left_padding) = self.title_layout(title, available_width);
        let title_width = cell_width(display.as_str(), TabPolicy::SingleCell) as u16;
        let mut x = Self::push_run(out, self.y, start_x, left_padding, chars.horizontal, color);
        let ghost s1 = ops_views(out@);
        if left_padding > 0 {
            x = x.saturating_sub(1);
            push_op(out, self.y, x, char_string(' '), Some(color));
            x = x.saturating_add(1);
        }
        let ghost s2 = ops_views(out@);
        let ghost x3 = x;
        push_op(out, self.y, x, display, Some(color));
        x = x.saturating_add(title_width);
        let ghost s3 = ops_views(out@);
        let ghost x4 = x;
        let end = start_x.saturating_add(available_width);
        if x < end {
            push_op(out, self.y, x, char_string(' '), Some(color));
            x = x.saturating_add(1);
        }
        let ghost s4 = ops_views(out@);
        if x < end {
            let _ = Self::push_run(out, self.y, x, end - x, chars.horizontal, color);
        }
        proof {
            let y = p.y as int;
            let sp: Seq<FrameWrite> = if left_padding > 0 { seq![(y, sat16(start_x + left_padding) - 1, seq![' '], Some(color))] } else { Seq::empty() };
            assert(s2 =~= s1 + sp);
            assert(ops_views(out@) =~= s0 + Self::title_writes(p, title@, start_x as int, available_width as int,
                chars, color));
        }
    }

    /// Appends the bottom border.
    fn push_bottom_border(&self, out: &mut Vec<DrawOp>, chars: BorderChars, color: ColorPair)
        ensures
            ops_views(final(out)@) == ops_views(old(out)@) + Self::bottom_writes(self.props(), chars, color),
    {
        let ghost p = self.props();
        let ghost s0 = ops_views(out@);
        proof {
            reveal(Container::bottom_writes);
        }
        if self.height == 0 {
            assert(ops_views(out@) =~= s0 + Self::bottom_writes(p, chars, color));
            return;
        }
        let y = self.y.saturating_add(self.height - 1);
        let has_left = self.border.sides.left;
        let has_right = self.border.sides.right;
        let mut x = self.x;
        if has_left {
            push_op(out, y, x, char_string(chars.bottom_left), Some(color));
            x = x.saturating_add(1);
        }
        let ghost s1 = ops_views(out@);
        let end_x = self.x.saturating_add(self.width).saturating_sub(if has_right { 1 } else { 0 });
        if x < end_x {
            let _ = Self::push_run(out, y, x, end_x - x, chars.horizontal, color);
        }
        let ghost s2 = ops_views(out@);
        if has_right && self.width > 0 {
            push_op(out, y, self.x.saturating_add(self.width - 1), char_string(chars.bottom_right), Some(color));
        }
        proof {
            let lc: Seq<FrameWrite> = if has_left { seq![(y as int, p.x as int, seq![chars.bottom_left], Some(color))] } else { Seq::empty() };
            assert(s1 =~= s0 + lc);
            assert(ops_views(out@) =~= s0 + Self::bottom_writes(p, chars, color));
        }
    }

    /// The rows between the top and bottom border, as `[start, end)`.
    fn side_rows(&self) -> (r: (u16, u16))
        ensures
            (r.0 as int, r.1 as int) == Self::side_rows_spec(self.props()),
    {
        let start_y = self.y.saturating_add(if self.border.sides.top { 1 } else { 0 });
        let end_y = self.y.saturating_add(self.height).saturating_sub(if self.border.sides.bottom { 1 } else { 0 });
        (start_y, end_y)
    }

    /// Appends `c` in column `x` on rows `[start, end)`.
    fn push_column(out: &mut Vec<DrawOp>, x: u16, start: u16, end: u16, c: char, color: ColorPair)
        ensures
            ops_views(final(out)@) == ops_views(old(out)@) + column_writes(x as int, start as int, end as int, c, color),
    {
        let ghost base = ops_views(out@);
        if start >= end {
            assert(column_writes(x as int, start as int, end as int, c, color) =~= Seq::<FrameWrite>::empty());
            assert(ops_views(out@) =~= base + Seq::<FrameWrite>::empty());
            return;
        }
        let mut y = start;
        assert(ops_views(out@) =~= base + column_writes(x as int, start as int, start as int, c, color));
        while y < end
            invariant
                start <= y <= end,
                ops_views(out@) == base + column_writes(x as int, start as int, y as int, c, color),
            decreases end - y,
        {
            push_op(out, y, x, char_string(c), Some(color));
            assert(ops_views(out@) =~= base + column_writes(x as int, start as int, y + 1, c, color));
            y = y + 1;
        }
    }

    /// Appends the left border.
    fn push_left_border(&self, out: &mut Vec<DrawOp>, chars: BorderChars, color: ColorPair)
        ensures
            ops_views(final(out)@) == ops_views(old(out)@) + Self::left_writes(self.props(), chars, color),
    {
        proof {
            reveal(Container::left_writes);
        }
        let (start_y, end_y) = self.side_rows();
        Self::push_column(out, self.x, start_y, end_y, chars.vertical, color);
    }

    /// Appends the right border.
    fn push_right_border(&self, out: &mut Vec<DrawOp>, chars: BorderChars, color: ColorPair)
        ensures
            ops_views(final(out)@) == ops_views(old(out)@) + Self::right_writes(self.props(), chars, color),
    {
        proof {
            reveal(Container::right_writes);
        }
        if self.width == 0 {
            assert(ops_views(out@) =~= ops_views(out@) + Seq::<FrameWrite>::empty());
            return;
        }
        let x = self.x.saturating_add(self.width - 1);
        let (start_y, end_y) = self.side_rows();
        Self::push_column(out, x, start_y, end_y, chars.vertical, color);
    }

    /// Appends the background fill of the content area, when a background
    /// color is set and filling is on.
    fn push_background(&self, out: &mut Vec<DrawOp>)
        ensures
            ops_views(final(out)@) == ops_views(old(out)@) + Self::background_writes(self.props()),
    {
        let ghost base = ops_views(out@);
        let ghost p = self.props();
        if !self.should_fill {
            assert(ops_views(out@) =~= base + Self::background_writes(p));
            return;
        }
        match self.background_color {
            None => {
                assert(ops_views(out@) =~= base + Self::background_writes(p));
            },
            Some(color) => {
                let (cx, cy, cw, ch) = self.content_area();
                let end_y = cy.saturating_add(ch);
                let end_x = cx.saturating_add(cw);
                let ncols = end_x - cx;
                let mut y = cy;
                assert(ops_views(out@) =~= base + fill_block(cy as int, cx as int, 0, ncols as nat, color));
                while y < end_y
                    invariant
                        cy <= y <= end_y,
                        ncols == end_x - cx,
                        ops_views(out@) == base + fill_block(cy as int, cx as int, (y - cy) as nat, ncols as nat, color),
                    decreases end_y - y,
                {
                    let ghost row_base = ops_views(out@);
                    let mut x = cx;
                    assert(ops_views(out@) =~= row_base + fill_row_at(y as int, cx as int, ncols as nat, color).take(0));
                    while x < end_x
                        invariant
                            cx <= x <= end_x,
                            ncols == end_x - cx,
                            ops_views(out@) == row_base + fill_row_at(y as int, cx as int, ncols as nat, color).take(
                                x - cx),
                        decreases end_x - x,
                    {
                        push_op(out, y, x, char_string(' '), Some(color));
                        assert(fill_row_at(y as int, cx as int, ncols as nat, color).take(x - cx + 1) =~= fill_row_at(
                            y as int, cx as int, ncols as nat, color).take(x - cx).push((y as int, x as int, seq![' '],
                            Some(color))));
                        assert(ops_views(out@) =~= row_base + fill_row_at(y as int, cx as int, ncols as nat, color).take(
                            x + 1 - cx));
                        x = x + 1;
                    }
                    assert(fill_row_at(y as int, cx as int, ncols as nat, color).take(ncols as int) =~= fill_row_at(
                        y as int, cx as int, ncols as nat, color));
                    assert(fill_block(cy as int, cx as int, (y + 1 - cy) as nat, ncols as nat, color) == fill_block(
                        cy as int, cx as int, (y - cy) as nat, ncols as nat, color) + fill_row_at(cy + (y + 1 - cy) - 1,
                        cx as int, ncols as nat, color));
                    assert(ops_views(out@) =~= base + fill_block(cy as int, cx as int, (y + 1 - cy) as nat,
                        ncols as nat, color));
                    y = y + 1;
                }
                proof {
                    let (sx, sy, sw, sh) = Self::content_area_spec(p);
                    assert(sx == cx && sy == cy && sw == cw && sh == ch);
                }
            },
        }
    }

    /// The writes of the background and the border.
    pub fn frame_ops(&self) -> (r: Vec<DrawOp>)
        ensures
            ops_views(r@) == Self::frame_writes(self.props()),
    {
        let mut out: Vec<DrawOp> = Vec::new();
        assert(ops_views(out@) =~= Seq::<FrameWrite>::empty());
        self.push_background(&mut out);
        self.push_borders(&mut out);
        assert(ops_views(out@) =~= Self::frame_writes(self.props()));
        out
    }

    /// The cell of child `idx` and where the next one starts (see
    /// [`layout_step`]).
    fn layout_step_exec(&self, idx: usize, current_x: u16, current_y: u16, fill_assigned: u16, content_x: u16,
        content_y: u16, content_width: u16, content_height: u16, gap: u16, fill_each: u16, fill_remainder: u16)
        -> (r: (WindowView, u16, u16, u16))
        requires
            idx < self.child_props().len(),
            current_x >= content_x,
            current_y >= content_y,
            layout_params(self.props(), self.child_props()) == (content_x as int, content_y as int,
                content_width as int, content_height as int, gap as int, fill_each as int, fill_remainder as int),
        ensures
            (r.0, r.1 as int, r.2 as int, r.3 as int) == layout_step(self.props(), self.child_props(), idx as int,
                current_x as int, current_y as int, fill_assigned as int),
            r.1 >= content_x,
            r.2 >= content_y,
    {
        proof {
            assert(self.child_props()[idx as int] == self.children@[idx as int].props);
        }
        let vertical = match self.layout_direction {
            LayoutDirection::Vertical => true,
            LayoutDirection::Horizontal => false,
        };
        let child_count = self.children.len();
        let c = self.children[idx].props;
        let remaining_width = content_width.saturating_sub(current_x - content_x);
        let remaining_height = content_height.saturating_sub(current_y - content_y);
        let main_fill = match if vertical { c.height } else { c.width } {
            SizeSpec::Fill => true,
            _ => false,
        };
        let extra: u16 = if fill_assigned < fill_remainder { 1 } else { 0 };
        let share = fill_each.saturating_add(extra);
        let (w0, h0) = if vertical {
            let w = match c.width {
                SizeSpec::Fill => remaining_width,
                SizeSpec::Fixed(w) => w,
                SizeSpec::Auto => c.intrinsic_width,
            };
            let h = match c.height {
                SizeSpec::Fill => share,
                SizeSpec::Fixed(h) => h,
                SizeSpec::Auto => c.intrinsic_height,
            };
            (w, h)
        } else {
            let h = match c.height {
                SizeSpec::Fill => remaining_height,
                SizeSpec::Fixed(h) => h,
                SizeSpec::Auto => c.intrinsic_height,
            };
            let w = match c.width {
                SizeSpec::Fill => share,
                SizeSpec::Fixed(w) => w,
                SizeSpec::Auto => c.intrinsic_width,
            };
            (w, h)
        };
        let assigned = if main_fill { fill_assigned.saturating_add(1) } else { fill_assigned };
        let cw = c.constraints.width.clamp(w0);
        let resolved_w = if cw < remaining_width { cw } else { remaining_width };
        let chh = c.constraints.height.clamp(h0);
        let resolved_h = if chh < remaining_height { chh } else { remaining_height };
        let view = WindowView {
            x_offset: current_x,
            y_offset: current_y,
            scroll_x: 0,
            scroll_y: 0,
            width: resolved_w,
            height: resolved_h,
        };
        let mut nx = current_x;
        let mut ny = current_y;
        if vertical {
            ny = ny.saturating_add(resolved_h);
            if idx + 1 < child_count {
                ny = ny.saturating_add(gap);
            }
        } else {
            nx = nx.saturating_add(resolved_w);
            if idx + 1 < child_count {
                nx = nx.saturating_add(gap);
            }
        }
        (view, nx, ny, assigned)
    }

    /// The cells the children are drawn in (see [`layout_spec`]).
    pub fn child_layout(&self) -> (r: Vec<WindowView>)
        ensures
            r@ == layout_spec(self.props(), self.child_props()),
    {
        let ghost p = self.props();
        let ghost cs = self.child_props();
        let (content_x, content_y, content_width, content_height) = self.content_area();
        let vertical = match self.layout_direction {
            LayoutDirection::Vertical => true,
            LayoutDirection::Horizontal => false,
        };
        let gap = self.resolve_gap(if vertical { content_height } else { content_width });
        let child_count = self.children.len();
        let gap_total: u16 = if child_count > 1 {
            let n16 = (child_count - 1) as u16;
            assert((gap as u64) * (n16 as u64) <= 0xffff * 0xffff) by (nonlinear_arith)
                requires gap <= 0xffff, n16 <= 0xffff;
            let prod = gap as u64 * n16 as u64;
            if prod > 0xffff { 0xffff } else { prod as u16 }
        } else {
            0
        };
        let available_main = if vertical { content_height.saturating_sub(gap_total) } else {
            content_width.saturating_sub(gap_total) };
        let (fill_count, fixed_main_total) = self.main_axis_totals();
        let remaining_main = available_main.saturating_sub(fixed_main_total);
        let (fill_each, fill_remainder) = if fill_count > 0 {
            let fc: u16 = if fill_count > 0xffff { 0xffff } else { fill_count as u16 };
            (remaining_main / fc, remaining_main % fc)
        } else {
            (0, 0)
        };
        proof {
            let lp = layout_params(p, cs);
            assert(lp.0 == content_x && lp.1 == content_y && lp.2 == content_width && lp.3 == content_height);
            assert(lp.4 == gap);
            assert(lp.5 == fill_each && lp.6 == fill_remainder);
        }
        let mut current_x = content_x;
        let mut current_y = content_y;
        let mut fill_assigned: u16 = 0;
        let mut out: Vec<WindowView> = Vec::new();
        let mut idx: usize = 0;
        while idx < child_count
            invariant
                p == self.props(),
                cs == self.child_props(),
                child_count == self.children@.len(),
                child_count == cs.len(),
                idx <= child_count,
                vertical == (p.layout_direction == LayoutDirection::Vertical),
                layout_params(p, cs) == (content_x as int, content_y as int, content_width as int, content_height as int,
                    gap as int, fill_each as int, fill_remainder as int),
                current_x >= content_x,
                current_y >= content_y,
                (out@, current_x as int, current_y as int, fill_assigned as int) == layout_fold(p, cs, idx as nat),
            decreases child_count - idx,
        {
            let (view, nx, ny, na) = self.layout_step_exec(idx, current_x, current_y, fill_assigned, content_x,
                content_y, content_width, content_height, gap, fill_each, fill_remainder);
            let ghost prev = out@;
            out.push(view);
            proof {
                assert(out@ =~= prev.push(view));
            }
            current_x = nx;
            current_y = ny;
            fill_assigned = na;
            idx = idx + 1;
        }
        out
    }

    /// Lays the children out one after another along the layout axis,
    /// inside the content area, and draws each through a view of its cell
    /// (see [`Container::child_layout`]).
    fn draw_children(&self, window: &mut Canvas) -> (r: Result<(), Error>)
        ensures
            final(window).grows_from(old(window)),
            final(window).draws_in_cells(old(window), layout_spec(self.props(), self.child_props())),
            self.children_drawn(layout_spec(self.props(), self.child_props()), old(window).views_view(),
                old(window).size_view(), old(window).ops_view(), final(window).ops_view(), r),
    {
        let cells = self.child_layout();
        let child_count = self.children.len();
        proof {
            lemma_layout_len(self.props(), self.child_props(), self.child_props().len());
        }
        let mut idx: usize = 0;
        let ghost mut mids: Seq<Seq<OpView>> = seq![old(window).ops_view()];
        while idx < child_count
            invariant
                child_count == self.children@.len(),
                cells@ == layout_spec(self.props(), self.child_props()),
                cells@.len() == child_count,
                idx <= child_count,
                window.grows_from(old(window)),
                window.draws_in_cells(old(window), cells@),
                mids.len() == idx + 1,
                mids[0] == old(window).ops_view(),
                mids.last() == window.ops_view(),
                self.children_drawn_ok(cells@, old(window).views_view(), old(window).size_view(), mids),
            decreases child_count - idx,
        {
            let view = cells[idx];
            let ghost before = *window;
            window.push_view(view);
            let ghost pushed = *window;
            let rc = self.children[idx].widget.widget.draw(window);
            let ghost drawn = *window;
            window.pop_view();
            proof {
                lemma_grows_through_view(&before, &pushed, &drawn, view);
                assert(before.views_view().push(view).drop_last() =~= before.views_view());
                assert(window.grows_from(&before));
                assert forall|i: int| old(window).ops_view().len() <= i < window.ops_view().len() implies
                    exists|j: int| 0 <= j < cells@.len() && lands_under(old(window).views_view().push(cells@[j]),
                    old(window).size_view(), #[trigger] window.ops_view()[i]) by {
                    if i >= before.ops_view().len() {
                        assert(drawn.ops_view()[i] == window.ops_view()[i]);
                        assert(lands_under(before.views_view().push(view), before.size_view(), window.ops_view()[i]));
                        assert(cells@[idx as int] == view);
                    } else {
                        assert(before.ops_view()[i] == window.ops_view()[i]);
                    }
                }
                assert(cells@[idx as int] == view);
                assert(self.child_draws(idx as int, old(window).views_view().push(cells@[idx as int]),
                    old(window).size_view(), before.ops_view(), window.ops_view(), rc));
            }
            if rc.is_err() {
                proof {
                    assert(self.children_drawn_ok(cells@, old(window).views_view(), old(window).size_view(), mids));
                }
                return rc;
            }
            proof {
                assert(rc == Ok::<(), Error>(())) by {
                    assert(rc is Ok);
                    assert(rc->Ok_0 == ());
                }
                let next = mids.push(window.ops_view());
                assert forall|i: int| 0 <= i < next.len() - 1 implies #[trigger] self.child_draws(i,
                    old(window).views_view().push(cells@[i]), old(window).size_view(), next[i], next[i + 1], Ok(())) by {
                    if i < mids.len() - 1 {
                        assert(next[i] == mids[i] && next[i + 1] == mids[i + 1]);
                    } else {
                        assert(next[i] == before.ops_view() && next[i + 1] == window.ops_view());
                    }
                }
                mids = next;
            }
            idx = idx + 1;
        }
        proof {
            assert(self.children_drawn_ok(cells@, old(window).views_view(), old(window).size_view(), mids));
        }
        Ok(())
    }

    /// The number of fill children and the sum (saturating) of the fixed and
    /// auto sizes along the layout axis.
    fn main_axis_totals(&self) -> (r: (usize, u16))
        ensures
            r.0 == fill_count_spec(self.child_props(), self.props().layout_direction == LayoutDirection::Vertical),
            r.1 == fixed_total_spec(self.child_props(), self.props().layout_direction == LayoutDirection::Vertical),
            r.0 <= self.child_props().len(),
    {
        let vertical = match self.layout_direction {
            LayoutDirection::Vertical => true,
            LayoutDirection::Horizontal => false,
        };
        let ghost cs = self.child_props();
        let mut fill: usize = 0;
        let mut fixed_total: u16 = 0;
        let mut i: usize = 0;
        while i < self.children.len()
            invariant
                i <= self.children@.len(),
                cs == self.child_props(),
                cs.len() == self.children@.len(),
                vertical == (self.props().layout_direction == LayoutDirection::Vertical),
                fill <= i,
                fill == fill_count_spec(cs.take(i as int), vertical),
                fixed_total == fixed_total_spec(cs.take(i as int), vertical),
            decreases self.children.len() - i,
        {
            proof {
                assert(cs.take(i + 1).drop_last() =~= cs.take(i as int));
                assert(cs.take(i + 1).last() == cs[i as int]);
                assert(cs[i as int] == self.children@[i as int].props);
            }
            let p = self.children[i].props;
            let spec = if vertical { p.height } else { p.width };
            let intrinsic = if vertical { p.intrinsic_height } else { p.intrinsic_width };
            match spec {
                SizeSpec::Fill => fill = fill + 1,
                SizeSpec::Fixed(v) => fixed_total = fixed_total.saturating_add(v),
                SizeSpec::Auto => fixed_total = fixed_total.saturating_add(intrinsic),
            }
            i = i + 1;
        }
        proof {
            assert(cs.take(i as int) =~= cs);
        }
        (fill, fixed_total)
    }
}

/// The share of `remaining` cells that fill child number `i` (of `count`)
/// gets: an equal part, plus one for each of the first `remaining % count`.
pub open spec fn fill_share(remaining: int, count: int, i: int) -> int {
    remaining / count + if i < remaining % count { 1int } else { 0int }
}

/// The sum of the shares of the first `k` fill children.
pub open spec fn fill_total(remaining: int, count: int, k: int) -> int
    decreases k,
{
    if k <= 0 { 0 } else { fill_total(remaining, count, k - 1) + fill_share(remaining, count, k - 1) }
}

/// The fill children share the left-over space exactly: their shares add up
/// to all of it, and any two shares differ by at most one cell.
pub proof fn lemma_fill_shares_exact(remaining: int, count: int)
    requires
        remaining >= 0,
        count > 0,
    ensures
        fill_total(remaining, count, count) == remaining,
        forall|i: int, j: int| 0 <= i < count && 0 <= j < count ==>
            fill_share(remaining, count, i) - fill_share(remaining, count, j) <= 1,
{
    lemma_fill_total_prefix(remaining, count, count);
    let q = remaining / count;
    let r = remaining % count;
    assert(remaining == count * q + r) by (nonlinear_arith)
        requires count > 0, q == remaining / count, r == remaining % count;
}

/// The first `k` shares add up to `k` equal parts plus one cell for each of
/// them that lies below the remainder.
pub proof fn lemma_fill_total_prefix(remaining: int, count: int, k: int)
    requires
        remaining >= 0,
        count > 0,
        0 <= k <= count,
    ensures
        fill_total(remaining, count, k) == k * (remaining / count) + if k < remaining % count { k } else { remaining % count },
    decreases k,
{
    assert(remaining % count >= 0) by (nonlinear_arith)
        requires count > 0;
    assert(0 * (remaining / count) == 0);
    if k > 0 {
        lemma_fill_total_prefix(remaining, count, k - 1);
        let q = remaining / count;
        let r = remaining % count;
        assert(k * q == (k - 1) * q + q) by (nonlinear_arith);
        assert(fill_total(remaining, count, k) == fill_total(remaining, count, k - 1) + fill_share(remaining, count, k - 1));
        assert(fill_share(remaining, count, k - 1) == q + if k - 1 < r { 1int } else { 0int });
    }
}

impl Container {
}

} // verus!

verus! {

impl Container {
    /// The children, in order: one for each, reporting and drawing as it
    /// does.
    pub fn children(&self) -> (r: Vec<&DynWidget>)
        ensures
            r@.len() == self.child_sizes().len(),
            forall|i: int| 0 <= i < r@.len() ==> (#[trigger] r@[i]).widget.size_spec() == self.child_sizes()[i],
            forall|i: int, v: Seq<WindowView>, s: (u16, u16), b: Seq<OpView>, a: Seq<OpView>, res: Result<(), Error>|
                0 <= i < r@.len() ==> (#[trigger] r@[i].widget.draws(v, s, b, a, res)) == self.child_draws(i, v, s,
                b, a, res),
    {
        let mut out: Vec<&DynWidget> = Vec::new();
        let mut i: usize = 0;
        while i < self.children.len()
            invariant
                i <= self.children@.len(),
                out@.len() == i,
                forall|j: int| 0 <= j < i ==> *(#[trigger] out@[j]) == self.children@[j].widget,
            decreases self.children.len() - i,
        {
            out.push(&self.children[i].widget);
            i = i + 1;
        }
        out
    }

    /// An empty container (same as [`Container::new`]).
    pub fn default() -> (r: Self)
        ensures
            r.props() == resized(Self::initial_props(), Seq::empty()),
            r.child_props() == Seq::<ChildProps>::empty(),
    {
        Self::new()
    }
}

impl Widget for Container {
    open spec fn size_spec(&self) -> (u16, u16) {
        (self.props().width, self.props().height)
    }

    open spec fn position_spec(&self) -> (u16, u16) {
        (self.props().x, self.props().y)
    }

    /// The background and border writes come first; every later write lands
    /// through one of the children's cells. The result is left to the children.
    open spec fn draws(&self, views: Seq<crate::widgets::WindowView>, size: (u16, u16), before: Seq<crate::window::OpView>,
        after: Seq<crate::window::OpView>, r: Result<(), Error>) -> bool {
        &&& crate::window::apply_writes(before, views, size, Self::frame_writes(self.props())).is_prefix_of(after)
        &&& cells_drawn(after, crate::window::apply_writes(before, views, size, Self::frame_writes(self.props())).len() as int,
            views, size, layout_spec(self.props(), self.child_props()))
    }

    /// Draws the background and the border, then each child in its cell.
    fn draw(&self, window: &mut Canvas) -> (r: Result<(), Error>)
        ensures
            old(window).ops_after_each(Self::frame_writes(self.props())).is_prefix_of(final(window).ops_view()),
            cells_drawn(final(window).ops_view(), old(window).ops_after_each(Self::frame_writes(self.props())).len()
                as int, old(window).views_view(), old(window).size_view(), layout_spec(self.props(), self.child_props())),
            self.children_drawn(layout_spec(self.props(), self.child_props()), old(window).views_view(),
                old(window).size_view(), old(window).ops_after_each(Self::frame_writes(self.props())),
                final(window).ops_view(), r),
    {
        let ops = self.frame_ops();
        window.emit(&ops);
        let ghost c1 = *window;
        let r = self.draw_children(window);
        proof {
            assert(c1.ops_view() == old(window).ops_after_each(Self::frame_writes(self.props())));
        }
        r
    }

    fn get_size(&self) -> (r: (u16, u16)) {
        (self.width, self.height)
    }

    fn get_position(&self) -> (r: (u16, u16)) {
        (self.x, self.y)
    }
}

/// There is one cell per child laid out.
pub proof fn lemma_layout_len(p: ContainerProps, cs: Seq<ChildProps>, k: nat)
    ensures
        layout_fold(p, cs, k).0.len() == k,
    decreases k,
{
    if k > 0 {
        lemma_layout_len(p, cs, (k - 1) as nat);
    }
}

/// Whether cell `v` is empty or lies inside the rectangle `(x, y, w, h)`.
pub open spec fn cell_inside(v: WindowView, area: (int, int, int, int)) -> bool {
    v.width == 0 || v.height == 0 || (area.0 <= v.x_offset && v.x_offset + v.width <= area.0 + area.2 && area.1
        <= v.y_offset && v.y_offset + v.height <= area.1 + area.3)
}

/// Laying out keeps the next position inside the cell grid's origin and
/// every cell so far inside the content area.
proof fn lemma_layout_fold_inside(p: ContainerProps, cs: Seq<ChildProps>, k: nat)
    requires
        k <= cs.len(),
    ensures
        layout_params(p, cs).0 <= layout_fold(p, cs, k).1 <= u16::MAX,
        layout_params(p, cs).1 <= layout_fold(p, cs, k).2 <= u16::MAX,
        forall|i: int| 0 <= i < layout_fold(p, cs, k).0.len() ==> cell_inside(#[trigger] layout_fold(p, cs, k).0[i],
            Container::content_area_spec(p)),
    decreases k,
{
    if k > 0 {
        lemma_layout_fold_inside(p, cs, (k - 1) as nat);
        let prev = layout_fold(p, cs, (k - 1) as nat);
        let st = layout_step(p, cs, k - 1, prev.1, prev.2, prev.3);
        assert(cell_inside(st.0, Container::content_area_spec(p)));
        assert forall|i: int| 0 <= i < layout_fold(p, cs, k).0.len() implies cell_inside(
            #[trigger] layout_fold(p, cs, k).0[i], Container::content_area_spec(p)) by {
            if i < prev.0.len() {
                assert(layout_fold(p, cs, k).0[i] == prev.0[i]);
            }
        }
    }
}

/// A container never gives a child room outside its content area: every
/// child's cell is empty or lies inside it.
pub proof fn lemma_layout_inside(p: ContainerProps, cs: Seq<ChildProps>)
    ensures
        forall|i: int| 0 <= i < layout_spec(p, cs).len() ==> cell_inside(#[trigger] layout_spec(p, cs)[i],
            Container::content_area_spec(p)),
{
    lemma_layout_fold_inside(p, cs, cs.len());
}

/// Children follow one another along the layout axis: each cell starts no
/// earlier than the previous one ends (unless positions have reached
/// `u16::MAX`), so cells do not overlap.
pub proof fn lemma_layout_follows(p: ContainerProps, cs: Seq<ChildProps>, i: int)
    requires
        0 <= i,
        i + 1 < cs.len(),
    ensures
        ({
            let a = layout_spec(p, cs)[i];
            let b = layout_spec(p, cs)[i + 1];
            if p.layout_direction == LayoutDirection::Vertical {
                b.y_offset >= a.y_offset + a.height || b.y_offset == u16::MAX
            } else {
                b.x_offset >= a.x_offset + a.width || b.x_offset == u16::MAX
            }
        }),
{
    lemma_layout_len(p, cs, cs.len());
    lemma_layout_prefix(p, cs, (i + 2) as nat, cs.len());
    lemma_layout_fold_inside(p, cs, i as nat);
    lemma_layout_fold_inside(p, cs, (i + 1) as nat);
    let f0 = layout_fold(p, cs, i as nat);
    let f1 = layout_fold(p, cs, (i + 1) as nat);
    let f2 = layout_fold(p, cs, (i + 2) as nat);
    lemma_layout_len(p, cs, i as nat);
    lemma_layout_len(p, cs, (i + 1) as nat);
    assert(f2.0[i] == f1.0[i]);
    assert(f1.0[i] == layout_step(p, cs, i, f0.1, f0.2, f0.3).0);
    assert(f2.0[i + 1] == layout_step(p, cs, i + 1, f1.1, f1.2, f1.3).0);
}

/// Children follow one another along the layout axis exactly one gap
/// apart: the first cell starts at the content area's corner, and each next
/// cell starts where the previous one ends plus the gap the container
/// resolves for its axis (each addition saturating at `u16::MAX`), at the
/// same place across the axis.
pub proof fn lemma_layout_gap(p: ContainerProps, cs: Seq<ChildProps>, i: int)
    requires
        0 <= i,
        i + 1 < cs.len(),
    ensures
        ({
            let area = Container::content_area_spec(p);
            let vertical = p.layout_direction == LayoutDirection::Vertical;
            let g = resolve_gap_spec(p, (if vertical { area.3 } else { area.2 }) as u16);
            let a = layout_spec(p, cs)[i];
            let b = layout_spec(p, cs)[i + 1];
            &&& layout_spec(p, cs)[0].x_offset == area.0
            &&& layout_spec(p, cs)[0].y_offset == area.1
            &&& vertical ==> b.y_offset == sat16(sat16(a.y_offset + a.height) + g) && b.x_offset == a.x_offset
            &&& !vertical ==> b.x_offset == sat16(sat16(a.x_offset + a.width) + g) && b.y_offset == a.y_offset
        }),
{
    lemma_layout_len(p, cs, cs.len());
    lemma_layout_prefix(p, cs, (i + 2) as nat, cs.len());
    lemma_layout_prefix(p, cs, 1, cs.len());
    lemma_layout_fold_inside(p, cs, 0);
    lemma_layout_fold_inside(p, cs, i as nat);
    lemma_layout_fold_inside(p, cs, (i + 1) as nat);
    let f0 = layout_fold(p, cs, i as nat);
    let f1 = layout_fold(p, cs, (i + 1) as nat);
    let f2 = layout_fold(p, cs, (i + 2) as nat);
    lemma_layout_len(p, cs, i as nat);
    lemma_layout_len(p, cs, (i + 1) as nat);
    lemma_layout_len(p, cs, 1);
    assert(layout_fold(p, cs, 1).0[0] == layout_spec(p, cs)[0]);
    assert(f2.0[i] == f1.0[i]);
    assert(f1.0[i] == layout_step(p, cs, i, f0.1, f0.2, f0.3).0);
    assert(f2.0[i + 1] == layout_step(p, cs, i + 1, f1.1, f1.2, f1.3).0);
}

/// Laying out more children does not move the cells of the earlier ones.
pub proof fn lemma_layout_prefix(p: ContainerProps, cs: Seq<ChildProps>, j: nat, k: nat)
    requires
        j <= k,
    ensures
        layout_fold(p, cs, j).0 == layout_fold(p, cs, k).0.take(j as int),
    decreases k - j,
{
    lemma_layout_len(p, cs, k);
    if j < k {
        lemma_layout_prefix(p, cs, j, (k - 1) as nat);
        lemma_layout_len(p, cs, (k - 1) as nat);
        assert(layout_fold(p, cs, k).0.take(j as int) =~= layout_fold(p, cs, (k - 1) as nat).0.take(j as int));
    } else {
        assert(layout_fold(p, cs, k).0.take(k as int) =~= layout_fold(p, cs, k).0);
    }
}

impl crate::widgets::BoxedWidget for Container {
    fn into_boxed(self) -> (r: crate::widgets::DynWidget) {
        crate::widgets::DynWidget { widget: Box::new(self) }
    }
}

} // verus!
