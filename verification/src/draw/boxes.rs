//! The cell grid, the box compositor, and its full functional specification.

use vstd::prelude::*;

use crate::common::{ansi_reset, bg_seq, fg_seq, push_char, Color, Vec2};
use vstd::string::StringExecFns;
use crate::draw::border::{
    char_width, determine_edge, edge_glyph, spec_chars, BorderFlags, BorderStyle,
};

verus! {

/// Structural validation failures of a draw request. Neither is raised by the
/// compositor on its own: `HeightTooSmall` is produced through an explicit
/// force-error input, and `ContentTooLong` is reserved for callers that
/// validate content width themselves.
#[derive(Clone, Copy, PartialEq, Eq, Structural, Debug)]
pub enum DrawError {
    HeightTooSmall,
    ContentTooLong,
}

/// One box request: where the box goes, which borders it has, in which style,
/// with which colors, and what text fills its interior. The position is
/// signed: a box may lie partly or fully off the grid.
pub struct BoxOptions {
    pub screen_size: Vec2<usize>,
    pub position: Vec2<i16>,
    pub size: Vec2<usize>,
    pub border_options: BorderFlags,
    pub border_style: BorderStyle,
    pub border_color: Option<Color>,
    pub background_color: Option<Color>,
    pub text_color: Option<Color>,
    pub content: Option<Vec<String>>,
}

/// One screen cell: an optional foreground color, an optional background
/// color, and exactly one display glyph. A cell renders as its own styled
/// run, terminated by an explicit reset, so adjacent cells never leak style
/// into one another.
#[derive(Clone, Copy, PartialEq, Eq, Debug)]
pub struct BoxChar {
    pub fg: Option<Color>,
    pub bg: Option<Color>,
    pub content: char,
}

/// The mathematical image of a box request: every field a plain value.
pub ghost struct BoxModel {
    pub screen_w: int,
    pub screen_h: int,
    pub pos_x: int,
    pub pos_y: int,
    pub box_w: int,
    pub box_h: int,
    pub flags: BorderFlags,
    pub style: BorderStyle,
    pub border_color: Option<Color>,
    pub background_color: Option<Color>,
    pub text_color: Option<Color>,
    pub content: Option<Seq<Seq<char>>>,
}

/// The mathematical contents of optional content lines.
pub open spec fn content_view(c: Option<Vec<String>>) -> Option<Seq<Seq<char>>> {
    match c {
        Option::Some(lines) => Option::Some(lines@.map(|i: int, s: String| s@)),
        Option::None => Option::None,
    }
}

impl BoxOptions {
    /// The model of this request.
    pub open spec fn model(self) -> BoxModel {
        BoxModel {
            screen_w: self.screen_size.x as int,
            screen_h: self.screen_size.y as int,
            pos_x: self.position.x as int,
            pos_y: self.position.y as int,
            box_w: self.size.x as int,
            box_h: self.size.y as int,
            flags: self.border_options,
            style: self.border_style,
            border_color: self.border_color,
            background_color: self.background_color,
            text_color: self.text_color,
            content: content_view(self.content),
        }
    }
}

impl BoxModel {
    /// Machine limits on a drawable request: dimensions fit the signed
    /// 16-bit arithmetic the clipping computations are carried out in.
    pub open spec fn wf(self) -> bool {
        &&& 0 <= self.screen_w <= 32767
        &&& 0 <= self.screen_h <= 32767
        &&& 0 <= self.box_w <= 32767
        &&& 0 <= self.box_h <= 32767
        &&& -32768 <= self.pos_x <= 32767
        &&& -32768 <= self.pos_y <= 32767
    }
}

/// A blank, unstyled cell.
pub open spec fn default_cell() -> BoxChar {
    BoxChar { fg: Option::None, bg: Option::None, content: ' ' }
}

/// An unstyled cell holding one glyph.
pub open spec fn fresh_cell(c: char) -> BoxChar {
    BoxChar { fg: Option::None, bg: Option::None, content: c }
}

/// The styled run one cell renders to: foreground prefix, background prefix,
/// the glyph, and an explicit reset.
pub open spec fn cell_render(c: BoxChar) -> Seq<char> {
    (match c.fg {
        Option::Some(col) => fg_seq(col),
        Option::None => Seq::<char>::empty(),
    }) + (match c.bg {
        Option::Some(col) => bg_seq(col),
        Option::None => Seq::<char>::empty(),
    }) + seq![c.content] + ansi_reset()
}

impl Default for BoxChar {
    /// The default cell: no colors, a single space.
    fn default() -> (r: BoxChar)
        ensures
            r == default_cell(),
    {
        BoxChar { fg: None, bg: None, content: ' ' }
    }
}

impl BoxChar {
    /// An unstyled cell holding one glyph.
    pub fn new(content: char) -> (r: BoxChar)
        ensures
            r == fresh_cell(content),
    {
        BoxChar { fg: None, bg: None, content }
    }

    /// Render this cell to its styled run.
    pub fn to_string(&self) -> (r: String)
        ensures
            r@ == cell_render(*self),
    {
        let mut s = String::new();
        match &self.fg {
            Some(col) => {
                let f = col.fg();
                s.append(f.as_str());
            },
            None => {},
        }
        match &self.bg {
            Some(col) => {
                let b = col.bg();
                s.append(b.as_str());
            },
            None => {},
        }
        push_char(&mut s, self.content);
        s.append("\x1b[0m");
        proof {
            reveal_strlit("\x1b[0m");
            assert(s@ =~= cell_render(*self));
        }
        s
    }
}

// ---------------------------------------------------------------------------
// Horizontal clipping
//
// A box of width `box_w` at signed column `pos_x` is visible on the grid in
// the span of columns `[splice_col, splice_col + clip_count)`; the first
// visible cell is box-local column `clip_skip`.
// ---------------------------------------------------------------------------
/// Box-local columns dropped from the left edge of an off-grid box.
pub open spec fn clip_skip(m: BoxModel) -> int {
    if m.pos_x < 0 {
        -m.pos_x
    } else {
        0
    }
}

/// The cap on visible columns: the screen width, the box width, and the
/// room right of the box position, whichever is least, floored at zero.
pub open spec fn clip_take(m: BoxModel) -> int {
    let lim = if m.box_w < m.screen_w {
        m.box_w
    } else {
        m.screen_w
    };
    let lim2 = if m.screen_w - m.pos_x < lim {
        m.screen_w - m.pos_x
    } else {
        lim
    };
    if lim2 < 0 {
        0
    } else {
        lim2
    }
}

/// A border row always holds its two end cells, even for a box thinner than
/// two columns; between them stand `box_w - 2` middle cells (saturating).
pub open spec fn template_len(m: BoxModel) -> int {
    if m.box_w < 2 {
        2
    } else {
        m.box_w
    }
}

/// The number of cells of this box actually drawn into each affected row.
pub open spec fn clip_count(m: BoxModel) -> int {
    let c = if clip_take(m) < template_len(m) - clip_skip(m) {
        clip_take(m)
    } else {
        template_len(m) - clip_skip(m)
    };
    if c < 0 {
        0
    } else {
        c
    }
}

/// The grid column at which the visible span is spliced into a row.
pub open spec fn splice_col(m: BoxModel) -> int {
    let a = if m.pos_x > 0 {
        m.pos_x
    } else {
        0
    };
    if a < m.screen_w {
        a
    } else {
        m.screen_w
    }
}

pub proof fn lemma_clip_in_bounds(m: BoxModel)
    requires
        m.wf(),
    ensures
        0 <= clip_skip(m),
        0 <= clip_count(m),
        clip_count(m) > 0 ==> clip_skip(m) + clip_count(m) <= template_len(m),
        0 <= splice_col(m) <= m.screen_w,
        splice_col(m) + clip_count(m) <= m.screen_w,
{
}

// ---------------------------------------------------------------------------
// Row templates and colored spans
// ---------------------------------------------------------------------------
/// The unclipped glyphs of one box row whose cells sit structurally on the
/// edges named by `posm` (the top mask for the top border row, the bottom
/// mask for the bottom border row, no mask for a middle row). The first and
/// last cells additionally sit on the left and right edges.
pub open spec fn row_template(m: BoxModel, posm: BorderFlags) -> Seq<char> {
    Seq::new(
        template_len(m) as nat,
        |j: int|
            if j == 0 {
                edge_glyph(m.flags, m.style, BorderFlags { left: true, ..posm })
            } else if j == template_len(m) - 1 {
                edge_glyph(m.flags, m.style, BorderFlags { right: true, ..posm })
            } else {
                edge_glyph(m.flags, m.style, posm)
            },
    )
}

/// The visible glyphs of one box row.
pub open spec fn clipped_template(m: BoxModel, posm: BorderFlags) -> Seq<char> {
    if clip_count(m) <= 0 {
        Seq::<char>::empty()
    } else {
        row_template(m, posm).subrange(clip_skip(m), clip_skip(m) + clip_count(m))
    }
}

/// The byte width of the model's border glyphs, by which border-glyph cells
/// are told apart from blank and text cells.
pub open spec fn style_width(m: BoxModel) -> int {
    char_width(spec_chars(m.style).top)
}

/// The background a drawn cell receives: the requested background color on
/// every cell that is not itself a border glyph.
pub open spec fn span_bg(m: BoxModel, c: char) -> Option<Color> {
    if m.background_color is Some && char_width(c) != style_width(m) {
        m.background_color
    } else {
        Option::None
    }
}

/// One visible cell of a top or bottom border row: the border color, if any,
/// applies to the whole clipped span.
pub open spec fn edge_cell(m: BoxModel, c: char) -> BoxChar {
    BoxChar { fg: m.border_color, bg: span_bg(m, c), content: c }
}

/// The visible cells of a top or bottom border row.
pub open spec fn edge_span(m: BoxModel, posm: BorderFlags) -> Seq<BoxChar> {
    let t = clipped_template(m, posm);
    Seq::new(t.len(), |j: int| edge_cell(m, t[j]))
}

/// Clipping determinism: a box starting left of the grid shows exactly
/// `min(screen_w, box_w + pos_x)` columns (none when that is negative), and
/// its first visible cell is box-local column `-pos_x`.
pub proof fn lemma_clip_negative_position(m: BoxModel)
    requires
        m.wf(),
        m.pos_x < 0,
        m.box_w >= 2,
    ensures
        clip_count(m) == (if m.box_w + m.pos_x < 0 {
            0
        } else if m.box_w + m.pos_x < m.screen_w {
            m.box_w + m.pos_x
        } else {
            m.screen_w
        }),
        clip_skip(m) == -m.pos_x,
{
}

/// Is the left border cell of this box both requested and on the grid?
pub open spec fn left_colored(m: BoxModel) -> bool {
    m.flags.left && m.pos_x >= 0
}

/// Is the right border cell of this box both requested and on the grid?
pub open spec fn right_colored(m: BoxModel) -> bool {
    m.flags.right && m.pos_x + m.box_w <= m.screen_w
}

/// One visible cell of a middle row, before any content is overlaid. Text
/// color claims every non-glyph cell; the border color claims the end cells
/// of the clipped span when the corresponding border is visibly on the grid.
pub open spec fn middle_cell(m: BoxModel, n: int, j: int, c: char) -> BoxChar {
    let is_glyph = char_width(c) == style_width(m);
    let fg = if m.text_color is Some && !is_glyph {
        m.text_color
    } else if j == n - 1 && right_colored(m) {
        m.border_color
    } else if j == 0 && left_colored(m) {
        m.border_color
    } else {
        Option::<Color>::None
    };
    BoxChar { fg, bg: span_bg(m, c), content: c }
}

/// The visible cells of a middle row, before any content is overlaid.
pub open spec fn middle_span(m: BoxModel) -> Seq<BoxChar> {
    let t = clipped_template(m, BorderFlags::spec_none());
    Seq::new(t.len(), |j: int| middle_cell(m, t.len() as int, j, t[j]))
}

// ---------------------------------------------------------------------------
// Exec helpers
// ---------------------------------------------------------------------------
/// The clipping numbers of a request: (clip_skip, clip_count, splice_col).
fn clip_bounds(options: &BoxOptions) -> (r: (usize, usize, usize))
    requires
        options.model().wf(),
    ensures
        r.0 == clip_skip(options.model()),
        r.1 == clip_count(options.model()),
        r.2 == splice_col(options.model()),
{
    let px: i64 = options.position.x as i64;
    let sw: i64 = options.screen_size.x as i64;
    let bw: i64 = options.size.x as i64;
    let skip: i64 = if px < 0 {
        -px
    } else {
        0
    };
    let lim: i64 = if bw < sw {
        bw
    } else {
        sw
    };
    let lim2: i64 = if sw - px < lim {
        sw - px
    } else {
        lim
    };
    let take: i64 = if lim2 < 0 {
        0
    } else {
        lim2
    };
    let tlen: i64 = if bw < 2 {
        2
    } else {
        bw
    };
    let c1: i64 = if take < tlen - skip {
        take
    } else {
        tlen - skip
    };
    let count: i64 = if c1 < 0 {
        0
    } else {
        c1
    };
    let a: i64 = if px > 0 {
        px
    } else {
        0
    };
    let at: i64 = if a < sw {
        a
    } else {
        sw
    };
    (skip as usize, count as usize, at as usize)
}

/// A border row: one left cell, `width` middle cells, one right cell, all
/// unstyled.
fn make_border(left: char, middle: char, right: char, width: usize) -> (r: Vec<BoxChar>)
    requires
        width <= 32767,
    ensures
        r@.len() == width + 2,
        forall|j: int|
            0 <= j < width + 2 ==> #[trigger] r@[j] == fresh_cell(
                if j == 0 {
                    left
                } else if j == width + 1 {
                    right
                } else {
                    middle
                },
            ),
{
    let mut border_str: Vec<BoxChar> = Vec::new();
    border_str.push(BoxChar { fg: None, bg: None, content: left });
    let mut k: usize = 0;
    while k < width
        invariant
            k <= width,
            width <= 32767,
            border_str@.len() == k + 1,
            border_str@[0] == fresh_cell(left),
            forall|j: int| 1 <= j < k + 1 ==> #[trigger] border_str@[j] == fresh_cell(middle),
        decreases width - k,
    {
        border_str.push(BoxChar { fg: None, bg: None, content: middle });
        k += 1;
    }
    border_str.push(BoxChar { fg: None, bg: None, content: right });
    border_str
}

/// The cells of `cells` from `skip` on, at most `count` of them.
fn clip_cells(cells: &Vec<BoxChar>, skip: usize, count: usize) -> (r: Vec<BoxChar>)
    requires
        count > 0 ==> skip + count <= cells@.len(),
    ensures
        r@ == (if count == 0 {
            Seq::<BoxChar>::empty()
        } else {
            cells@.subrange(skip as int, skip + count)
        }),
{
    if count == 0 {
        let out: Vec<BoxChar> = Vec::new();
        return out;
    }
    let n = cells.len();
    let mut out: Vec<BoxChar> = Vec::new();
    let mut j: usize = 0;
    while j < count
        invariant
            j <= count,
            n == cells@.len(),
            skip + count <= n,
            out@.len() == j,
            forall|k: int| 0 <= k < j ==> #[trigger] out@[k] == cells@[skip + k],
        decreases count - j,
    {
        out.push(cells[skip + j]);
        j += 1;
    }
    assert(out@ =~= cells@.subrange(skip as int, skip + count));
    out
}

/// The border color, where set, applied over a whole cell run.
pub open spec fn apply_edge_fg(c: Option<Color>, cell: BoxChar) -> BoxChar {
    if c is Some {
        BoxChar { fg: c, ..cell }
    } else {
        cell
    }
}

/// The background color, where set, applied to a cell that is not a border
/// glyph of the style's width.
pub open spec fn apply_bg(style: BorderStyle, c: Option<Color>, cell: BoxChar) -> BoxChar {
    if c is Some && char_width(cell.content) != char_width(spec_chars(style).top) {
        BoxChar { bg: c, ..cell }
    } else {
        cell
    }
}

/// The text color, where set, applied to a cell that is not a border glyph
/// of the style's width.
pub open spec fn apply_text(style: BorderStyle, c: Option<Color>, cell: BoxChar) -> BoxChar {
    if c is Some && char_width(cell.content) != char_width(spec_chars(style).top) {
        BoxChar { fg: c, ..cell }
    } else {
        cell
    }
}

/// Color every cell of a top or bottom border span with the border color.
fn add_edge_border_color(border: &mut Vec<BoxChar>, border_color: &Option<Color>)
    ensures
        final(border)@.len() == old(border)@.len(),
        forall|j: int|
            0 <= j < old(border)@.len() ==> final(border)@[j] == apply_edge_fg(
                *border_color,
                #[trigger] old(border)@[j],
            ),
{
    match border_color {
        Some(c) => {
            let n = border.len();
            let mut j: usize = 0;
            while j < n
                invariant
                    j <= n,
                    n == border@.len(),
                    border@.len() == old(border)@.len(),
                    forall|k: int|
                        0 <= k < j ==> border@[k] == apply_edge_fg(
                            Some(*c),
                            #[trigger] old(border)@[k],
                        ),
                    forall|k: int| j <= k < n ==> border@[k] == #[trigger] old(border)@[k],
                decreases n - j,
            {
                border[j].fg = Some(*c);
                j += 1;
            }
        },
        None => {},
    }
}

/// Apply the background color to every non-glyph cell of a span.
fn add_background_color(
    border: &mut Vec<BoxChar>,
    border_style: &BorderStyle,
    background_color: &Option<Color>,
)
    ensures
        final(border)@.len() == old(border)@.len(),
        forall|j: int|
            0 <= j < old(border)@.len() ==> final(border)@[j] == apply_bg(
                *border_style,
                *background_color,
                #[trigger] old(border)@[j],
            ),
{
    match background_color {
        Some(c) => {
            let border_width = border_style.chars().border_width();
            let n = border.len();
            let mut j: usize = 0;
            while j < n
                invariant
                    j <= n,
                    n == border@.len(),
                    border@.len() == old(border)@.len(),
                    border_width == char_width(spec_chars(*border_style).top),
                    forall|k: int|
                        0 <= k < j ==> border@[k] == apply_bg(
                            *border_style,
                            Some(*c),
                            #[trigger] old(border)@[k],
                        ),
                    forall|k: int| j <= k < n ==> border@[k] == #[trigger] old(border)@[k],
                decreases n - j,
            {
                let w = char_utf8_width(border[j].content);
                if w != border_width {
                    border[j].bg = Some(*c);
                }
                j += 1;
            }
        },
        None => {},
    }
}

/// Apply the text color to every non-glyph cell of a span.
fn add_text_color(
    border: &mut Vec<BoxChar>,
    border_style: &BorderStyle,
    text_color: &Option<Color>,
)
    ensures
        final(border)@.len() == old(border)@.len(),
        forall|j: int|
            0 <= j < old(border)@.len() ==> final(border)@[j] == apply_text(
                *border_style,
                *text_color,
                #[trigger] old(border)@[j],
            ),
{
    match text_color {
        Some(c) => {
            let border_width = border_style.chars().border_width();
            let n = border.len();
            let mut j: usize = 0;
            while j < n
                invariant
                    j <= n,
                    n == border@.len(),
                    border@.len() == old(border)@.len(),
                    border_width == char_width(spec_chars(*border_style).top),
                    forall|k: int|
                        0 <= k < j ==> border@[k] == apply_text(
                            *border_style,
                            Some(*c),
                            #[trigger] old(border)@[k],
                        ),
                    forall|k: int| j <= k < n ==> border@[k] == #[trigger] old(border)@[k],
                decreases n - j,
            {
                let w = char_utf8_width(border[j].content);
                if w != border_width {
                    border[j].fg = Some(*c);
                }
                j += 1;
            }
        },
        None => {},
    }
}

/// Color the first cell of a middle span with the border color.
fn add_left_border_color(border: &mut Vec<BoxChar>, border_color: &Option<Color>)
    ensures
        final(border)@.len() == old(border)@.len(),
        forall|j: int|
            0 <= j < old(border)@.len() ==> final(border)@[j] == (if j == 0 {
                apply_edge_fg(*border_color, old(border)@[j])
            } else {
                old(border)@[j]
            }),
{
    match border_color {
        Some(c) => {
            if border.len() > 0 {
                border[0].fg = Some(*c);
            }
        },
        None => {},
    }
}

/// Color the last cell of a middle span with the border color.
fn add_right_border_color(border: &mut Vec<BoxChar>, border_color: &Option<Color>)
    ensures
        final(border)@.len() == old(border)@.len(),
        forall|j: int|
            0 <= j < old(border)@.len() ==> final(border)@[j] == (if j == old(border)@.len() - 1 {
                apply_edge_fg(*border_color, old(border)@[j])
            } else {
                old(border)@[j]
            }),
{
    match border_color {
        Some(c) => {
            if border.len() > 0 {
                let last = border.len() - 1;
                border[last].fg = Some(*c);
            }
        },
        None => {},
    }
}

/// The UTF-8 byte width of one character.
fn char_utf8_width(c: char) -> (r: usize)
    ensures
        r == char_width(c),
{
    let u = c as u32;
    if u < 0x80 {
        1
    } else if u < 0x800 {
        2
    } else if u < 0x10000 {
        3
    } else {
        4
    }
}

/// A fresh copy of a cell run.
fn copy_cells(v: &Vec<BoxChar>) -> (r: Vec<BoxChar>)
    ensures
        r@ == v@,
{
    let n = v.len();
    let mut out: Vec<BoxChar> = Vec::new();
    let mut j: usize = 0;
    while j < n
        invariant
            j <= n,
            n == v@.len(),
            out@.len() == j,
            forall|k: int| 0 <= k < j ==> #[trigger] out@[k] == v@[k],
        decreases n - j,
    {
        out.push(v[j]);
        j += 1;
    }
    assert(out@ =~= v@);
    out
}

// ---------------------------------------------------------------------------
// Row-level specification
// ---------------------------------------------------------------------------
/// The structural mask of the top border row.
pub open spec fn top_mask() -> BorderFlags {
    BorderFlags { top: true, ..BorderFlags::spec_none() }
}

/// The structural mask of the bottom border row.
pub open spec fn bottom_mask() -> BorderFlags {
    BorderFlags { bottom: true, ..BorderFlags::spec_none() }
}

/// A row with the cells `[at, at + span.len())` replaced by `span` and
/// everything before and after untouched.
pub open spec fn splice_row(row: Seq<BoxChar>, at: int, span: Seq<BoxChar>) -> Seq<BoxChar> {
    row.subrange(0, at) + span + row.skip(at + span.len() as int)
}

pub proof fn lemma_splice_len(row: Seq<BoxChar>, at: int, span: Seq<BoxChar>)
    requires
        0 <= at,
        at + span.len() <= row.len(),
    ensures
        splice_row(row, at, span).len() == row.len(),
        forall|t: int| 0 <= t < at ==> #[trigger] splice_row(row, at, span)[t] == row[t],
        forall|t: int|
            at <= t < at + span.len() ==> #[trigger] splice_row(row, at, span)[t] == span[t - at],
        forall|t: int|
            at + span.len() <= t < row.len() ==> #[trigger] splice_row(row, at, span)[t] == row[t],
{
}

pub proof fn lemma_splice_twice(row: Seq<BoxChar>, at: int, s1: Seq<BoxChar>, s2: Seq<BoxChar>)
    requires
        0 <= at,
        s1.len() == s2.len(),
        at + s1.len() <= row.len(),
    ensures
        splice_row(splice_row(row, at, s1), at, s2) == splice_row(row, at, s2),
{
    lemma_splice_len(row, at, s1);
    assert(splice_row(splice_row(row, at, s1), at, s2) =~= splice_row(row, at, s2));
}

/// Is the top border row drawn at all?
pub open spec fn top_active(m: BoxModel) -> bool {
    m.flags.top && 0 <= m.pos_y < m.screen_h
}

/// The grid row of the bottom border.
pub open spec fn bottom_row(m: BoxModel) -> int {
    m.pos_y + m.box_h - 1
}

/// Is the bottom border row drawn at all?
pub open spec fn bottom_active(m: BoxModel) -> bool {
    m.flags.bottom && 0 <= bottom_row(m) < m.screen_h
}

/// Is box-local row `i` drawn as a middle row? Rows claimed by an active
/// top or bottom border flag are skipped, as are rows off the grid.
pub open spec fn middle_active(m: BoxModel, i: int) -> bool {
    &&& 0 <= i < m.box_h
    &&& !(i == 0 && m.flags.top)
    &&& !(i == m.box_h - 1 && m.flags.bottom)
    &&& 0 <= m.pos_y + i < m.screen_h
}

// ---------------------------------------------------------------------------
// Content overlay
// ---------------------------------------------------------------------------
/// The supplied content lines, one sequence of characters per line.
pub open spec fn content_of(m: BoxModel) -> Seq<Seq<char>> {
    match m.content {
        Option::Some(lines) => lines,
        Option::None => Seq::<Seq<char>>::empty(),
    }
}

/// Content line 0 fills the first interior row: box row 1 when a top border
/// is requested, box row 0 otherwise.
pub open spec fn top_offset(m: BoxModel) -> int {
    if m.flags.top {
        1
    } else {
        0
    }
}

/// Characters of a content line skipped when the box interior starts left of
/// the grid.
pub open spec fn overlay_src(m: BoxModel) -> int {
    if -m.pos_x - 1 > 0 {
        -m.pos_x - 1
    } else {
        0
    }
}

/// The first span cell content may be written to: the cell after the left
/// border glyph when that glyph is visibly on the grid.
pub open spec fn overlay_t0(m: BoxModel) -> int {
    if left_colored(m) {
        1
    } else {
        0
    }
}

/// Content never overwrites the right border glyph of a box that ends
/// strictly inside the grid.
pub open spec fn overlay_guard(m: BoxModel) -> bool {
    m.flags.right && m.pos_x + m.box_w < m.screen_w
}

/// One past the last span cell content may be written to.
pub open spec fn overlay_limit(m: BoxModel, n: int) -> int {
    if overlay_guard(m) {
        n - 1
    } else {
        n
    }
}

/// Does box-local row `i` carry a content line?
pub open spec fn row_has_content(m: BoxModel, i: int) -> bool {
    &&& m.content is Some
    &&& 0 <= i - top_offset(m) < content_of(m).len()
}

/// A cell with its glyph replaced and its colors kept.
pub open spec fn with_glyph(cell: BoxChar, c: char) -> BoxChar {
    BoxChar { content: c, ..cell }
}

/// A content line written character by character over a middle span,
/// replacing glyphs but keeping each cell's colors.
pub open spec fn overlay_line(m: BoxModel, line: Seq<char>, base: Seq<BoxChar>) -> Seq<BoxChar> {
    Seq::new(
        base.len(),
        |t: int|
            if overlay_t0(m) <= t && t < overlay_limit(m, base.len() as int) && overlay_src(m) + (t
                - overlay_t0(m)) < line.len() {
                with_glyph(base[t], line[overlay_src(m) + (t - overlay_t0(m))])
            } else {
                base[t]
            },
    )
}

/// The visible cells of box-local middle row `i`, content included.
pub open spec fn middle_row_span(m: BoxModel, i: int) -> Seq<BoxChar> {
    if row_has_content(m, i) {
        overlay_line(m, content_of(m)[i - top_offset(m)], middle_span(m))
    } else {
        middle_span(m)
    }
}

/// What one draw makes of grid row `r` holding `row`: the bottom border,
/// the top border, a middle row, or the row untouched. When top and bottom
/// fall on the same row, the bottom border wins.
pub open spec fn row_after(m: BoxModel, row: Seq<BoxChar>, r: int) -> Seq<BoxChar> {
    if bottom_active(m) && r == bottom_row(m) {
        splice_row(row, splice_col(m), edge_span(m, bottom_mask()))
    } else if top_active(m) && r == m.pos_y {
        splice_row(row, splice_col(m), edge_span(m, top_mask()))
    } else if middle_active(m, r - m.pos_y) {
        splice_row(row, splice_col(m), middle_row_span(m, r - m.pos_y))
    } else {
        row
    }
}

/// Idempotent draw: what a draw makes of a grid row is a function of the
/// request's model and the old row alone, so one request drawn onto two
/// identical grids yields identical grids, byte for byte.
pub proof fn lemma_draw_deterministic(m: BoxModel, row1: Seq<BoxChar>, row2: Seq<BoxChar>, r: int)
    requires
        row1 == row2,
    ensures
        row_after(m, row1, r) == row_after(m, row2, r),
{
}

/// What the top and bottom border passes alone make of grid row `r`.
pub open spec fn row_after_edges(m: BoxModel, row: Seq<BoxChar>, r: int) -> Seq<BoxChar> {
    if bottom_active(m) && r == bottom_row(m) {
        splice_row(row, splice_col(m), edge_span(m, bottom_mask()))
    } else if top_active(m) && r == m.pos_y {
        splice_row(row, splice_col(m), edge_span(m, top_mask()))
    } else {
        row
    }
}

// ---------------------------------------------------------------------------
// The compositor
// ---------------------------------------------------------------------------
/// Replace the cells `[at, at + span.len())` of row `index` with `span`.
fn splice_into_row(buffer: &mut Vec<Vec<BoxChar>>, index: usize, at: usize, span: &Vec<BoxChar>)
    requires
        index < old(buffer)@.len(),
        at + span@.len() <= old(buffer)@[index as int]@.len(),
    ensures
        final(buffer)@.len() == old(buffer)@.len(),
        forall|k: int|
            0 <= k < old(buffer)@.len() && k != index ==> final(buffer)@[k] == old(buffer)@[k],
        final(buffer)@[index as int]@ == splice_row(old(buffer)@[index as int]@, at as int, span@),
{
    let row_len = buffer[index].len();
    let span_len = span.len();
    let mut new_row: Vec<BoxChar> = Vec::new();
    let mut k: usize = 0;
    while k < at
        invariant
            buffer@ == old(buffer)@,
            index < buffer@.len(),
            row_len == buffer@[index as int]@.len(),
            at + span@.len() <= row_len,
            k <= at,
            new_row@.len() == k,
            forall|j: int| 0 <= j < k ==> #[trigger] new_row@[j] == buffer@[index as int]@[j],
        decreases at - k,
    {
        let c = buffer[index][k];
        new_row.push(c);
        k += 1;
    }
    let mut j: usize = 0;
    while j < span_len
        invariant
            buffer@ == old(buffer)@,
            index < buffer@.len(),
            row_len == buffer@[index as int]@.len(),
            span_len == span@.len(),
            at + span@.len() <= row_len,
            j <= span_len,
            new_row@.len() == at + j,
            forall|t: int| 0 <= t < at ==> #[trigger] new_row@[t] == buffer@[index as int]@[t],
            forall|t: int| 0 <= t < j ==> #[trigger] new_row@[at + t] == span@[t],
        decreases span_len - j,
    {
        new_row.push(span[j]);
        j += 1;
    }
    let mut k2: usize = at + span_len;
    while k2 < row_len
        invariant
            buffer@ == old(buffer)@,
            index < buffer@.len(),
            row_len == buffer@[index as int]@.len(),
            span_len == span@.len(),
            at + span_len <= k2 <= row_len,
            new_row@.len() == k2,
            forall|t: int| 0 <= t < at ==> #[trigger] new_row@[t] == buffer@[index as int]@[t],
            forall|t: int| 0 <= t < span_len ==> #[trigger] new_row@[at + t] == span@[t],
            forall|t: int|
                at + span_len <= t < k2 ==> #[trigger] new_row@[t] == buffer@[index as int]@[t],
        decreases row_len - k2,
    {
        let c = buffer[index][k2];
        new_row.push(c);
        k2 += 1;
    }
    proof {
        let r0 = old(buffer)@[index as int]@;
        lemma_splice_len(r0, at as int, span@);
        assert forall|t: int| 0 <= t < new_row@.len() implies new_row@[t] == splice_row(
            r0,
            at as int,
            span@,
        )[t] by {
            if at <= t < at + span@.len() {
                assert(new_row@[at + (t - at)] == span@[t - at]);
            }
        }
        assert(new_row@ =~= splice_row(r0, at as int, span@));
    }
    buffer[index] = new_row;
}

/// Write a content line into a middle span: cell `t0 + j` takes character
/// `src + j` of the line, for every `j` that stays left of `limit` and
/// inside the line.
fn overlay_content(cells: &mut Vec<BoxChar>, line: &String, src: usize, t0: usize, limit: usize)
    requires
        limit <= old(cells)@.len(),
    ensures
        final(cells)@.len() == old(cells)@.len(),
        forall|t: int|
            0 <= t < old(cells)@.len() ==> final(cells)@[t] == (if t0 <= t && t < limit && src + (t
                - t0) < line@.len() {
                with_glyph(old(cells)@[t], line@[src + (t - t0)])
            } else {
                #[trigger] old(cells)@[t]
            }),
{
    let n_chars = line.as_str().unicode_len();
    let mut j: usize = 0;
    while t0 + j < limit && src + j < n_chars
        invariant
            limit <= cells@.len(),
            cells@.len() == old(cells)@.len(),
            n_chars == line@.len(),
            j > 0 ==> t0 + j <= limit,
            j > 0 ==> src + j <= n_chars,
            forall|t: int|
                0 <= t < cells@.len() ==> cells@[t] == (if t0 <= t && t < t0 + j && t < limit && src
                    + (t - t0) < line@.len() {
                    with_glyph(old(cells)@[t], line@[src + (t - t0)])
                } else {
                    #[trigger] old(cells)@[t]
                }),
        decreases limit - t0 - j,
    {
        let c = line.as_str().get_char(src + j);
        let idx = t0 + j;
        let mut cell = cells[idx];
        cell.content = c;
        cells[idx] = cell;
        j += 1;
    }
}

/// Draw one border row (top or bottom, named by `flags`) of the request
/// into grid row `index`.
#[verifier::rlimit(50)]
fn draw_edge(buffer: &mut Vec<Vec<BoxChar>>, options: &BoxOptions, flags: BorderFlags, index: usize)
    requires
        options.model().wf(),
        index < old(buffer)@.len(),
        old(buffer)@[index as int]@.len() == options.model().screen_w,
    ensures
        final(buffer)@.len() == old(buffer)@.len(),
        forall|k: int|
            0 <= k < old(buffer)@.len() && k != index ==> final(buffer)@[k] == old(buffer)@[k],
        final(buffer)@[index as int]@ == splice_row(
            old(buffer)@[index as int]@,
            splice_col(options.model()),
            edge_span(options.model(), flags),
        ),
{
    let ghost m = options.model();
    proof {
        lemma_clip_in_bounds(m);
    }
    let left = determine_edge(
        &options.border_options,
        &options.border_style,
        flags.union(BorderFlags::left()),
    );
    let middle = determine_edge(&options.border_options, &options.border_style, flags);
    let right = determine_edge(
        &options.border_options,
        &options.border_style,
        flags.union(BorderFlags::right()),
    );
    let w = if options.size.x >= 2 {
        options.size.x - 2
    } else {
        0
    };
    let edge_data = make_border(left, middle, right, w);
    proof {
        assert forall|i: int| 0 <= i < edge_data@.len() implies edge_data@[i] == fresh_cell(
            row_template(m, flags)[i],
        ) by {
            assert(template_len(m) == w + 2);
        }
    }
    let (skip, count, at) = clip_bounds(options);
    let mut edge = clip_cells(&edge_data, skip, count);
    let ghost e0 = edge@;
    add_edge_border_color(&mut edge, &options.border_color);
    let ghost e1 = edge@;
    add_background_color(&mut edge, &options.border_style, &options.background_color);
    proof {
        assert(edge@.len() == clipped_template(m, flags).len());
        assert forall|j: int| 0 <= j < edge@.len() implies edge@[j] == edge_span(m, flags)[j] by {
            let c = row_template(m, flags)[clip_skip(m) + j];
            assert(clipped_template(m, flags)[j] == c);
            assert(edge_data@[clip_skip(m) + j] == fresh_cell(c));
            assert(e0[j] == fresh_cell(c));
            assert(e1[j] == apply_edge_fg(m.border_color, e0[j]));
            assert(edge@[j] == apply_bg(m.style, m.background_color, e1[j]));
            assert(edge_span(m, flags)[j] == edge_cell(m, c));
        }
        assert(edge@ =~= edge_span(m, flags));
    }
    splice_into_row(buffer, index, at, &edge);
}

/// The shared middle row span of a request: the left and right border
/// glyphs around a blank interior, clipped, with background, border and
/// text colors applied.
#[verifier::rlimit(50)]
fn build_middle_span(options: &BoxOptions) -> (r: Vec<BoxChar>)
    requires
        options.model().wf(),
    ensures
        r@ == middle_span(options.model()),
        r@.len() == clip_count(options.model()),
{
    let ghost m = options.model();
    proof {
        lemma_clip_in_bounds(m);
    }
    let (skip, count, _at) = clip_bounds(options);
    let left_g = determine_edge(
        &options.border_options,
        &options.border_style,
        BorderFlags::left(),
    );
    let right_g = determine_edge(
        &options.border_options,
        &options.border_style,
        BorderFlags::right(),
    );
    let w = if options.size.x >= 2 {
        options.size.x - 2
    } else {
        0
    };
    let tmpl = make_border(left_g, ' ', right_g, w);
    proof {
        assert forall|t: int| 0 <= t < tmpl@.len() implies tmpl@[t] == fresh_cell(
            row_template(m, BorderFlags::spec_none())[t],
        ) by {
            assert(template_len(m) == w + 2);
        }
    }
    let mut middle = clip_cells(&tmpl, skip, count);
    let ghost mi0 = middle@;
    add_background_color(&mut middle, &options.border_style, &options.background_color);
    let ghost mi1 = middle@;
    if options.border_options.left && options.position.x >= 0 {
        add_left_border_color(&mut middle, &options.border_color);
    }
    let ghost mi2 = middle@;
    let px_i: i64 = options.position.x as i64;
    let bw_i: i64 = options.size.x as i64;
    let sw_i: i64 = options.screen_size.x as i64;
    if options.border_options.right && px_i + bw_i <= sw_i {
        add_right_border_color(&mut middle, &options.border_color);
    }
    let ghost mi3 = middle@;
    add_text_color(&mut middle, &options.border_style, &options.text_color);
    proof {
        let none_mask = BorderFlags::spec_none();
        assert(middle@.len() == clipped_template(m, none_mask).len());
        assert forall|j: int| 0 <= j < middle@.len() implies middle@[j] == middle_span(m)[j] by {
            let t = clipped_template(m, none_mask);
            let n = t.len() as int;
            let c = row_template(m, none_mask)[clip_skip(m) + j];
            assert(t[j] == c);
            assert(tmpl@[clip_skip(m) + j] == fresh_cell(c));
            assert(mi0[j] == fresh_cell(c));
            assert(mi1[j] == apply_bg(m.style, m.background_color, mi0[j]));
            assert(mi2[j] == (if left_colored(m) && j == 0 {
                apply_edge_fg(m.border_color, mi1[j])
            } else {
                mi1[j]
            }));
            assert(mi3[j] == (if right_colored(m) && j == n - 1 {
                apply_edge_fg(m.border_color, mi2[j])
            } else {
                mi2[j]
            }));
            assert(middle@[j] == apply_text(m.style, m.text_color, mi3[j]));
            assert(middle_span(m)[j] == middle_cell(m, n, j, c));
        }
        assert(middle@ =~= middle_span(m));
    }
    middle
}

/// One middle row of a request: the shared middle span with the row's
/// content line, if any, written over it.
fn build_middle_row(middle: &Vec<BoxChar>, options: &BoxOptions, i: usize) -> (r: Vec<BoxChar>)
    requires
        options.model().wf(),
        middle@ == middle_span(options.model()),
        options.model().flags.top ==> i >= 1,
    ensures
        r@ == middle_row_span(options.model(), i as int),
        r@.len() == middle@.len(),
{
    let ghost m = options.model();
    let mut this_line = copy_cells(middle);
    let top_off: usize = if options.border_options.top {
        1
    } else {
        0
    };
    let idx_c = i - top_off;
    match &options.content {
        Some(lines) => {
            if idx_c < lines.len() {
                let line = &lines[idx_c];
                let src: usize = if options.position.x < 0 {
                    ((-(options.position.x as i32)) - 1) as usize
                } else {
                    0
                };
                let t0: usize = if options.border_options.left && options.position.x >= 0 {
                    1
                } else {
                    0
                };
                let px_i: i64 = options.position.x as i64;
                let bw_i: i64 = options.size.x as i64;
                let sw_i: i64 = options.screen_size.x as i64;
                let guard = options.border_options.right && px_i + bw_i < sw_i;
                let nlen = this_line.len();
                let limit: usize = if guard {
                    if nlen > 0 {
                        nlen - 1
                    } else {
                        0
                    }
                } else {
                    nlen
                };
                overlay_content(&mut this_line, line, src, t0, limit);
                proof {
                    assert(row_has_content(m, i as int));
                    assert(content_of(m)[i - top_offset(m)] == line@);
                    assert forall|t: int|
                        0 <= t < this_line@.len() implies this_line@[t] == overlay_line(
                        m,
                        line@,
                        middle_span(m),
                    )[t] by {
                        assert(src == overlay_src(m));
                        assert(t0 == overlay_t0(m));
                        assert(limit == overlay_limit(m, this_line@.len() as int));
                    }
                    assert(this_line@ =~= middle_row_span(m, i as int));
                }
            } else {
                proof {
                    assert(!row_has_content(m, i as int));
                    assert(this_line@ == middle_row_span(m, i as int));
                }
            }
        },
        None => {
            proof {
                assert(!row_has_content(m, i as int));
                assert(this_line@ == middle_row_span(m, i as int));
            }
        },
    }
    this_line
}

/// Composite one box onto the grid: the top and bottom border rows, then the
/// middle rows with their content overlay, each clipped against the grid and
/// spliced into its destination row. Every affected row of the resulting
/// grid is exactly `row_after` of the old row; every other row, and every
/// row length, is untouched.
///
/// The draw itself cannot fail: `force_height_error` is the explicit
/// force-error input, and the `HeightTooSmall` outcome it produces reports
/// the grid as drawn regardless.
#[verifier::rlimit(100)]
pub fn draw_box(buffer: &mut Vec<Vec<BoxChar>>, options: BoxOptions, force_height_error: bool) -> (res:
    Result<(), DrawError>)
    requires
        options.model().wf(),
        old(buffer)@.len() == options.model().screen_h,
        forall|r: int|
            0 <= r < old(buffer)@.len() ==> (#[trigger] old(buffer)@[r])@.len()
                == options.model().screen_w,
    ensures
        final(buffer)@.len() == old(buffer)@.len(),
        forall|r: int|
            0 <= r < old(buffer)@.len() ==> (#[trigger] final(buffer)@[r])@ == row_after(
                options.model(),
                old(buffer)@[r]@,
                r,
            ),
        forall|r: int|
            0 <= r < final(buffer)@.len() ==> (#[trigger] final(buffer)@[r])@.len()
                == options.model().screen_w,
        res == (if force_height_error {
            Result::<(), DrawError>::Err(DrawError::HeightTooSmall)
        } else {
            Result::<(), DrawError>::Ok(())
        }),
{
    let ghost m = options.model();
    let ghost g0 = buffer@;
    proof {
        lemma_clip_in_bounds(m);
    }
    // Part 1: the top border row.
    if options.position.y >= 0 && options.border_options.top {
        let idx = options.position.y as usize;
        if idx < buffer.len() {
            draw_edge(buffer, &options, BorderFlags::top(), idx);
        }
    }
    let ghost g1 = buffer@;
    proof {
        assert forall|r: int| 0 <= r < g1.len() implies (#[trigger] g1[r])@ == (if top_active(m) && r
            == m.pos_y {
            splice_row(g0[r]@, splice_col(m), edge_span(m, top_mask()))
        } else {
            g0[r]@
        }) by {}
        assert forall|r: int| 0 <= r < g1.len() implies (#[trigger] g1[r])@.len() == m.screen_w by {
            if top_active(m) && r == m.pos_y {
                lemma_splice_len(g0[r]@, splice_col(m), edge_span(m, top_mask()));
            }
        }
    }
    // Part 2: the bottom border row.
    let py_i: i64 = options.position.y as i64;
    let bh_i: i64 = options.size.y as i64;
    let bottom_i: i64 = py_i + bh_i - 1;
    if bottom_i >= 0 && bottom_i < buffer.len() as i64 && options.border_options.bottom {
        draw_edge(buffer, &options, BorderFlags::bottom(), bottom_i as usize);
    }
    let ghost g2 = buffer@;
    proof {
        assert forall|r: int| 0 <= r < g2.len() implies (#[trigger] g2[r])@ == row_after_edges(
            m,
            g0[r]@,
            r,
        ) by {
            if bottom_active(m) && r == bottom_row(m) && top_active(m) && r == m.pos_y {
                lemma_splice_twice(
                    g0[r]@,
                    splice_col(m),
                    edge_span(m, top_mask()),
                    edge_span(m, bottom_mask()),
                );
            }
        }
        assert forall|r: int| 0 <= r < g2.len() implies (#[trigger] g2[r])@.len() == m.screen_w by {
            if bottom_active(m) && r == bottom_row(m) {
                lemma_splice_len(g1[r]@, splice_col(m), edge_span(m, bottom_mask()));
            }
        }
    }
    // Part 3: the shared middle row span.
    let (_, _, at) = clip_bounds(&options);
    let middle = build_middle_span(&options);
    // Part 4: the middle rows, content overlaid row by row.
    let mut i: usize = 0;
    while i < options.size.y
        invariant
            options.model() == m,
            m.wf(),
            i <= options.size.y,
            options.size.y == m.box_h,
            buffer@.len() == m.screen_h,
            forall|r: int| 0 <= r < buffer@.len() ==> (#[trigger] buffer@[r])@.len() == m.screen_w,
            g0.len() == m.screen_h,
            g2.len() == m.screen_h,
            forall|r: int| 0 <= r < g2.len() ==> (#[trigger] g2[r])@ == row_after_edges(m, g0[r]@, r),
            forall|r: int| 0 <= r < g2.len() ==> (#[trigger] g2[r])@.len() == m.screen_w,
            middle@ == middle_span(m),
            middle@.len() == clip_count(m),
            at == splice_col(m),
            0 <= splice_col(m),
            splice_col(m) + clip_count(m) <= m.screen_w,
            py_i == m.pos_y,
            forall|r: int|
                0 <= r < buffer@.len() ==> (#[trigger] buffer@[r])@ == (if 0 <= r - m.pos_y < i
                    && middle_active(m, r - m.pos_y) {
                    splice_row(g2[r]@, splice_col(m), middle_row_span(m, r - m.pos_y))
                } else {
                    g2[r]@
                }),
        decreases options.size.y - i,
    {
        let top_skip = i == 0 && options.border_options.top;
        let bot_skip = i == options.size.y - 1 && options.border_options.bottom;
        if !top_skip && !bot_skip {
            let mid_i: i64 = py_i + i as i64;
            if mid_i >= 0 && mid_i < buffer.len() as i64 {
                let row_idx = mid_i as usize;
                let this_line = build_middle_row(&middle, &options, i);
                splice_into_row(buffer, row_idx, at, &this_line);
                proof {
                    lemma_splice_len(g2[row_idx as int]@, splice_col(m), this_line@);
                }
            }
        }
        i += 1;
    }
    proof {
        assert forall|r: int| 0 <= r < buffer@.len() implies (#[trigger] buffer@[r])@ == row_after(
            m,
            g0[r]@,
            r,
        ) by {}
    }
    if force_height_error {
        return Err(DrawError::HeightTooSmall);
    }
    Ok(())
}

} // verus!
