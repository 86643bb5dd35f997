//! What the renderer paints: per cell its background and its text, and the
//! cursor. Geometry is in Pango units (see `grid`); the host divides by
//! `PANGO_SCALE` to get the pixel coordinates it hands to Cairo.

use vstd::prelude::*;

use crate::ghostty::{
    GhosttyColorRgb, GhosttyRenderStateColors, GhosttyResult, GhosttyStyle, GHOSTTY_SUCCESS,
    GHOSTTY_RENDER_STATE_CURSOR_VISUAL_STYLE_BAR, GHOSTTY_RENDER_STATE_CURSOR_VISUAL_STYLE_BLOCK,
    GHOSTTY_RENDER_STATE_CURSOR_VISUAL_STYLE_BLOCK_HOLLOW,
    GHOSTTY_RENDER_STATE_CURSOR_VISUAL_STYLE_UNDERLINE, GhosttyRenderStateCursorVisualStyle,
};
use crate::grid::{CellMetrics, PANGO_SCALE};
use crate::strings::{char_from_u32, push_char};

verus! {

/// The default background and foreground colors a new terminal is given:
/// a dark theme.
pub fn dark_theme_colors() -> (colors: (GhosttyColorRgb, GhosttyColorRgb))
    ensures
        colors.0 == (GhosttyColorRgb { r: 30, g: 30, b: 46 }),
        colors.1 == (GhosttyColorRgb { r: 205, g: 214, b: 244 }),
{
    (GhosttyColorRgb { r: 30, g: 30, b: 46 }, GhosttyColorRgb { r: 205, g: 214, b: 244 })
}

/// An axis-aligned rectangle in Pango units.
#[derive(Clone, Copy, Debug, PartialEq, Eq, Structural)]
pub struct Rect {
    pub x: i64,
    pub y: i64,
    pub width: i64,
    pub height: i64,
}

/// The rectangle of the cell in column `col` and row `row`.
pub open spec fn cell_rect_spec(col: int, row: int, m: CellMetrics) -> Rect {
    Rect {
        x: (col * m.spec_width()) as i64,
        y: (row * m.spec_height()) as i64,
        width: m.spec_width() as i64,
        height: m.spec_height() as i64,
    }
}

proof fn lemma_cell_coords_bounded(col: int, row: int, m: CellMetrics)
    requires
        0 <= col <= 0xffff,
        0 <= row <= 0xffff,
    ensures
        -0x1_0000_0000_0000 <= col * m.spec_width() <= 0x1_0000_0000_0000,
        -0x1_0000_0000_0000 <= row * m.spec_height() <= 0x1_0000_0000_0000,
{
    let w = m.spec_width();
    let h = m.spec_height();
    assert(-0x8000_0000 <= w <= 0x8000_0000);
    assert(-0x1_0000_0000 <= h <= 0x1_0000_0000);
    assert(-0x1_0000_0000_0000 <= col * w <= 0x1_0000_0000_0000) by (nonlinear_arith)
        requires
            0 <= col <= 0xffff,
            -0x8000_0000 <= w <= 0x8000_0000,
    ;
    assert(-0x1_0000_0000_0000 <= row * h <= 0x1_0000_0000_0000) by (nonlinear_arith)
        requires
            0 <= row <= 0xffff,
            -0x1_0000_0000 <= h <= 0x1_0000_0000,
    ;
}

/// The rectangle of the cell in column `col` and row `row`.
pub fn cell_rect(col: u16, row: u16, m: &CellMetrics) -> (r: Rect)
    ensures
        r == cell_rect_spec(col as int, row as int, *m),
{
    proof {
        lemma_cell_coords_bounded(col as int, row as int, *m);
    }
    let w = m.width();
    let h = m.height();
    Rect { x: col as i64 * w, y: row as i64 * h, width: w, height: h }
}

/// Whether the top of row `row` lies below the bottom of a widget `height`
/// pixels tall; rows from there on are not drawn.
pub fn row_below_widget(row: u16, height: i32, m: &CellMetrics) -> (b: bool)
    ensures
        b == (row * m.spec_height() > height * PANGO_SCALE),
{
    proof {
        lemma_cell_coords_bounded(0, row as int, *m);
    }
    row as i64 * m.height() > height as i64 * PANGO_SCALE
}

// -------------------------------------------------------------------
// Cell text
// -------------------------------------------------------------------

/// The characters of the codepoints that are Unicode scalar values, in
/// order; the others are dropped.
pub open spec fn chars_of_codepoints(cps: Seq<u32>) -> Seq<char>
    decreases cps.len(),
{
    if cps.len() == 0 {
        seq![]
    } else {
        chars_of_codepoints(cps.drop_last()) + (if vstd::utf8::is_scalar(cps.last()) {
            seq![cps.last() as char]
        } else {
            seq![]
        })
    }
}

/// The text of a cell's grapheme: its codepoints as characters, skipping
/// those that are not Unicode scalar values.
pub fn codepoints_to_text(cps: &Vec<u32>) -> (text: String)
    ensures
        text@ == chars_of_codepoints(cps@),
{
    let mut text = String::new();
    let mut i: usize = 0;
    while i < cps.len()
        invariant
            i <= cps.len(),
            text@ == chars_of_codepoints(cps@.subrange(0, i as int)),
        decreases cps.len() - i,
    {
        let cp = cps[i];
        proof {
            let next = cps@.subrange(0, i + 1);
            assert(next.drop_last() =~= cps@.subrange(0, i as int));
            assert(next.last() == cp);
        }
        match char_from_u32(cp) {
            Some(c) => {
                push_char(&mut text, c);
                proof {
                    vstd::utf8::char_u32_cast(c, cp);
                }
            },
            None => {},
        }
        i = i + 1;
    }
    assert(cps@.subrange(0, cps.len() as int) =~= cps@);
    text
}

/// Whether a cell's text is drawn: it is not empty and not a single space.
pub open spec fn draws_text(text: Seq<char>) -> bool {
    text.len() > 0 && text != seq![' ']
}

/// The text of a cell and how it is drawn: in `color`, bold and italic as the
/// cell's style says, with the layout's origin at `(x, y)`.
pub struct TextPaint {
    pub text: String,
    pub color: GhosttyColorRgb,
    pub bold: bool,
    pub italic: bool,
    pub x: i64,
    pub y: i64,
}

/// What is painted for one cell: its background rectangle in its own color,
/// where the cell has one, and its text, where it has some.
pub struct CellPaint {
    pub background: Option<(Rect, GhosttyColorRgb)>,
    pub text: Option<TextPaint>,
}

/// What to paint for the cell in column `col` and row `row`. `bg_res` and
/// `cell_bg` are what the query of the cell's background color gave, `cps`
/// its grapheme codepoints, `fg_res` and `cell_fg` the query of its
/// foreground color, `style` its style, and `default_fg` the render state's
/// foreground color.
pub fn cell_paint(
    col: u16,
    row: u16,
    m: &CellMetrics,
    bg_res: GhosttyResult,
    cell_bg: GhosttyColorRgb,
    cps: &Vec<u32>,
    fg_res: GhosttyResult,
    cell_fg: GhosttyColorRgb,
    style: &GhosttyStyle,
    default_fg: GhosttyColorRgb,
) -> (p: CellPaint)
    ensures
        p.background == (if bg_res == GHOSTTY_SUCCESS {
            Some((cell_rect_spec(col as int, row as int, *m), cell_bg))
        } else {
            None
        }),
        p.text is Some <==> draws_text(chars_of_codepoints(cps@)),
        p.text matches Some(t) ==> {
            &&& t.text@ == chars_of_codepoints(cps@)
            &&& t.color == (if fg_res == GHOSTTY_SUCCESS {
                cell_fg
            } else {
                default_fg
            })
            &&& t.bold == style.bold
            &&& t.italic == style.italic
            &&& t.x == cell_rect_spec(col as int, row as int, *m).x
            &&& t.y == cell_rect_spec(col as int, row as int, *m).y
        },
{
    let rect = cell_rect(col, row, m);
    let background = if bg_res == GHOSTTY_SUCCESS {
        Some((rect, cell_bg))
    } else {
        None
    };
    let text = codepoints_to_text(cps);
    let t: &str = text.as_str();
    let drawn = if t.unicode_len() == 0 {
        false
    } else if t.unicode_len() == 1 {
        t.get_char(0) != ' '
    } else {
        true
    };
    proof {
        if text@.len() == 1 {
            assert(text@ == seq![' '] <==> text@[0] == ' ') by {
                if text@[0] == ' ' {
                    assert(text@ =~= seq![' ']);
                }
            }
        }
    }
    if drawn {
        let color = if fg_res == GHOSTTY_SUCCESS {
            cell_fg
        } else {
            default_fg
        };
        CellPaint {
            background,
            text: Some(
                TextPaint {
                    text,
                    color,
                    bold: style.bold,
                    italic: style.italic,
                    x: rect.x,
                    y: rect.y,
                },
            ),
        }
    } else {
        CellPaint { background, text: None }
    }
}

// -------------------------------------------------------------------
// Cursor
// -------------------------------------------------------------------

/// Width of the bar cursor and height of the underline cursor: 2 pixels.
pub const CURSOR_THICKNESS: i64 = 2 * PANGO_SCALE;

/// How the cursor is drawn: a filled rectangle, or the outline of a
/// rectangle stroked with a line 1 pixel wide.
#[derive(Clone, Copy, Debug, PartialEq, Eq, Structural)]
pub enum CursorShape {
    Fill(Rect),
    Stroke(Rect),
}

/// The cursor's color and shape.
#[derive(Clone, Copy, Debug, PartialEq, Eq, Structural)]
pub struct CursorPaint {
    pub color: GhosttyColorRgb,
    pub shape: CursorShape,
}

/// The shape of a cursor in `style` over the cell `cell`: BLOCK fills the
/// cell, BAR fills a 2-pixel strip at its left edge, UNDERLINE a 2-pixel
/// strip at its bottom, BLOCK_HOLLOW strokes its outline half a pixel inside;
/// other styles draw nothing.
pub open spec fn cursor_shape_spec(style: int, cell: Rect) -> Option<CursorShape> {
    if style == GHOSTTY_RENDER_STATE_CURSOR_VISUAL_STYLE_BLOCK {
        Some(CursorShape::Fill(cell))
    } else if style == GHOSTTY_RENDER_STATE_CURSOR_VISUAL_STYLE_BAR {
        Some(CursorShape::Fill(Rect { width: CURSOR_THICKNESS, ..cell }))
    } else if style == GHOSTTY_RENDER_STATE_CURSOR_VISUAL_STYLE_UNDERLINE {
        Some(
            CursorShape::Fill(
                Rect {
                    y: (cell.y + cell.height - CURSOR_THICKNESS) as i64,
                    height: CURSOR_THICKNESS,
                    ..cell
                },
            ),
        )
    } else if style == GHOSTTY_RENDER_STATE_CURSOR_VISUAL_STYLE_BLOCK_HOLLOW {
        Some(
            CursorShape::Stroke(
                Rect {
                    x: (cell.x + PANGO_SCALE / 2) as i64,
                    y: (cell.y + PANGO_SCALE / 2) as i64,
                    width: (cell.width - PANGO_SCALE) as i64,
                    height: (cell.height - PANGO_SCALE) as i64,
                },
            ),
        )
    } else {
        None
    }
}

/// The area a shape covers: a filled rectangle itself, a stroked outline its
/// rectangle widened by half the 1-pixel line on every side.
pub open spec fn covered_area(shape: CursorShape) -> Rect {
    match shape {
        CursorShape::Fill(r) => r,
        CursorShape::Stroke(r) => Rect {
            x: (r.x - PANGO_SCALE / 2) as i64,
            y: (r.y - PANGO_SCALE / 2) as i64,
            width: (r.width + PANGO_SCALE) as i64,
            height: (r.height + PANGO_SCALE) as i64,
        },
    }
}

/// `inner` lies within `outer`.
pub open spec fn rect_within(inner: Rect, outer: Rect) -> bool {
    &&& outer.x <= inner.x
    &&& outer.y <= inner.y
    &&& inner.x + inner.width <= outer.x + outer.width
    &&& inner.y + inner.height <= outer.y + outer.height
}

/// What to paint for the cursor. `has_cursor` says whether the cursor is in
/// the viewport, `visible` whether it is shown, `(cx, cy)` its cell and
/// `style` its visual style. The cursor takes the render state's cursor
/// color where it has one, and its foreground color otherwise.
pub fn cursor_paint(
    has_cursor: bool,
    visible: bool,
    cx: u16,
    cy: u16,
    style: GhosttyRenderStateCursorVisualStyle,
    colors: &GhosttyRenderStateColors,
    m: &CellMetrics,
) -> (p: Option<CursorPaint>)
    ensures
        !has_cursor || !visible ==> p is None,
        has_cursor && visible ==> p == (match cursor_shape_spec(
            style as int,
            cell_rect_spec(cx as int, cy as int, *m),
        ) {
            Some(shape) => Some(
                CursorPaint {
                    color: if colors.cursor_has_value {
                        colors.cursor
                    } else {
                        colors.foreground
                    },
                    shape,
                },
            ),
            None => None,
        }),
        m.spec_width() >= CURSOR_THICKNESS && m.spec_height() >= CURSOR_THICKNESS ==> (p matches Some(
            c,
        ) ==> rect_within(covered_area(c.shape), cell_rect_spec(cx as int, cy as int, *m))),
{
    if !has_cursor {
        return None;
    }
    if !visible {
        return None;
    }
    let color = if colors.cursor_has_value {
        colors.cursor
    } else {
        colors.foreground
    };
    let cell = cell_rect(cx, cy, m);
    proof {
        lemma_cell_coords_bounded(cx as int, cy as int, *m);
    }
    let shape = match style {
        GHOSTTY_RENDER_STATE_CURSOR_VISUAL_STYLE_BLOCK => CursorShape::Fill(cell),
        GHOSTTY_RENDER_STATE_CURSOR_VISUAL_STYLE_BAR => CursorShape::Fill(
            Rect { x: cell.x, y: cell.y, width: CURSOR_THICKNESS, height: cell.height },
        ),
        GHOSTTY_RENDER_STATE_CURSOR_VISUAL_STYLE_UNDERLINE => CursorShape::Fill(
            Rect {
                x: cell.x,
                y: cell.y + cell.height - CURSOR_THICKNESS,
                width: cell.width,
                height: CURSOR_THICKNESS,
            },
        ),
        GHOSTTY_RENDER_STATE_CURSOR_VISUAL_STYLE_BLOCK_HOLLOW => CursorShape::Stroke(
            Rect {
                x: cell.x + PANGO_SCALE / 2,
                y: cell.y + PANGO_SCALE / 2,
                width: cell.width - PANGO_SCALE,
                height: cell.height - PANGO_SCALE,
            },
        ),
        _ => {
            return None;
        },
    };
    Some(CursorPaint { color, shape })
}

// -------------------------------------------------------------------
// Laws
// -------------------------------------------------------------------

/// Cells tile the grid: a cell is one cell wide and tall, the cell in
/// column `col` starts `col` cell widths from the left and the cell in row
/// `row` starts `row` cell heights from the top, so each cell begins where
/// its left (upper) neighbour ends.
pub proof fn lemma_cells_tile(col: int, row: int, m: CellMetrics)
    requires
        0 <= col < 0xffff,
        0 <= row < 0xffff,
    ensures
        cell_rect_spec(col, row, m).width == m.char_width,
        cell_rect_spec(col, row, m).height == m.ascent + m.descent,
        cell_rect_spec(col, row, m).x == col * m.char_width,
        cell_rect_spec(col, row, m).y == row * (m.ascent + m.descent),
        cell_rect_spec(col + 1, row, m).x == cell_rect_spec(col, row, m).x + cell_rect_spec(
            col,
            row,
            m,
        ).width,
        cell_rect_spec(col, row + 1, m).y == cell_rect_spec(col, row, m).y + cell_rect_spec(
            col,
            row,
            m,
        ).height,
{
    lemma_cell_coords_bounded(col, row, m);
    lemma_cell_coords_bounded(col + 1, row + 1, m);
    assert((col + 1) * m.spec_width() == col * m.spec_width() + m.spec_width()) by (nonlinear_arith);
    assert((row + 1) * m.spec_height() == row * m.spec_height() + m.spec_height())
        by (nonlinear_arith);
}

/// A cell's text keeps exactly the codepoints that are Unicode scalar
/// values, in order: appending a scalar appends its character, appending
/// anything else changes nothing, and a grapheme made only of scalars gives
/// one character per codepoint.
pub proof fn lemma_cell_text(cps: Seq<u32>, cp: u32)
    ensures
        chars_of_codepoints(Seq::empty()) == Seq::<char>::empty(),
        vstd::utf8::is_scalar(cp) ==> chars_of_codepoints(cps.push(cp)) == chars_of_codepoints(
            cps,
        ).push(cp as char),
        !vstd::utf8::is_scalar(cp) ==> chars_of_codepoints(cps.push(cp)) == chars_of_codepoints(
            cps,
        ),
        chars_of_codepoints(cps).len() <= cps.len(),
    decreases cps.len(),
{
    assert(cps.push(cp).drop_last() =~= cps);
    if cps.len() > 0 {
        lemma_cell_text(cps.drop_last(), cps.last());
    }
}

/// A grapheme of scalar values gives its characters one for one.
pub proof fn lemma_cell_text_all_scalars(cps: Seq<u32>)
    requires
        forall|i: int| 0 <= i < cps.len() ==> vstd::utf8::is_scalar(#[trigger] cps[i]),
    ensures
        chars_of_codepoints(cps).len() == cps.len(),
        forall|i: int| 0 <= i < cps.len() ==> chars_of_codepoints(cps)[i] as u32 == cps[i],
    decreases cps.len(),
{
    if cps.len() > 0 {
        let init = cps.drop_last();
        assert forall|i: int| 0 <= i < init.len() implies vstd::utf8::is_scalar(
            #[trigger] init[i],
        ) by {
            assert(init[i] == cps[i]);
        }
        lemma_cell_text_all_scalars(init);
        lemma_cell_text(init, cps.last());
        assert(init.push(cps.last()) =~= cps);
        assert forall|i: int| 0 <= i < cps.len() implies chars_of_codepoints(cps)[i] as u32
            == cps[i] by {
            if i < init.len() {
                assert(init[i] == cps[i]);
            } else {
                let c = cps.last() as char;
                assert(vstd::utf8::is_scalar(cps.last()));
                assert((cps.last() as char) as u32 == cps.last());
            }
        }
    }
}

/// A cell's text is drawn unless it is empty or a single space: any text
/// with a character other than the space, or of more than one character, is
/// drawn.
pub proof fn lemma_draws_text(t: Seq<char>)
    ensures
        !draws_text(Seq::empty()),
        !draws_text(seq![' ']),
        t.len() > 1 ==> draws_text(t),
        (exists|i: int| 0 <= i < t.len() && t[i] != ' ') ==> draws_text(t),
{
    if exists|i: int| 0 <= i < t.len() && t[i] != ' ' {
        let i = choose|i: int| 0 <= i < t.len() && t[i] != ' ';
        if t == seq![' '] {
            assert(t[i] == ' ');
        }
    }
}

/// The cursor shapes against the cell: BLOCK fills the cell; BAR fills a
/// strip of the cursor thickness on the cell's left edge, the cell's full
/// height; UNDERLINE fills a strip of that thickness along the cell's bottom
/// edge, the cell's full width; BLOCK_HOLLOW strokes a 1-pixel line whose
/// outer edge is the cell's edge; every other style draws nothing.
pub proof fn lemma_cursor_shapes(style: int, cell: Rect)
    requires
        -0x1_0000_0000_0000 <= cell.x <= 0x1_0000_0000_0000,
        -0x1_0000_0000_0000 <= cell.y <= 0x1_0000_0000_0000,
        -0x1_0000_0000 <= cell.width <= 0x1_0000_0000,
        -0x1_0000_0000 <= cell.height <= 0x1_0000_0000,
    ensures
        style == GHOSTTY_RENDER_STATE_CURSOR_VISUAL_STYLE_BLOCK ==> cursor_shape_spec(style, cell)
            == Some(CursorShape::Fill(cell)),
        style == GHOSTTY_RENDER_STATE_CURSOR_VISUAL_STYLE_BAR ==> (cursor_shape_spec(style, cell)
            matches Some(CursorShape::Fill(r)) && r.x == cell.x && r.y == cell.y && r.width == 2
            * 1024 && r.height == cell.height),
        style == GHOSTTY_RENDER_STATE_CURSOR_VISUAL_STYLE_UNDERLINE ==> (cursor_shape_spec(
            style,
            cell,
        ) matches Some(CursorShape::Fill(r)) && r.x == cell.x && r.width == cell.width
            && r.height == 2 * 1024 && r.y + r.height == cell.y + cell.height),
        style == GHOSTTY_RENDER_STATE_CURSOR_VISUAL_STYLE_BLOCK_HOLLOW ==> (cursor_shape_spec(
            style,
            cell,
        ) matches Some(CursorShape::Stroke(r)) && r.x - 512 == cell.x && r.y - 512 == cell.y
            && r.x + r.width + 512 == cell.x + cell.width && r.y + r.height + 512 == cell.y
            + cell.height),
        (style != GHOSTTY_RENDER_STATE_CURSOR_VISUAL_STYLE_BLOCK && style
            != GHOSTTY_RENDER_STATE_CURSOR_VISUAL_STYLE_BAR && style
            != GHOSTTY_RENDER_STATE_CURSOR_VISUAL_STYLE_UNDERLINE && style
            != GHOSTTY_RENDER_STATE_CURSOR_VISUAL_STYLE_BLOCK_HOLLOW) ==> cursor_shape_spec(
            style,
            cell,
        ) is None,
{
}

/// The cell of a cursor anywhere in the viewport is `cx` cell widths from
/// the left and `cy` cell heights from the top, one cell wide and tall, and
/// lies in the range over which `lemma_cursor_shapes` speaks.
pub proof fn lemma_cursor_cell(cx: u16, cy: u16, m: CellMetrics)
    ensures
        ({
            let cell = cell_rect_spec(cx as int, cy as int, m);
            &&& cell.x == cx * m.char_width
            &&& cell.y == cy * (m.ascent + m.descent)
            &&& cell.width == m.char_width
            &&& cell.height == m.ascent + m.descent
            &&& -0x1_0000_0000_0000 <= cell.x <= 0x1_0000_0000_0000
            &&& -0x1_0000_0000_0000 <= cell.y <= 0x1_0000_0000_0000
            &&& -0x1_0000_0000 <= cell.width <= 0x1_0000_0000
            &&& -0x1_0000_0000 <= cell.height <= 0x1_0000_0000
        }),
{
    lemma_cell_coords_bounded(cx as int, cy as int, m);
}

} // verus!
