//! Border flag algebra, the style glyph tables, and the edge glyph resolver.

use vstd::prelude::*;

verus! {

/// The set of border edges a box requests, plus the corner-preservation
/// policy. `preserve_corners` only affects corner glyph selection, never
/// plain edges.
#[derive(Clone, Copy, PartialEq, Eq, Structural, Debug)]
pub struct BorderFlags {
    pub top: bool,
    pub bottom: bool,
    pub left: bool,
    pub right: bool,
    pub preserve_corners: bool,
}

impl BorderFlags {
    /// Does `self` request everything that `other` requests?
    pub open spec fn spec_contains(self, other: BorderFlags) -> bool {
        &&& (other.top ==> self.top)
        &&& (other.bottom ==> self.bottom)
        &&& (other.left ==> self.left)
        &&& (other.right ==> self.right)
        &&& (other.preserve_corners ==> self.preserve_corners)
    }

    pub fn contains(&self, other: BorderFlags) -> (r: bool)
        ensures
            r == self.spec_contains(other),
    {
        (!other.top || self.top) && (!other.bottom || self.bottom) && (!other.left || self.left)
            && (!other.right || self.right) && (!other.preserve_corners || self.preserve_corners)
    }

    /// The flag set that requests everything either operand requests.
    pub fn union(self, other: BorderFlags) -> (r: BorderFlags)
        ensures
            r == (BorderFlags {
                top: self.top || other.top,
                bottom: self.bottom || other.bottom,
                left: self.left || other.left,
                right: self.right || other.right,
                preserve_corners: self.preserve_corners || other.preserve_corners,
            }),
    {
        BorderFlags {
            top: self.top || other.top,
            bottom: self.bottom || other.bottom,
            left: self.left || other.left,
            right: self.right || other.right,
            preserve_corners: self.preserve_corners || other.preserve_corners,
        }
    }

    pub open spec fn spec_none() -> BorderFlags {
        BorderFlags { top: false, bottom: false, left: false, right: false, preserve_corners: false }
    }

    pub fn none() -> (r: BorderFlags)
        ensures
            r == BorderFlags::spec_none(),
    {
        BorderFlags { top: false, bottom: false, left: false, right: false, preserve_corners: false }
    }

    pub fn top() -> (r: BorderFlags)
        ensures
            r == (BorderFlags { top: true, ..BorderFlags::spec_none() }),
    {
        BorderFlags { top: true, bottom: false, left: false, right: false, preserve_corners: false }
    }

    pub fn bottom() -> (r: BorderFlags)
        ensures
            r == (BorderFlags { bottom: true, ..BorderFlags::spec_none() }),
    {
        BorderFlags { top: false, bottom: true, left: false, right: false, preserve_corners: false }
    }

    pub fn left() -> (r: BorderFlags)
        ensures
            r == (BorderFlags { left: true, ..BorderFlags::spec_none() }),
    {
        BorderFlags { top: false, bottom: false, left: true, right: false, preserve_corners: false }
    }

    pub fn right() -> (r: BorderFlags)
        ensures
            r == (BorderFlags { right: true, ..BorderFlags::spec_none() }),
    {
        BorderFlags { top: false, bottom: false, left: false, right: true, preserve_corners: false }
    }

    pub fn preserve_corners() -> (r: BorderFlags)
        ensures
            r == (BorderFlags { preserve_corners: true, ..BorderFlags::spec_none() }),
    {
        BorderFlags { top: false, bottom: false, left: false, right: false, preserve_corners: true }
    }

    /// All four edges together with corner preservation.
    pub fn all() -> (r: BorderFlags)
        ensures
            r == (BorderFlags {
                top: true,
                bottom: true,
                left: true,
                right: true,
                preserve_corners: true,
            }),
    {
        BorderFlags { top: true, bottom: true, left: true, right: true, preserve_corners: true }
    }
}

/// The glyphs of one border style: four straight edges and four corners.
#[derive(Clone, Copy, PartialEq, Eq, Structural, Debug)]
pub struct BorderChars {
    pub top: char,
    pub left: char,
    pub right: char,
    pub bottom: char,
    pub top_left: char,
    pub top_right: char,
    pub bottom_left: char,
    pub bottom_right: char,
}

/// The UTF-8 byte width of a character.
pub open spec fn char_width(c: char) -> int {
    if (c as u32) < 0x80 {
        1
    } else if (c as u32) < 0x800 {
        2
    } else if (c as u32) < 0x10000 {
        3
    } else {
        4
    }
}

impl BorderChars {
    /// The byte width of this style's edge glyph. Cells holding a border
    /// glyph are told apart from blank or text cells by this width.
    pub fn border_width(&self) -> (r: usize)
        ensures
            r == char_width(self.top),
    {
        let u = self.top as u32;
        if u < 0x80 {
            1
        } else if u < 0x800 {
            2
        } else if u < 0x10000 {
            3
        } else {
            4
        }
    }
}

/// The named glyph sets a box may be drawn with.
#[derive(Clone, Copy, PartialEq, Eq, Structural, Debug)]
pub enum BorderStyle {
    Block,
    Rounded,
    Sharp,
    Thick,
    Double,
    Dotted,
}

/// The glyph table of each style.
pub open spec fn spec_chars(style: BorderStyle) -> BorderChars {
    match style {
        BorderStyle::Block => BorderChars {
            top: '▄',
            left: '▐',
            right: '▌',
            bottom: '▀',
            top_left: '▗',
            top_right: '▖',
            bottom_left: '▝',
            bottom_right: '▘',
        },
        BorderStyle::Rounded => BorderChars {
            top: '─',
            left: '│',
            right: '│',
            bottom: '─',
            top_left: '╭',
            top_right: '╮',
            bottom_left: '╰',
            bottom_right: '╯',
        },
        BorderStyle::Sharp => BorderChars {
            top: '─',
            left: '│',
            right: '│',
            bottom: '─',
            top_left: '┌',
            top_right: '┐',
            bottom_left: '└',
            bottom_right: '┘',
        },
        BorderStyle::Thick => BorderChars {
            top: '━',
            left: '┃',
            right: '┃',
            bottom: '━',
            top_left: '┏',
            top_right: '┓',
            bottom_left: '┗',
            bottom_right: '┛',
        },
        BorderStyle::Double => BorderChars {
            top: '═',
            left: '║',
            right: '║',
            bottom: '═',
            top_left: '╔',
            top_right: '╗',
            bottom_left: '╚',
            bottom_right: '╝',
        },
        BorderStyle::Dotted => BorderChars {
            top: '╌',
            left: '╎',
            right: '╎',
            bottom: '╌',
            top_left: '┌',
            top_right: '┐',
            bottom_left: '└',
            bottom_right: '┘',
        },
    }
}

impl BorderStyle {
    pub fn chars(&self) -> (r: BorderChars)
        ensures
            r == spec_chars(*self),
    {
        match self {
            BorderStyle::Block => BorderChars {
                top: '▄',
                left: '▐',
                right: '▌',
                bottom: '▀',
                top_left: '▗',
                top_right: '▖',
                bottom_left: '▝',
                bottom_right: '▘',
            },
            BorderStyle::Rounded => BorderChars {
                top: '─',
                left: '│',
                right: '│',
                bottom: '─',
                top_left: '╭',
                top_right: '╮',
                bottom_left: '╰',
                bottom_right: '╯',
            },
            BorderStyle::Sharp => BorderChars {
                top: '─',
                left: '│',
                right: '│',
                bottom: '─',
                top_left: '┌',
                top_right: '┐',
                bottom_left: '└',
                bottom_right: '┘',
            },
            BorderStyle::Thick => BorderChars {
                top: '━',
                left: '┃',
                right: '┃',
                bottom: '━',
                top_left: '┏',
                top_right: '┓',
                bottom_left: '┗',
                bottom_right: '┛',
            },
            BorderStyle::Double => BorderChars {
                top: '═',
                left: '║',
                right: '║',
                bottom: '═',
                top_left: '╔',
                top_right: '╗',
                bottom_left: '╚',
                bottom_right: '╝',
            },
            BorderStyle::Dotted => BorderChars {
                top: '╌',
                left: '╎',
                right: '╎',
                bottom: '╌',
                top_left: '┌',
                top_right: '┐',
                bottom_left: '└',
                bottom_right: '┘',
            },
        }
    }
}

/// Which glyph stands at a cell, given the requested edges and the cell's
/// structural position (the edges that intersect there).
///
/// At a corner position the corner glyph is used when both adjoining edges
/// are requested, or when corner preservation is on and at least one of them
/// is; otherwise the first requested adjoining edge's straight glyph, in
/// (top, bottom, left, right) precedence; otherwise a blank. At a plain edge
/// position the edge's glyph is used exactly when that edge is requested.
pub open spec fn edge_glyph(flags: BorderFlags, style: BorderStyle, position: BorderFlags) -> char {
    let ch = spec_chars(style);
    if position.top && position.left {
        if (flags.top && flags.left) || (flags.preserve_corners && (flags.top || flags.left)) {
            ch.top_left
        } else if flags.top {
            ch.top
        } else if flags.left {
            ch.left
        } else {
            ' '
        }
    } else if position.top && position.right {
        if (flags.top && flags.right) || (flags.preserve_corners && (flags.top || flags.right)) {
            ch.top_right
        } else if flags.top {
            ch.top
        } else if flags.right {
            ch.right
        } else {
            ' '
        }
    } else if position.bottom && position.left {
        if (flags.bottom && flags.left) || (flags.preserve_corners && (flags.bottom
            || flags.left)) {
            ch.bottom_left
        } else if flags.bottom {
            ch.bottom
        } else if flags.left {
            ch.left
        } else {
            ' '
        }
    } else if position.bottom && position.right {
        if (flags.bottom && flags.right) || (flags.preserve_corners && (flags.bottom
            || flags.right)) {
            ch.bottom_right
        } else if flags.bottom {
            ch.bottom
        } else if flags.right {
            ch.right
        } else {
            ' '
        }
    } else if position.top {
        if flags.top {
            ch.top
        } else {
            ' '
        }
    } else if position.bottom {
        if flags.bottom {
            ch.bottom
        } else {
            ' '
        }
    } else if position.left {
        if flags.left {
            ch.left
        } else {
            ' '
        }
    } else if position.right {
        if flags.right {
            ch.right
        } else {
            ' '
        }
    } else {
        ' '
    }
}

/// Corner fallback: with only the top edge requested and corners not
/// preserved, a top-left corner cell falls back to the plain top-edge
/// glyph; with corner preservation set, the same cell keeps the top-left
/// corner glyph. This holds for every style.
pub proof fn lemma_corner_fallback(style: BorderStyle)
    ensures
        edge_glyph(
            BorderFlags { top: true, ..BorderFlags::spec_none() },
            style,
            BorderFlags { top: true, left: true, ..BorderFlags::spec_none() },
        ) == spec_chars(style).top,
        edge_glyph(
            BorderFlags { top: true, preserve_corners: true, ..BorderFlags::spec_none() },
            style,
            BorderFlags { top: true, left: true, ..BorderFlags::spec_none() },
        ) == spec_chars(style).top_left,
{
}

/// Resolve the glyph for one cell of a border from the requested edges and
/// the cell's structural position.
pub fn determine_edge(flags: &BorderFlags, style: &BorderStyle, position: BorderFlags) -> (r: char)
    ensures
        r == edge_glyph(*flags, *style, position),
{
    let chars = style.chars();

    if position.top && position.left {
        if (flags.top && flags.left) || (flags.preserve_corners && (flags.top || flags.left)) {
            chars.top_left
        } else if flags.top {
            chars.top
        } else if flags.left {
            chars.left
        } else {
            ' '
        }
    } else if position.top && position.right {
        if (flags.top && flags.right) || (flags.preserve_corners && (flags.top || flags.right)) {
            chars.top_right
        } else if flags.top {
            chars.top
        } else if flags.right {
            chars.right
        } else {
            ' '
        }
    } else if position.bottom && position.left {
        if (flags.bottom && flags.left) || (flags.preserve_corners && (flags.bottom || flags.left))
        {
            chars.bottom_left
        } else if flags.bottom {
            chars.bottom
        } else if flags.left {
            chars.left
        } else {
            ' '
        }
    } else if position.bottom && position.right {
        if (flags.bottom && flags.right) || (flags.preserve_corners && (flags.bottom
            || flags.right)) {
            chars.bottom_right
        } else if flags.bottom {
            chars.bottom
        } else if flags.right {
            chars.right
        } else {
            ' '
        }
    } else if position.top {
        if flags.top {
            chars.top
        } else {
            ' '
        }
    } else if position.bottom {
        if flags.bottom {
            chars.bottom
        } else {
            ' '
        }
    } else if position.left {
        if flags.left {
            chars.left
        } else {
            ' '
        }
    } else if position.right {
        if flags.right {
            chars.right
        } else {
            ' '
        }
    } else {
        ' '
    }
}

} // verus!
