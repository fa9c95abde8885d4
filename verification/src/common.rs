//! Geometry and color primitives, and the buffer-to-string compiler.

use vstd::prelude::*;
use vstd::string::StringExecFns;

use crate::draw::boxes::{cell_render, BoxChar};

verus! {

/// A generic 2D coordinate pair, used both for unsigned sizes and screen
/// dimensions and for signed positions (which may lie off the grid).
#[derive(Clone, Copy, PartialEq, Eq, Structural, Debug)]
pub struct Vec2<T = usize> {
    pub x: T,
    pub y: T,
}

impl<T> Vec2<T> {
    pub fn new(x: T, y: T) -> (r: Vec2<T>)
        ensures
            r == (Vec2 { x, y }),
    {
        Vec2 { x, y }
    }
}

/// A 24-bit RGB color. Absence of a color is expressed by `Option<Color> = None`,
/// never by a sentinel value of `Color` itself.
#[derive(Clone, Copy, PartialEq, Eq, Structural, Debug)]
pub struct Color {
    pub r: u8,
    pub g: u8,
    pub b: u8,
}

/// The character for one decimal digit.
pub open spec fn spec_digit_char(d: u8) -> char {
    if d == 0 {
        '0'
    } else if d == 1 {
        '1'
    } else if d == 2 {
        '2'
    } else if d == 3 {
        '3'
    } else if d == 4 {
        '4'
    } else if d == 5 {
        '5'
    } else if d == 6 {
        '6'
    } else if d == 7 {
        '7'
    } else if d == 8 {
        '8'
    } else {
        '9'
    }
}

/// The shortest decimal rendering of a byte: no leading zeros.
pub open spec fn spec_decimal(n: u8) -> Seq<char> {
    if n < 10 {
        seq![spec_digit_char(n)]
    } else if n < 100 {
        seq![spec_digit_char(n / 10), spec_digit_char(n % 10)]
    } else {
        seq![spec_digit_char(n / 100), spec_digit_char((n / 10) % 10), spec_digit_char(n % 10)]
    }
}

/// The reset sequence that terminates every styled run.
pub open spec fn ansi_reset() -> Seq<char> {
    seq!['\x1b', '[', '0', 'm']
}

/// The true-color foreground-set sequence for a color.
pub open spec fn fg_seq(c: Color) -> Seq<char> {
    seq!['\x1b', '[', '3', '8', ';', '2', ';'] + spec_decimal(c.r) + seq![';'] + spec_decimal(c.g)
        + seq![';'] + spec_decimal(c.b) + seq!['m']
}

/// The true-color background-set sequence for a color.
pub open spec fn bg_seq(c: Color) -> Seq<char> {
    seq!['\x1b', '[', '4', '8', ';', '2', ';'] + spec_decimal(c.r) + seq![';'] + spec_decimal(c.g)
        + seq![';'] + spec_decimal(c.b) + seq!['m']
}

/// Relies on `String::push`: appends exactly the given character.
#[verifier::external_body]
pub(crate) fn push_char(s: &mut String, c: char)
    ensures
        final(s)@ == old(s)@.push(c),
{
    s.push(c)
}

fn digit_char(d: u8) -> (r: char)
    requires
        d < 10,
    ensures
        r == spec_digit_char(d),
{
    if d == 0 {
        '0'
    } else if d == 1 {
        '1'
    } else if d == 2 {
        '2'
    } else if d == 3 {
        '3'
    } else if d == 4 {
        '4'
    } else if d == 5 {
        '5'
    } else if d == 6 {
        '6'
    } else if d == 7 {
        '7'
    } else if d == 8 {
        '8'
    } else {
        '9'
    }
}

fn push_decimal(s: &mut String, n: u8)
    ensures
        final(s)@ == old(s)@ + spec_decimal(n),
{
    if n < 10 {
        push_char(s, digit_char(n));
    } else if n < 100 {
        push_char(s, digit_char(n / 10));
        push_char(s, digit_char(n % 10));
    } else {
        push_char(s, digit_char(n / 100));
        push_char(s, digit_char((n / 10) % 10));
        push_char(s, digit_char(n % 10));
    }
    assert(final(s)@ =~= old(s)@ + spec_decimal(n));
}

impl Color {
    pub fn new(r: u8, g: u8, b: u8) -> (c: Color)
        ensures
            c == (Color { r, g, b }),
    {
        Color { r, g, b }
    }

    pub fn black() -> (c: Color)
        ensures
            c == (Color { r: 0, g: 0, b: 0 }),
    {
        Color { r: 0, g: 0, b: 0 }
    }

    pub fn white() -> (c: Color)
        ensures
            c == (Color { r: 255, g: 255, b: 255 }),
    {
        Color { r: 255, g: 255, b: 255 }
    }

    pub fn red() -> (c: Color)
        ensures
            c == (Color { r: 255, g: 0, b: 0 }),
    {
        Color { r: 255, g: 0, b: 0 }
    }

    pub fn green() -> (c: Color)
        ensures
            c == (Color { r: 0, g: 255, b: 0 }),
    {
        Color { r: 0, g: 255, b: 0 }
    }

    pub fn blue() -> (c: Color)
        ensures
            c == (Color { r: 0, g: 0, b: 255 }),
    {
        Color { r: 0, g: 0, b: 255 }
    }

    pub fn yellow() -> (c: Color)
        ensures
            c == (Color { r: 255, g: 255, b: 0 }),
    {
        Color { r: 255, g: 255, b: 0 }
    }

    pub fn cyan() -> (c: Color)
        ensures
            c == (Color { r: 0, g: 255, b: 255 }),
    {
        Color { r: 0, g: 255, b: 255 }
    }

    pub fn magenta() -> (c: Color)
        ensures
            c == (Color { r: 255, g: 0, b: 255 }),
    {
        Color { r: 255, g: 0, b: 255 }
    }

    /// The foreground-set escape sequence for this color.
    pub fn fg(&self) -> (r: String)
        ensures
            r@ == fg_seq(*self),
    {
        let mut s = String::new();
        push_char(&mut s, '\x1b');
        push_char(&mut s, '[');
        push_char(&mut s, '3');
        push_char(&mut s, '8');
        push_char(&mut s, ';');
        push_char(&mut s, '2');
        push_char(&mut s, ';');
        push_decimal(&mut s, self.r);
        push_char(&mut s, ';');
        push_decimal(&mut s, self.g);
        push_char(&mut s, ';');
        push_decimal(&mut s, self.b);
        push_char(&mut s, 'm');
        assert(s@ =~= fg_seq(*self));
        s
    }

    /// The background-set escape sequence for this color.
    pub fn bg(&self) -> (r: String)
        ensures
            r@ == bg_seq(*self),
    {
        let mut s = String::new();
        push_char(&mut s, '\x1b');
        push_char(&mut s, '[');
        push_char(&mut s, '4');
        push_char(&mut s, '8');
        push_char(&mut s, ';');
        push_char(&mut s, '2');
        push_char(&mut s, ';');
        push_decimal(&mut s, self.r);
        push_char(&mut s, ';');
        push_decimal(&mut s, self.g);
        push_char(&mut s, ';');
        push_decimal(&mut s, self.b);
        push_char(&mut s, 'm');
        assert(s@ =~= bg_seq(*self));
        s
    }
}

/// The terminator between compiled rows.
pub open spec fn crlf() -> Seq<char> {
    seq!['\r', '\n']
}

/// The styled text of one grid row: each cell's render, concatenated.
pub open spec fn row_render(row: Seq<BoxChar>) -> Seq<char>
    decreases row.len(),
{
    if row.len() == 0 {
        Seq::<char>::empty()
    } else {
        row_render(row.drop_last()) + cell_render(row.last())
    }
}

/// The compiled frame: the rows' styled text joined by the terminator, with
/// no terminator after the last row.
pub open spec fn grid_render(g: Seq<Seq<BoxChar>>) -> Seq<char>
    decreases g.len(),
{
    if g.len() == 0 {
        Seq::<char>::empty()
    } else if g.len() == 1 {
        row_render(g[0])
    } else {
        grid_render(g.drop_last()) + crlf() + row_render(g.last())
    }
}

/// Color isolation: every cell renders as a run that ends in its own reset
/// sequence, and concatenating two cells' renders leaves the first cell's
/// bytes exactly as they were on their own.
pub proof fn lemma_color_isolation(a: BoxChar, b: BoxChar)
    ensures
        cell_render(a).len() >= 5,
        cell_render(a).skip(cell_render(a).len() - 4) == ansi_reset(),
        row_render(seq![a, b]) == cell_render(a) + cell_render(b),
{
    assert(cell_render(a).skip(cell_render(a).len() - 4) =~= ansi_reset());
    let two = seq![a, b];
    let one = seq![a];
    assert(two.drop_last() =~= one);
    assert(one.drop_last() =~= Seq::<BoxChar>::empty());
    assert(row_render(Seq::<BoxChar>::empty()) == Seq::<char>::empty());
    assert(row_render(one) =~= cell_render(a));
    assert(row_render(two) =~= cell_render(a) + cell_render(b));
}

/// Round-trip compile: a three-row grid compiles to the three rows' styled
/// text joined by exactly two terminators, so splitting the result on the
/// terminator recovers the rows.
pub proof fn lemma_compile_three_rows(g: Seq<Seq<BoxChar>>)
    requires
        g.len() == 3,
    ensures
        grid_render(g) == row_render(g[0]) + crlf() + row_render(g[1]) + crlf() + row_render(g[2]),
{
    let d1 = g.drop_last();
    let d2 = d1.drop_last();
    assert(d1.len() == 2 && d2.len() == 1);
    assert(d1.last() == g[1] && d1[0] == g[0]);
    assert(d2[0] == g[0]);
    assert(grid_render(d2) == row_render(g[0]));
    assert(grid_render(d1) == row_render(g[0]) + crlf() + row_render(g[1]));
    assert(grid_render(g) =~= row_render(g[0]) + crlf() + row_render(g[1]) + crlf() + row_render(
        g[2],
    ));
}

/// The mathematical contents of a grid: one cell sequence per row.
pub open spec fn grid_view(g: Seq<Vec<BoxChar>>) -> Seq<Seq<BoxChar>> {
    g.map_values(|row: Vec<BoxChar>| row@)
}

/// Concatenate each row's cells into one line of styled text and join the
/// lines with the terminator. A grid of `H` rows compiles to `H` lines with
/// exactly `H - 1` embedded terminators.
pub fn compile_buffer(buffer: &Vec<Vec<BoxChar>>) -> (r: String)
    requires
        buffer@.len() >= 1,
    ensures
        r@ == grid_render(grid_view(buffer@)),
{
    let mut result = String::new();
    let rows = buffer.len();
    let mut ri: usize = 0;
    while ri < rows
        invariant
            rows == buffer@.len(),
            1 <= rows,
            ri <= rows,
            result@ == (if ri == 0 {
                Seq::<char>::empty()
            } else {
                grid_render(grid_view(buffer@).take(ri as int))
            }),
        decreases rows - ri,
    {
        if ri > 0 {
            result.append("\r\n");
            proof {
                reveal_strlit("\r\n");
                assert("\r\n"@ =~= crlf());
            }
        }
        let ghost base = result@;
        let cols = buffer[ri].len();
        let mut ci: usize = 0;
        while ci < cols
            invariant
                rows == buffer@.len(),
                ri < rows,
                cols == buffer@[ri as int]@.len(),
                ci <= cols,
                result@ == base + row_render(buffer@[ri as int]@.take(ci as int)),
            decreases cols - ci,
        {
            let cs = buffer[ri][ci].to_string();
            result.append(cs.as_str());
            proof {
                let row = buffer@[ri as int]@;
                assert(row.take(ci + 1).drop_last() =~= row.take(ci as int));
                assert(row.take(ci + 1).last() == row[ci as int]);
            }
            ci += 1;
        }
        proof {
            let g = grid_view(buffer@);
            assert(buffer@[ri as int]@.take(cols as int) =~= buffer@[ri as int]@);
            assert(g[ri as int] == buffer@[ri as int]@);
            assert(g.take(ri + 1).last() == g[ri as int]);
            assert(g.take(ri + 1).drop_last() =~= g.take(ri as int));
            if ri == 0 {
                assert(g.take(1)[0] == g[0]);
                assert(grid_render(g.take(1)) == row_render(g[0]));
            }
        }
        ri += 1;
    }
    proof {
        assert(grid_view(buffer@).take(rows as int) =~= grid_view(buffer@));
    }
    result
}

} // verus!
