//! The multi-box container: a persistent grid sized to the terminal.
//!
//! The container owns the grid and composes box draws into it; compiling
//! the grid and writing the result to a terminal stays with the caller.

use vstd::prelude::*;

use crate::common::{Color, Vec2};
use crate::draw::border::{BorderFlags, BorderStyle};
use crate::draw::boxes::{
    content_view, default_cell, draw_box, row_after, BoxChar, BoxModel, BoxOptions,
};

verus! {

/// A caller-facing box request: a box request without the screen size,
/// which the container supplies, plus an optional id under which the
/// request is retained for later reference.
#[derive(Clone)]
pub struct DivOptions {
    pub id: Option<String>,
    pub position: Vec2<i16>,
    pub size: Vec2<usize>,
    pub border_options: BorderFlags,
    pub border_style: BorderStyle,
    pub border_color: Option<Color>,
    pub background_color: Option<Color>,
    pub text_color: Option<Color>,
    pub content: Option<Vec<String>>,
}

impl DivOptions {
    /// The model of the box this request draws on a screen of the given
    /// size.
    pub open spec fn model(self, screen: Vec2<usize>) -> BoxModel {
        BoxModel {
            screen_w: screen.x as int,
            screen_h: screen.y as int,
            pos_x: self.position.x as int,
            pos_y: self.position.y as int,
            box_w: self.size.x as int,
            box_h: self.size.y as int,
            flags: self.border_options,
            style: self.border_style,
            border_color: self.border_color,
            background_color: self.background_color,
            text_color: self.text_color,
            content: content_view(self.content),
        }
    }
}

/// The container: a persistent cell grid plus the id-tagged requests that
/// were drawn into it. Later draws overwrite earlier ones cell by cell;
/// nothing is diffed.
pub struct Container {
    pub size: Vec2<usize>,
    pub buffer: Vec<Vec<BoxChar>>,
    pub objects: Vec<DivOptions>,
}

/// A grid of blank cells, `h` rows of `w` cells each.
fn make_grid(w: usize, h: usize) -> (g: Vec<Vec<BoxChar>>)
    ensures
        g@.len() == h,
        forall|r: int| 0 <= r < h ==> (#[trigger] g@[r])@.len() == w,
        forall|r: int, c: int| 0 <= r < h && 0 <= c < w ==> (#[trigger] g@[r]@[c]) == default_cell(),
{
    let mut g: Vec<Vec<BoxChar>> = Vec::new();
    let mut r: usize = 0;
    while r < h
        invariant
            r <= h,
            g@.len() == r,
            forall|k: int| 0 <= k < r ==> (#[trigger] g@[k])@.len() == w,
            forall|k: int, c: int|
                0 <= k < r && 0 <= c < w ==> (#[trigger] g@[k]@[c]) == default_cell(),
        decreases h - r,
    {
        let mut row: Vec<BoxChar> = Vec::new();
        let mut c: usize = 0;
        while c < w
            invariant
                c <= w,
                row@.len() == c,
                forall|k: int| 0 <= k < c ==> (#[trigger] row@[k]) == default_cell(),
            decreases w - c,
        {
            row.push(BoxChar::default());
            c += 1;
        }
        g.push(row);
        r += 1;
    }
    g
}

/// A deep copy of optional content lines.
fn clone_content(c: &Option<Vec<String>>) -> (r: Option<Vec<String>>)
    ensures
        content_view(r) == content_view(*c),
{
    match c {
        None => None,
        Some(v) => {
            let n = v.len();
            let mut out: Vec<String> = Vec::new();
            let mut i: usize = 0;
            while i < n
                invariant
                    n == v@.len(),
                    i <= n,
                    out@.len() == i,
                    forall|k: int| 0 <= k < i ==> #[trigger] out@[k] == v@[k],
                decreases n - i,
            {
                out.push(v[i].clone());
                i += 1;
            }
            proof {
                assert(out@ =~= v@);
            }
            Some(out)
        },
    }
}

impl Container {
    /// The container's grid matches its size, which fits machine limits.
    pub open spec fn wf(self) -> bool {
        &&& self.size.x <= 32767
        &&& self.size.y <= 32767
        &&& self.buffer@.len() == self.size.y
        &&& forall|r: int|
            0 <= r < self.buffer@.len() ==> (#[trigger] self.buffer@[r])@.len() == self.size.x
    }

    /// A container over a fresh grid of blank cells.
    pub fn new(size: Vec2<usize>) -> (r: Container)
        requires
            size.x <= 32767,
            size.y <= 32767,
        ensures
            r.wf(),
            r.size == size,
            forall|ri: int, ci: int|
                0 <= ri < size.y && 0 <= ci < size.x ==> (#[trigger] r.buffer@[ri]@[ci])
                    == default_cell(),
    {
        let buffer = make_grid(size.x, size.y);
        Container { size, buffer, objects: Vec::new() }
    }

    /// Draw one request into the owned grid, bound to this container's
    /// screen size; a request carrying an id is also retained for later
    /// reference. Every grid row becomes exactly `row_after` of its old
    /// value under the request's model.
    pub fn draw_box(&mut self, div_options: DivOptions)
        requires
            old(self).wf(),
            div_options.size.x <= 32767,
            div_options.size.y <= 32767,
        ensures
            final(self).wf(),
            final(self).size == old(self).size,
            forall|r: int|
                0 <= r < old(self).buffer@.len() ==> (#[trigger] final(self).buffer@[r])@
                    == row_after(
                    div_options.model(old(self).size),
                    old(self).buffer@[r]@,
                    r,
                ),
            final(self).objects@ == (if div_options.id is Some {
                old(self).objects@.push(div_options)
            } else {
                old(self).objects@
            }),
    {
        let options = BoxOptions {
            screen_size: Vec2 { x: self.size.x, y: self.size.y },
            position: div_options.position,
            size: div_options.size,
            border_options: div_options.border_options,
            border_style: div_options.border_style,
            border_color: div_options.border_color,
            background_color: div_options.background_color,
            text_color: div_options.text_color,
            content: clone_content(&div_options.content),
        };
        proof {
            assert(options.model() == div_options.model(self.size));
        }
        if div_options.id.is_some() {
            self.objects.push(div_options);
        }
        let _ = draw_box(&mut self.buffer, options, false);
    }

    /// Reset every cell of the owned grid to the blank default.
    pub fn clear(&mut self) -> (r: Result<(), String>)
        requires
            old(self).wf(),
        ensures
            final(self).wf(),
            final(self).size == old(self).size,
            forall|ri: int, ci: int|
                0 <= ri < old(self).size.y && 0 <= ci < old(self).size.x ==> (
                #[trigger] final(self).buffer@[ri]@[ci]) == default_cell(),
            r is Ok,
    {
        self.buffer = make_grid(self.size.x, self.size.y);
        Ok(())
    }
}

} // verus!
