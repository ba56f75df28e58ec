//! The abstract frame the renderer produces: a sequence of draw
//! primitives (text at a position, filled rectangle) for the fixed-size
//! monochrome surface. The display driver that rasterizes it is outside
//! this library.

use vstd::prelude::*;

verus! {

/// One drawing operation on the surface.
#[derive(Debug, Clone, PartialEq, Eq)]
pub enum DrawPrimitive {
    Text { x: i32, y: i32, text: String },
    Rect { x1: i32, y1: i32, x2: i32, y2: i32 },
}

/// Mathematical model of one drawing operation.
pub enum PrimV {
    Text { x: int, y: int, text: Seq<char> },
    Rect { x1: int, y1: int, x2: int, y2: int },
}

impl View for DrawPrimitive {
    type V = PrimV;

    open spec fn view(&self) -> PrimV {
        match self {
            DrawPrimitive::Text { x, y, text } => PrimV::Text {
                x: *x as int,
                y: *y as int,
                text: text@,
            },
            DrawPrimitive::Rect { x1, y1, x2, y2 } => PrimV::Rect {
                x1: *x1 as int,
                y1: *y1 as int,
                x2: *x2 as int,
                y2: *y2 as int,
            },
        }
    }
}

pub open spec fn text_at(x: int, y: int, text: Seq<char>) -> PrimV {
    PrimV::Text { x, y, text }
}

pub open spec fn rect_at(x1: int, y1: int, x2: int, y2: int) -> PrimV {
    PrimV::Rect { x1, y1, x2, y2 }
}

/// The model of a frame: its primitives, each by its model.
pub open spec fn fv(f: Seq<DrawPrimitive>) -> Seq<PrimV> {
    f.map_values(|p: DrawPrimitive| p@)
}

pub proof fn lemma_fv_push(f: Seq<DrawPrimitive>, p: DrawPrimitive)
    ensures
        fv(f.push(p)) == fv(f) + seq![p@],
{
    assert(fv(f.push(p)) =~= fv(f) + seq![p@]);
}

pub fn push_text(frame: &mut Vec<DrawPrimitive>, x: i32, y: i32, text: String)
    ensures
        fv(final(frame)@) == fv(old(frame)@) + seq![text_at(x as int, y as int, text@)],
{
    let ghost f0 = frame@;
    let ghost p = text_at(x as int, y as int, text@);
    frame.push(DrawPrimitive::Text { x, y, text });
    proof {
        lemma_fv_push(f0, frame@[f0.len() as int]);
    }
}

pub fn push_rect(frame: &mut Vec<DrawPrimitive>, x1: i32, y1: i32, x2: i32, y2: i32)
    ensures
        fv(final(frame)@) == fv(old(frame)@) + seq![
            rect_at(x1 as int, y1 as int, x2 as int, y2 as int),
        ],
{
    let ghost f0 = frame@;
    frame.push(DrawPrimitive::Rect { x1, y1, x2, y2 });
    proof {
        lemma_fv_push(f0, frame@[f0.len() as int]);
    }
}

} // verus!
