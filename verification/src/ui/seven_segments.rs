//! Large seven-segment digits for the clock screen, drawn as filled
//! rectangles.

use crate::frame::{fv, rect_at, DrawPrimitive, PrimV};
use vstd::prelude::*;

verus! {

/// Whether segment `i` of the seven-segment pattern is lit for digit `c`.
/// Segment 0 is the top bar, 1 and 2 the upper left and right, 3 the
/// middle bar, 4 and 5 the lower left and right, 6 the bottom bar.
pub open spec fn spec_seg(c: int, i: int) -> bool {
    if c == 0 {
        i == 0 || i == 1 || i == 2 || i == 4 || i == 5 || i == 6
    } else if c == 1 {
        i == 2 || i == 5
    } else if c == 2 {
        i == 0 || i == 2 || i == 3 || i == 4 || i == 6
    } else if c == 3 {
        i == 0 || i == 2 || i == 3 || i == 5 || i == 6
    } else if c == 4 {
        i == 1 || i == 2 || i == 3 || i == 5
    } else if c == 5 {
        i == 0 || i == 1 || i == 3 || i == 5 || i == 6
    } else if c == 6 {
        i == 0 || i == 1 || i == 3 || i == 4 || i == 5 || i == 6
    } else if c == 7 {
        i == 0 || i == 2 || i == 5
    } else if c == 8 {
        0 <= i <= 6
    } else if c == 9 {
        i == 0 || i == 1 || i == 2 || i == 3 || i == 5 || i == 6
    } else {
        false
    }
}

fn seg_lit(c: u8, i: u8) -> (b: bool)
    ensures
        b == spec_seg(c as int, i as int),
{
    match c {
        0 => i == 0 || i == 1 || i == 2 || i == 4 || i == 5 || i == 6,
        1 => i == 2 || i == 5,
        2 => i == 0 || i == 2 || i == 3 || i == 4 || i == 6,
        3 => i == 0 || i == 2 || i == 3 || i == 5 || i == 6,
        4 => i == 1 || i == 2 || i == 3 || i == 5,
        5 => i == 0 || i == 1 || i == 3 || i == 5 || i == 6,
        6 => i == 0 || i == 1 || i == 3 || i == 4 || i == 5 || i == 6,
        7 => i == 0 || i == 2 || i == 5,
        8 => i <= 6,
        9 => i == 0 || i == 1 || i == 2 || i == 3 || i == 5 || i == 6,
        _ => false,
    }
}

/// Cursor for drawing seven-segment digits: fixed glyph geometry plus
/// the pen position, which advances after each digit or colon.
pub struct SevenSegments {
    pub width: i32,
    pub height: i32,
    pub thickness: i32,
    pub space: i32,
    pub x: i32,
    pub y: i32,
}

impl SevenSegments {
    pub open spec fn wf(self) -> bool {
        &&& self.width == 52
        &&& self.height == 90
        &&& self.thickness == 12
        &&& self.space == 13
        &&& 0 <= self.x <= 9000
        &&& 0 <= self.y <= 9000
    }

    pub open spec fn spec_rect(self, x1: int, y1: int, x2: int, y2: int) -> PrimV {
        rect_at(self.x + x1, self.y + y1, self.x + x2, self.y + y2)
    }

    /// The rectangle of segment `i`, relative to the pen position.
    pub open spec fn spec_seg_rect(self, i: int) -> PrimV {
        let w = self.width as int;
        let h = self.height as int;
        let t = self.thickness as int;
        let h2 = (h - 3 * t) / 2 + t;
        if i == 0 {
            self.spec_rect(0, 0, w - 1, t - 1)
        } else if i == 1 {
            self.spec_rect(0, 0, t - 1, h2 + t - 1)
        } else if i == 2 {
            self.spec_rect(w - t, 0, w - 1, h2 + t - 1)
        } else if i == 3 {
            self.spec_rect(t, h2, w - t - 1, h2 + t - 1)
        } else if i == 4 {
            self.spec_rect(0, h2, t - 1, h - 1)
        } else if i == 5 {
            self.spec_rect(w - t, h2, w - 1, h - 1)
        } else {
            self.spec_rect(0, h - t, w - 1, h - 1)
        }
    }

    /// The rectangles a digit draws: its lit segments in order.
    pub open spec fn spec_digit_rects(self, c: int) -> Seq<PrimV> {
        (if spec_seg(c, 0) {
            seq![self.spec_seg_rect(0)]
        } else {
            Seq::<PrimV>::empty()
        }) + (if spec_seg(c, 1) {
            seq![self.spec_seg_rect(1)]
        } else {
            Seq::<PrimV>::empty()
        }) + (if spec_seg(c, 2) {
            seq![self.spec_seg_rect(2)]
        } else {
            Seq::<PrimV>::empty()
        }) + (if spec_seg(c, 3) {
            seq![self.spec_seg_rect(3)]
        } else {
            Seq::<PrimV>::empty()
        }) + (if spec_seg(c, 4) {
            seq![self.spec_seg_rect(4)]
        } else {
            Seq::<PrimV>::empty()
        }) + (if spec_seg(c, 5) {
            seq![self.spec_seg_rect(5)]
        } else {
            Seq::<PrimV>::empty()
        }) + (if spec_seg(c, 6) {
            seq![self.spec_seg_rect(6)]
        } else {
            Seq::<PrimV>::empty()
        })
    }

    /// The two square dots of the colon, relative to the pen position.
    pub open spec fn spec_colon_rects(self) -> Seq<PrimV> {
        let h = self.height as int;
        let t = self.thickness as int;
        let intern = (h - 3 * t) / 2;
        let h1 = t + intern / 2 - t / 2;
        let h2 = h - t - intern / 2 - t / 2;
        seq![self.spec_rect(0, h1, t - 1, h1 + t - 1), self.spec_rect(0, h2, t - 1, h2 + t - 1)]
    }

    /// The cursor after a digit: the pen moves one glyph and one gap right.
    pub open spec fn spec_after_digit(self) -> SevenSegments {
        SevenSegments { x: (self.x + self.width + self.space) as i32, ..self }
    }

    /// The cursor after a colon: the pen moves one bar and one gap right.
    pub open spec fn spec_after_colon(self) -> SevenSegments {
        SevenSegments { x: (self.x + self.thickness + self.space) as i32, ..self }
    }

    pub fn new(x: i32, y: i32) -> (s: SevenSegments)
        requires
            0 <= x <= 9000,
            0 <= y <= 9000,
        ensures
            s.wf(),
            s.x == x,
            s.y == y,
    {
        SevenSegments { width: 52, height: 90, thickness: 12, space: 13, x, y }
    }

    fn draw_rect(&self, x1: i32, y1: i32, x2: i32, y2: i32, frame: &mut Vec<DrawPrimitive>)
        requires
            self.wf(),
            -200 <= x1 <= 200,
            -200 <= y1 <= 200,
            -200 <= x2 <= 200,
            -200 <= y2 <= 200,
        ensures
            fv(final(frame)@) == fv(old(frame)@) + seq![
                self.spec_rect(x1 as int, y1 as int, x2 as int, y2 as int),
            ],
    {
        crate::frame::push_rect(frame, self.x + x1, self.y + y1, self.x + x2, self.y + y2);
    }

    pub fn colon_space(&mut self)
        requires
            old(self).wf(),
            old(self).x <= 8900,
        ensures
            final(self).wf(),
            *final(self) == old(self).spec_after_colon(),
    {
        self.x = self.x + self.thickness + self.space;
    }

    pub fn colon(&mut self, frame: &mut Vec<DrawPrimitive>)
        requires
            old(self).wf(),
            old(self).x <= 8900,
        ensures
            final(self).wf(),
            *final(self) == old(self).spec_after_colon(),
            fv(final(frame)@) == fv(old(frame)@) + old(self).spec_colon_rects(),
    {
        let ghost f0 = fv(frame@);
        let t = self.thickness;
        let intern = (self.height - 3 * t) / 2;
        let h1 = t + intern / 2 - t / 2;
        let h2 = self.height - t - intern / 2 - t / 2;
        self.draw_rect(0, h1, t - 1, h1 + t - 1, frame);
        self.draw_rect(0, h2, t - 1, h2 + t - 1, frame);
        assert(fv(frame@) =~= f0 + self.spec_colon_rects());
        self.colon_space();
    }

    pub fn digit_space(&mut self)
        requires
            old(self).wf(),
            old(self).x <= 8900,
        ensures
            final(self).wf(),
            *final(self) == old(self).spec_after_digit(),
    {
        self.x = self.x + self.width + self.space;
    }

    pub fn digit(&mut self, c: u8, frame: &mut Vec<DrawPrimitive>)
        requires
            old(self).wf(),
            old(self).x <= 8900,
        ensures
            final(self).wf(),
            *final(self) == old(self).spec_after_digit(),
            fv(final(frame)@) == fv(old(frame)@) + old(self).spec_digit_rects(c as int),
    {
        let ghost f0 = fv(frame@);
        let ghost me = *self;
        let ghost t1 = if spec_seg(c as int, 0) {
            seq![me.spec_seg_rect(0)]
        } else {
            Seq::<PrimV>::empty()
        };
        let ghost t2 = if spec_seg(c as int, 1) {
            seq![me.spec_seg_rect(1)]
        } else {
            Seq::<PrimV>::empty()
        };
        let ghost t3 = if spec_seg(c as int, 2) {
            seq![me.spec_seg_rect(2)]
        } else {
            Seq::<PrimV>::empty()
        };
        let ghost t4 = if spec_seg(c as int, 3) {
            seq![me.spec_seg_rect(3)]
        } else {
            Seq::<PrimV>::empty()
        };
        let ghost t5 = if spec_seg(c as int, 4) {
            seq![me.spec_seg_rect(4)]
        } else {
            Seq::<PrimV>::empty()
        };
        let ghost t6 = if spec_seg(c as int, 5) {
            seq![me.spec_seg_rect(5)]
        } else {
            Seq::<PrimV>::empty()
        };
        let ghost t7 = if spec_seg(c as int, 6) {
            seq![me.spec_seg_rect(6)]
        } else {
            Seq::<PrimV>::empty()
        };
        let w = self.width;
        let t = self.thickness;
        let h = self.height;
        let h2 = (h - 3 * t) / 2 + t;
        if seg_lit(c, 0) {
            self.draw_rect(0, 0, w - 1, t - 1, frame);
        }
        assert(fv(frame@) =~= f0 + t1);
        if seg_lit(c, 1) {
            self.draw_rect(0, 0, t - 1, h2 + t - 1, frame);
        }
        assert(fv(frame@) =~= f0 + t1 + t2);
        if seg_lit(c, 2) {
            self.draw_rect(w - t, 0, w - 1, h2 + t - 1, frame);
        }
        assert(fv(frame@) =~= f0 + t1 + t2 + t3);
        if seg_lit(c, 3) {
            self.draw_rect(t, h2, w - t - 1, h2 + t - 1, frame);
        }
        assert(fv(frame@) =~= f0 + t1 + t2 + t3 + t4);
        if seg_lit(c, 4) {
            self.draw_rect(0, h2, t - 1, h - 1, frame);
        }
        assert(fv(frame@) =~= f0 + t1 + t2 + t3 + t4 + t5);
        if seg_lit(c, 5) {
            self.draw_rect(w - t, h2, w - 1, h - 1, frame);
        }
        assert(fv(frame@) =~= f0 + t1 + t2 + t3 + t4 + t5 + t6);
        if seg_lit(c, 6) {
            self.draw_rect(0, h - t, w - 1, h - 1, frame);
        }
        assert(fv(frame@) =~= f0 + t1 + t2 + t3 + t4 + t5 + t6 + t7);
        self.digit_space();
    }
}

} // verus!
