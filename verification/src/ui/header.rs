//! Texts in the corners of the display: date and environment readings
//! above, next-alarm prediction and pressure below. The surface is 296
//! pixels wide; glyphs are 8 by 16, so right-aligned text starts at
//! column 295 minus 8 per character.

use crate::frame::{fv, text_at, DrawPrimitive};
use vstd::prelude::*;

verus! {

pub fn top_left(s: String, frame: &mut Vec<DrawPrimitive>)
    ensures
        fv(final(frame)@) == fv(old(frame)@) + seq![text_at(0, 0, s@)],
{
    crate::frame::push_text(frame, 0, 0, s);
}

pub fn bottom_left(s: String, frame: &mut Vec<DrawPrimitive>)
    ensures
        fv(final(frame)@) == fv(old(frame)@) + seq![text_at(0, 112, s@)],
{
    crate::frame::push_text(frame, 0, 112, s);
}

pub fn top_right(s: String, len: u32, frame: &mut Vec<DrawPrimitive>)
    requires
        len == s@.len(),
        len <= 1000,
    ensures
        fv(final(frame)@) == fv(old(frame)@) + seq![text_at(295 - 8 * len, 0, s@)],
{
    crate::frame::push_text(frame, 295 - 8 * (len as i32), 0, s);
}

pub fn bottom_right(s: String, len: u32, frame: &mut Vec<DrawPrimitive>)
    requires
        len == s@.len(),
        len <= 1000,
    ensures
        fv(final(frame)@) == fv(old(frame)@) + seq![text_at(295 - 8 * len, 112, s@)],
{
    crate::frame::push_text(frame, 295 - 8 * (len as i32), 112, s);
}

} // verus!
