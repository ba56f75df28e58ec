//! The shared list layout: a title, up to five visible items per page, a
//! page indicator when the list is longer, and a cursor arrow beside the
//! selected item.

use crate::frame::{fv, text_at, DrawPrimitive, PrimV};
use crate::text::{fmt_u32, spec_dec};
use vstd::prelude::*;

verus! {

/// The shown items, one line each below the title.
pub open spec fn spec_menu_items(items: Seq<Seq<char>>) -> Seq<PrimV> {
    Seq::new(items.len(), |i: int| text_at(28, 16 + (1 + i) * 16, items[i]))
}

/// The whole list screen. With more than five items only the selected
/// item's page is shown, with a "page/pages" indicator in its corner.
pub open spec fn spec_menu(title: Seq<char>, items: Seq<Seq<char>>, selected: int) -> Seq<PrimV> {
    let len = items.len() as int;
    if len > 5 {
        let page = selected / 5;
        let sel = selected % 5;
        let end = if page * 5 + 5 < len {
            page * 5 + 5
        } else {
            len
        };
        seq![text_at(4, 16, title)] + seq![
            text_at(267, 96, spec_dec(page + 1) + "/"@ + spec_dec((len - 1) / 5 + 1)),
        ] + spec_menu_items(items.subrange(page * 5, end)) + seq![
            text_at(12, 16 + (sel + 1) * 16, ">"@),
        ]
    } else {
        seq![text_at(4, 16, title)] + spec_menu_items(items) + seq![
            text_at(12, 16 + (selected + 1) * 16, ">"@),
        ]
    }
}

pub fn render(title: String, items: &Vec<String>, selected: usize, frame: &mut Vec<DrawPrimitive>)
    requires
        selected < items@.len(),
        items@.len() <= 100,
    ensures
        fv(final(frame)@) == fv(old(frame)@) + spec_menu(
            title@,
            items@.map_values(|s: String| s@),
            selected as int,
        ),
{
    let ghost f0 = fv(frame@);
    let ghost specitems = items@.map_values(|s: String| s@);
    let ghost title_v = title@;
    crate::frame::push_text(frame, 4, 16, title);
    let len = items.len();
    let mut start: usize = 0;
    let mut end: usize = len;
    let mut sel: usize = selected;
    if len > 5 {
        let page = selected / 5;
        sel = selected % 5;
        start = page * 5;
        end = if page * 5 + 5 < len {
            page * 5 + 5
        } else {
            len
        };
        let mut ps = fmt_u32((page + 1) as u32);
        ps.append("/");
        ps.append(fmt_u32(((len - 1) / 5 + 1) as u32).as_str());
        crate::frame::push_text(frame, 267, 96, ps);
    }
    let ghost fpre = fv(frame@);
    let mut j: usize = start;
    while j < end
        invariant
            start <= j <= end <= items@.len() <= 100,
            specitems == items@.map_values(|s: String| s@),
            fv(frame@) == fpre + spec_menu_items(specitems.subrange(start as int, j as int)),
        decreases end - j,
    {
        let ghost shown_before = specitems.subrange(start as int, j as int);
        assert(specitems[j as int] == items@[j as int]@);
        crate::frame::push_text(frame, 28, 16 + (1 + (j - start) as i32) * 16, items[j].clone());
        proof {
            let shown_after = specitems.subrange(start as int, j + 1 as int);
            assert(shown_after =~= shown_before.push(specitems[j as int]));
            assert(spec_menu_items(shown_after) =~= spec_menu_items(shown_before) + seq![
                text_at(28, 16 + (1 + (j - start)) * 16, specitems[j as int]),
            ]);
        }
        j = j + 1;
    }
    crate::frame::push_text(frame, 12, 16 + (1 + sel as i32) * 16, String::from_str(">"));
    proof {
        if items@.len() > 5 {
            assert(fv(frame@) =~= f0 + spec_menu(title_v, specitems, selected as int));
        } else {
            assert(specitems.subrange(0, specitems.len() as int) =~= specitems);
            assert(fv(frame@) =~= f0 + spec_menu(title_v, specitems, selected as int));
        }
    }
}

} // verus!
