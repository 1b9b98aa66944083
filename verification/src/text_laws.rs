//! What the layout of text keeps of the text.
use vstd::prelude::*;

use crate::faces::{
    can_shape, face_advance, face_ascender, face_descender, face_glyph, face_line_gap, face_ok,
    face_units,
};
use crate::font::{FontRef, TextAlign, TextError};
use crate::text::{
    glyphs_for, lines, place_line, shape_layout, shape_layout_checked, shape_layout_from_bytes,
    shape_layout_from_bytes_checked, split_lines, Glyph, LineLayout, TextLayout,
};

verus! {

/// The lines one after the other, with a `\n` between two.
pub open spec fn joined(parts: Seq<Seq<char>>) -> Seq<char>
    decreases parts.len(),
{
    if parts.len() == 0 {
        Seq::empty()
    } else if parts.len() == 1 {
        parts[0]
    } else {
        joined(parts.drop_last()).push('\n') + parts.last()
    }
}

/// The number of characters in all the lines.
pub open spec fn total(parts: Seq<Seq<char>>) -> nat
    decreases parts.len(),
{
    if parts.len() == 0 {
        0
    } else {
        total(parts.drop_last()) + parts.last().len()
    }
}

proof fn lemma_lines_joined(text: Seq<char>)
    ensures
        lines(text).len() > 0,
        joined(lines(text)) == text,
        total(lines(text)) + lines(text).len() == text.len() + 1,
        forall|i: int, j: int|
            0 <= i < lines(text).len() && 0 <= j < lines(text)[i].len()
                ==> #[trigger] lines(text)[i][j] != '\n',
    decreases text.len(),
{
    reveal_with_fuel(joined, 2);
    reveal_with_fuel(total, 2);
    if text.len() > 0 {
        let front = text.drop_last();
        lemma_lines_joined(front);
        let before = lines(front);
        let after = lines(text);
        assert(text =~= front.push(text.last()));
        if text.last() == '\n' {
            assert(after.drop_last() =~= before);
            assert(joined(after) =~= text);
        } else {
            assert(after.drop_last() =~= before.drop_last());
            assert(after.last() =~= before.last().push(text.last()));
            if before.len() == 1 {
                assert(joined(after) =~= text);
            } else {
                assert(joined(after) =~= joined(before).push(text.last()));
            }
            assert(total(after) == total(before) + 1);
            assert forall|i: int, j: int|
                0 <= i < after.len() && 0 <= j < after[i].len() implies #[trigger] after[i][j]
                != '\n' by {
                if i < before.len() - 1 {
                    assert(after[i] == before[i]);
                    assert(before[i][j] != '\n');
                } else if j < before.last().len() {
                    assert(before[i][j] != '\n');
                }
            }
        }
    } else {
        assert(lines(text) =~= seq![Seq::<char>::empty()]);
        assert(joined(lines(text)) =~= text);
        assert(lines(text).drop_last() =~= Seq::<Seq<char>>::empty());
    }
}

/// The lines joined by `\n` are the text, and no line holds a `\n`: nothing of the text
/// is lost, changed or moved to another line.
pub proof fn law_lines_joined_are_the_text(text: &str, r: Vec<Vec<char>>)
    requires
        call_ensures(split_lines, (text,), r),
    ensures
        r@.len() > 0,
        joined(Seq::new(r@.len(), |i: int| r@[i]@)) == text@,
        total(Seq::new(r@.len(), |i: int| r@[i]@)) + r@.len() == text@.len() + 1,
        forall|i: int, j: int|
            0 <= i < r@.len() && 0 <= j < r@[i]@.len() ==> #[trigger] r@[i]@[j] != '\n',
{
    lemma_lines_joined(text@);
    assert(Seq::new(r@.len(), |i: int| r@[i]@) =~= lines(text@));
    assert forall|i: int, j: int| 0 <= i < r@.len() && 0 <= j < r@[i]@.len() implies
        #[trigger] r@[i]@[j] != '\n' by {
        assert(lines(text@)[i][j] != '\n');
    }
}

/// A line break splits a text in two that are split on their own.
pub proof fn law_breaks_split_the_text(a: Seq<char>, b: Seq<char>)
    ensures
        lines(a.push('\n') + b) == lines(a) + lines(b),
        !a.contains('\n') ==> lines(a) == seq![a],
    decreases b.len(), a.len(),
{
    lemma_lines_joined(a);
    lemma_lines_joined(b);
    let whole = a.push('\n') + b;
    if b.len() == 0 {
        assert(whole =~= a.push('\n'));
        assert(whole.drop_last() =~= a);
        assert(lines(b) =~= seq![Seq::<char>::empty()]);
        assert(lines(whole) =~= lines(a) + lines(b));
    } else {
        let rest = b.drop_last();
        assert(whole.drop_last() =~= a.push('\n') + rest);
        assert(whole.last() == b.last());
        law_breaks_split_the_text(a, rest);
        lemma_lines_joined(rest);
        assert(lines(whole.drop_last()) == lines(a) + lines(rest));
        if b.last() == '\n' {
            assert(lines(whole) =~= lines(a) + lines(b));
        } else {
            assert((lines(a) + lines(rest)).last() == lines(rest).last());
            assert((lines(a) + lines(rest)).drop_last() =~= lines(a) + lines(rest).drop_last());
            assert(lines(whole) =~= lines(a) + lines(b));
        }
    }
    if !a.contains('\n') {
        lemma_one_line(a);
    }
}

proof fn lemma_one_line(a: Seq<char>)
    requires
        !a.contains('\n'),
    ensures
        lines(a) == seq![a],
    decreases a.len(),
{
    if a.len() > 0 {
        assert forall|i: int| 0 <= i < a.drop_last().len() implies a.drop_last()[i] != '\n' by {
            assert(a[i] != '\n');
        }
        lemma_one_line(a.drop_last());
        assert(a[a.len() - 1] != '\n');
        assert(a.drop_last().push(a.last()) =~= a);
        assert(lines(a) =~= seq![a]);
    } else {
        assert(a =~= Seq::<char>::empty());
        assert(lines(a) =~= seq![a]);
    }
}

/// On a line every glyph starts where the one before it ends, the first at the line's
/// start, and the line is as wide as its last glyph reaches.
pub proof fn law_glyphs_stand_side_by_side(
    glyphs: Vec<Glyph>,
    align: TextAlign,
    r: LineLayout,
)
    requires
        call_ensures(place_line, (&glyphs, align), r),
    ensures
        r.glyphs@.len() == glyphs@.len(),
        forall|i: int| 0 <= i < glyphs@.len() ==> (#[trigger] r.glyphs@[i]).glyph == glyphs@[i],
        glyphs@.len() > 0 ==> r.glyphs@[0].offset == 0,
        forall|i: int|
            0 <= i < glyphs@.len() - 1 ==> #[trigger] r.glyphs@[i + 1].offset == r.glyphs@[i].offset
                + glyphs@[i].advance,
        r.width == (if glyphs@.len() == 0 {
            0int
        } else {
            r.glyphs@.last().offset + glyphs@.last().advance
        }),
        align is Left ==> r.start_doubled == 0,
        align is Center ==> r.start_doubled == -r.width,
        align is Right ==> r.start_doubled == -2 * r.width,
{
    let n = glyphs@.len() as int;
    assert forall|i: int| 0 <= i < n - 1 implies #[trigger] r.glyphs@[i + 1].offset
        == r.glyphs@[i].offset + glyphs@[i].advance by {
        assert(glyphs@.take(i + 1).drop_last() =~= glyphs@.take(i));
        assert(r.glyphs@[i].glyph == glyphs@[i]);
        assert(r.glyphs@[i + 1].glyph == glyphs@[i + 1]);
    }
    if n > 0 {
        assert(glyphs@.drop_last() =~= glyphs@.take(n - 1));
        assert(r.glyphs@[n - 1].glyph == glyphs@[n - 1]);
        assert(glyphs@.take(0) =~= Seq::<Glyph>::empty());
        assert(r.glyphs@[0].glyph == glyphs@[0]);
    }
}

/// Whether the layout has a line for each part and in it a glyph for each character, the
/// font's own with its own advance, side by side; a character that the font lacks has the
/// glyph zero.
pub open spec fn lays_out(
    layout: TextLayout,
    data: Seq<u8>,
    parts: Seq<Vec<char>>,
    align: TextAlign,
) -> bool {
    &&& layout.lines@.len() == parts.len()
    &&& layout.units_per_em == face_units(data)
    &&& layout.line_height == face_ascender(data) - face_descender(data) + face_line_gap(data)
    &&& forall|i: int|
        0 <= i < parts.len() ==> {
            &&& (#[trigger] layout.lines@[i]).glyphs@.len() == parts[i]@.len()
            &&& align is Left ==> layout.lines@[i].start_doubled == 0
            &&& align is Center ==> layout.lines@[i].start_doubled == -layout.lines@[i].width
            &&& align is Right ==> layout.lines@[i].start_doubled == -2 * layout.lines@[i].width
            &&& parts[i]@.len() == 0 ==> layout.lines@[i].width == 0
            &&& parts[i]@.len() > 0 ==> layout.lines@[i].glyphs@[0].offset == 0
        }
    &&& forall|i: int, j: int|
        0 <= i < parts.len() && 0 <= j < parts[i]@.len() ==> {
            let glyph = (#[trigger] layout.lines@[i].glyphs@[j]).glyph;
            &&& glyph.glyph == face_glyph(data, parts[i]@[j]).unwrap_or(0)
            &&& glyph.advance == face_advance(data, glyph.glyph).unwrap_or(0)
            &&& layout.lines@[i].glyphs@[j].offset + glyph.advance == (if j + 1
                < parts[i]@.len() {
                layout.lines@[i].glyphs@[j + 1].offset
            } else {
                layout.lines@[i].width
            })
        }
}

proof fn lemma_lays_out(
    layout: TextLayout,
    data: Seq<u8>,
    text: Seq<char>,
    parts: Seq<Vec<char>>,
    align: TextAlign,
)
    requires
        crate::text::is_layout(layout, data, text, align),
        parts.len() == lines(text).len(),
        forall|i: int| 0 <= i < parts.len() ==> (#[trigger] parts[i])@ == lines(text)[i],
    ensures
        lays_out(layout, data, parts, align),
{
    assert forall|i: int| 0 <= i < parts.len() implies {
        &&& (#[trigger] layout.lines@[i]).glyphs@.len() == parts[i]@.len()
        &&& align is Left ==> layout.lines@[i].start_doubled == 0
        &&& align is Center ==> layout.lines@[i].start_doubled == -layout.lines@[i].width
        &&& align is Right ==> layout.lines@[i].start_doubled == -2 * layout.lines@[i].width
        &&& parts[i]@.len() == 0 ==> layout.lines@[i].width == 0
        &&& parts[i]@.len() > 0 ==> layout.lines@[i].glyphs@[0].offset == 0
    } by {
        assert(parts[i]@ == lines(text)[i]);
        let g = glyphs_for(data, lines(text)[i]);
        if g.len() > 0 {
            assert(layout.lines@[i].glyphs@[0].glyph == g[0]);
            assert(g.take(0) =~= Seq::<Glyph>::empty());
        }
    }
    assert forall|i: int, j: int| 0 <= i < parts.len() && 0 <= j < parts[i]@.len() implies {
        let glyph = (#[trigger] layout.lines@[i].glyphs@[j]).glyph;
        &&& glyph.glyph == face_glyph(data, parts[i]@[j]).unwrap_or(0)
        &&& glyph.advance == face_advance(data, glyph.glyph).unwrap_or(0)
        &&& layout.lines@[i].glyphs@[j].offset + glyph.advance == (if j + 1 < parts[i]@.len() {
            layout.lines@[i].glyphs@[j + 1].offset
        } else {
            layout.lines@[i].width
        })
    } by {
        assert(parts[i]@ == lines(text)[i]);
        let g = glyphs_for(data, lines(text)[i]);
        assert(layout.lines@[i].glyphs@[j].glyph == g[j]);
        assert(g.take(j + 1).drop_last() =~= g.take(j));
        if j + 1 < g.len() {
            assert(layout.lines@[i].glyphs@[j + 1].glyph == g[j + 1]);
        } else {
            assert(g.take(j + 1) =~= g);
        }
    }
}

/// A laid out text has a glyph for each character of each of its lines, in its place.
pub proof fn law_every_character_has_its_glyph(
    font: FontRef,
    text: &str,
    align: TextAlign,
    parts: Vec<Vec<char>>,
)
    requires
        call_ensures(split_lines, (text,), parts),
    ensures
        forall|r: TextLayout|
            can_shape(font.bytes()) && #[trigger] call_ensures(
                shape_layout,
                (&font, text, align),
                r,
            ) ==> lays_out(r, font.bytes(), parts@, align),
        forall|r: Option<TextLayout>| #[trigger]
            call_ensures(shape_layout_checked, (&font, text, align), r) ==> {
                &&& r is Some <==> can_shape(font.bytes())
                &&& r matches Some(layout) ==> lays_out(layout, font.bytes(), parts@, align)
            },
{
    assert forall|r: TextLayout|
        can_shape(font.bytes()) && #[trigger] call_ensures(
            shape_layout,
            (&font, text, align),
            r,
        ) implies lays_out(r, font.bytes(), parts@, align) by {
        lemma_lays_out(r, font.bytes(), text@, parts@, align);
    }
    assert forall|r: Option<TextLayout>| #[trigger]
        call_ensures(shape_layout_checked, (&font, text, align), r) && r is Some implies lays_out(
        r->0,
        font.bytes(),
        parts@,
        align,
    ) by {
        lemma_lays_out(r->0, font.bytes(), text@, parts@, align);
    }
}

/// So has one that is laid out in the font that bytes hold, where they parse; bytes that
/// do not are refused.
pub proof fn law_layout_from_bytes(
    bytes: &[u8],
    text: &str,
    align: TextAlign,
    parts: Vec<Vec<char>>,
    r: Result<TextLayout, TextError>,
    checked: Result<Option<TextLayout>, TextError>,
)
    requires
        face_ok(bytes@) ==> can_shape(bytes@),
        call_ensures(split_lines, (text,), parts),
        call_ensures(shape_layout_from_bytes, (bytes, text, align), r),
        call_ensures(shape_layout_from_bytes_checked, (bytes, text, align), checked),
    ensures
        r is Ok <==> face_ok(bytes@),
        r matches Ok(layout) ==> lays_out(layout, bytes@, parts@, align),
        checked is Ok <==> face_ok(bytes@),
        checked matches Ok(layout) ==> layout is Some && lays_out(layout->0, bytes@, parts@, align),
{
    if face_ok(bytes@) {
        lemma_lays_out(r->Ok_0, bytes@, text@, parts@, align);
        lemma_lays_out(checked->Ok_0->0, bytes@, text@, parts@, align);
    }
}

} // verus!
