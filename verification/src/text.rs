//! The layout of text in font units.
//!
//! Left to right, advances glyph by glyph, `\n` breaks the line. There is no
//! bidirectional text, no complex script shaping and there are no ligatures. The
//! same input always gives the same layout. Scaling to pixels and tracing the
//! outlines is floating point and stays with the host.
use vstd::prelude::*;

use crate::faces::{
    ascender, can_shape, descender, face_advance, face_ascender, face_descender,
    face_glyph, face_line_gap, face_ok, face_units, glyph_advance, glyph_index, line_gap,
    units_per_em, Tables,
};
use crate::font::{FontRef, TextAlign, TextError};
use crate::strings::chars_of;

verus! {

/// A glyph and its horizontal advance in font units.
#[derive(Clone, Copy, Debug, PartialEq, Eq, Structural)]
pub struct Glyph {
    pub glyph: u16,
    pub advance: u16,
}

/// A glyph on its line; `offset` counts from the line's start.
#[derive(Clone, Copy, Debug, PartialEq, Eq, Structural)]
pub struct PlacedGlyph {
    pub glyph: Glyph,
    pub offset: u128,
}

/// One laid out line. `start_doubled` is twice where it starts.
#[derive(Debug)]
pub struct LineLayout {
    pub width: u128,
    pub start_doubled: i128,
    pub glyphs: Vec<PlacedGlyph>,
}

/// A laid out text. The baseline of line `n` is `n` times `line_height`, downward.
#[derive(Debug)]
pub struct TextLayout {
    pub units_per_em: u16,
    pub line_height: i32,
    pub lines: Vec<LineLayout>,
}

/// The sum of the advances.
pub open spec fn advance_sum(glyphs: Seq<Glyph>) -> nat
    decreases glyphs.len(),
{
    if glyphs.len() == 0 {
        0
    } else {
        advance_sum(glyphs.drop_last()) + glyphs.last().advance as nat
    }
}

/// Twice where a line of this width starts.
pub open spec fn start_doubled(width: nat, align: TextAlign) -> int {
    match align {
        TextAlign::Left => 0,
        TextAlign::Center => -(width as int),
        TextAlign::Right => -2 * width,
    }
}

/// The line with these glyphs.
pub open spec fn is_line(line: LineLayout, glyphs: Seq<Glyph>, align: TextAlign) -> bool {
    &&& line.width == advance_sum(glyphs)
    &&& line.start_doubled == start_doubled(advance_sum(glyphs), align)
    &&& line.glyphs@.len() == glyphs.len()
    &&& forall|i: int|
        0 <= i < glyphs.len() ==> (#[trigger] line.glyphs@[i]).glyph == glyphs[i]
            && line.glyphs@[i].offset == advance_sum(glyphs.take(i))
}

/// Lays out one line: every glyph starts where the ones before it end.
pub fn place_line(glyphs: &Vec<Glyph>, align: TextAlign) -> (r: LineLayout)
    ensures
        is_line(r, glyphs@, align),
{
    let mut out: Vec<PlacedGlyph> = Vec::new();
    let mut pen: u128 = 0;
    let mut i: usize = 0;
    while i < glyphs.len()
        invariant
            i <= glyphs@.len(),
            out@.len() == i,
            pen == advance_sum(glyphs@.take(i as int)),
            pen <= i * 65535,
            forall|j: int|
                0 <= j < i ==> (#[trigger] out@[j]).glyph == glyphs@[j] && out@[j].offset
                    == advance_sum(glyphs@.take(j)),
        decreases glyphs.len() - i,
    {
        let glyph = glyphs[i];
        assert(glyphs@.take(i + 1).drop_last() =~= glyphs@.take(i as int));
        out.push(PlacedGlyph { glyph, offset: pen });
        assert(i < usize::MAX);
        pen = pen + glyph.advance as u128;
        i = i + 1;
    }
    assert(glyphs@.take(i as int) =~= glyphs@);
    assert(i <= 0xffff_ffff_ffff_ffff);
    assert(pen <= 0xffff_ffff_ffff_ffff * 65535);
    let width: i128 = pen as i128;
    let start = match align {
        TextAlign::Left => 0i128,
        TextAlign::Center => 0 - width,
        TextAlign::Right => 0 - width - width,
    };
    LineLayout { width: pen, start_doubled: start, glyphs: out }
}

/// The pieces of a text between its line breaks: one more than there are breaks.
pub open spec fn lines(text: Seq<char>) -> Seq<Seq<char>>
    decreases text.len(),
{
    if text.len() == 0 {
        seq![Seq::empty()]
    } else {
        let before = lines(text.drop_last());
        if text.last() == '\n' {
            before.push(Seq::empty())
        } else {
            before.drop_last().push(before.last().push(text.last()))
        }
    }
}

/// How many line breaks a text has.
pub open spec fn breaks(text: Seq<char>) -> nat
    decreases text.len(),
{
    if text.len() == 0 {
        0
    } else if text.last() == '\n' {
        breaks(text.drop_last()) + 1
    } else {
        breaks(text.drop_last())
    }
}

/// A text has one line more than it has line breaks.
pub proof fn law_lines_are_breaks_and_one(text: Seq<char>)
    ensures
        lines(text).len() == breaks(text) + 1,
    decreases text.len(),
{
    if text.len() > 0 {
        law_lines_are_breaks_and_one(text.drop_last());
    }
}

/// The glyph and advance that a font has for a character: glyph 0 where it lacks
/// the character, no advance where it lacks one.
pub open spec fn glyph_for(data: Seq<u8>, c: char) -> Glyph {
    let glyph = match face_glyph(data, c) {
        Some(g) => g,
        None => 0u16,
    };
    Glyph {
        glyph,
        advance: match face_advance(data, glyph) {
            Some(a) => a,
            None => 0u16,
        },
    }
}

/// The glyphs of a line.
pub open spec fn glyphs_for(data: Seq<u8>, line: Seq<char>) -> Seq<Glyph> {
    Seq::new(line.len(), |i: int| glyph_for(data, line[i]))
}

/// The distance between two baselines.
pub open spec fn line_height(data: Seq<u8>) -> int {
    face_ascender(data) - face_descender(data)
        + face_line_gap(data)
}

/// The layout of a text in a font.
pub open spec fn is_layout(
    layout: TextLayout,
    data: Seq<u8>,
    text: Seq<char>,
    align: TextAlign,
) -> bool {
    &&& layout.units_per_em == face_units(data)
    &&& layout.line_height == line_height(data)
    &&& layout.lines@.len() == lines(text).len()
    &&& forall|i: int|
        0 <= i < layout.lines@.len() ==> is_line(
            #[trigger] layout.lines@[i],
            glyphs_for(data, lines(text)[i]),
            align,
        )
}

/// The lines of a text, split at every `\n`.
pub fn split_lines(text: &str) -> (r: Vec<Vec<char>>)
    ensures
        r@.len() == lines(text@).len(),
        forall|i: int| 0 <= i < r@.len() ==> (#[trigger] r@[i])@ == lines(text@)[i],
{
    let chars = chars_of(text);
    let mut out: Vec<Vec<char>> = Vec::new();
    let mut line: Vec<char> = Vec::new();
    let mut i: usize = 0;
    while i < chars.len()
        invariant
            i <= chars@.len(),
            lines(chars@.take(i as int)).len() == out@.len() + 1,
            lines(chars@.take(i as int)).last() == line@,
            forall|j: int|
                0 <= j < out@.len() ==> (#[trigger] out@[j])@ == lines(chars@.take(i as int))[j],
        decreases chars.len() - i,
    {
        assert(chars@.take(i + 1).drop_last() =~= chars@.take(i as int));
        if chars[i] == '\n' {
            out.push(line);
            line = Vec::new();
        } else {
            line.push(chars[i]);
        }
        i = i + 1;
    }
    assert(chars@.take(i as int) =~= chars@);
    out.push(line);
    out
}

/// The glyphs of a line.
fn line_glyphs(font: &FontRef, tables: &Tables, line: &Vec<char>) -> (r: Vec<Glyph>)
    requires
        face_ok(font.bytes()),
        tables.are_of(font.bytes()),
        can_shape(font.bytes()),
    ensures
        r@ == glyphs_for(font.bytes(), line@),
{
    let mut out: Vec<Glyph> = Vec::new();
    let mut i: usize = 0;
    while i < line.len()
        invariant
            face_ok(font.bytes()),
            tables.are_of(font.bytes()),
            can_shape(font.bytes()),
            i <= line@.len(),
            out@ == glyphs_for(font.bytes(), line@.take(i as int)),
        decreases line.len() - i,
    {
        let glyph = match glyph_index(tables, line[i]) {
            Some(Some(g)) => g,
            _ => 0u16,
        };
        let advance = match glyph_advance(tables, glyph) {
            Some(Some(a)) => a,
            _ => 0u16,
        };
        out.push(Glyph { glyph, advance });
        i = i + 1;
        assert(out@ =~= glyphs_for(font.bytes(), line@.take(i as int)));
    }
    assert(line@.take(i as int) =~= line@);
    out
}

/// Lays a text out in a font. The first line's baseline starts at the origin and
/// the lines advance downward.
pub fn shape_layout(font: &FontRef, text: &str, align: TextAlign) -> (r: TextLayout)
    requires
        can_shape(font.bytes()),
    ensures
        is_layout(r, font.bytes(), text@, align),
        16 <= r.units_per_em <= 16384,
{
    let pieces = split_lines(text);
    let tables = font.tables();
    let units = units_per_em(&tables).unwrap();
    let height = ascender(&tables).unwrap() as i32 - descender(&tables).unwrap() as i32 + line_gap(
        &tables,
    ).unwrap() as i32;
    let mut out: Vec<LineLayout> = Vec::new();
    let mut i: usize = 0;
    while i < pieces.len()
        invariant
            face_ok(font.bytes()),
            tables.are_of(font.bytes()),
            can_shape(font.bytes()),
            i <= pieces@.len(),
            out@.len() == i,
            forall|j: int| 0 <= j < pieces@.len() ==> (#[trigger] pieces@[j])@ == lines(text@)[j],
            pieces@.len() == lines(text@).len(),
            forall|j: int|
                0 <= j < i ==> is_line(
                    #[trigger] out@[j],
                    glyphs_for(font.bytes(), lines(text@)[j]),
                    align,
                ),
        decreases pieces.len() - i,
    {
        let glyphs = line_glyphs(font, &tables, &pieces[i]);
        assert(pieces@[i as int]@ == lines(text@)[i as int]);
        out.push(place_line(&glyphs, align));
        i = i + 1;
    }
    TextLayout { units_per_em: units, line_height: height, lines: out }
}

/// Lays a text out in a font, where that can be done.
pub fn shape_layout_checked(font: &FontRef, text: &str, align: TextAlign) -> (r: Option<TextLayout>)
    ensures
        match r {
            Some(layout) => can_shape(font.bytes()) && is_layout(
                layout,
                font.bytes(),
                text@,
                align,
            ),
            None => !can_shape(font.bytes()),
        },
{
    if font.can_shape() {
        Some(shape_layout(font, text, align))
    } else {
        None
    }
}

/// Lays a text out in the font that these bytes hold, if they parse.
pub fn shape_layout_from_bytes(bytes: &[u8], text: &str, align: TextAlign) -> (r: Result<
    TextLayout,
    TextError,
>)
    requires
        face_ok(bytes@) ==> can_shape(bytes@),
    ensures
        match r {
            Ok(layout) => face_ok(bytes@) && is_layout(layout, bytes@, text@, align),
            Err(e) => e == TextError::BadFont && !face_ok(bytes@),
        },
{
    match FontRef::parse(bytes) {
        Ok(font) => Ok(shape_layout(&font, text, align)),
        Err(e) => Err(e),
    }
}

/// Lays a text out in the font that these bytes hold, if they parse; nothing where it
/// cannot be done in that font.
pub fn shape_layout_from_bytes_checked(bytes: &[u8], text: &str, align: TextAlign) -> (r: Result<
    Option<TextLayout>,
    TextError,
>)
    ensures
        match r {
            Ok(Some(layout)) => {
                &&& face_ok(bytes@) && can_shape(bytes@)
                &&& is_layout(layout, bytes@, text@, align)
            },
            Ok(None) => face_ok(bytes@) && !can_shape(bytes@),
            Err(e) => e == TextError::BadFont && !face_ok(bytes@),
        },
{
    let font = match FontRef::parse(bytes) {
        Ok(font) => font,
        Err(e) => {
            return Err(e);
        },
    };
    if !font.can_shape() {
        return Ok(None);
    }
    match shape_layout_from_bytes(bytes, text, align) {
        Ok(layout) => Ok(Some(layout)),
        Err(e) => Err(e),
    }
}

/// Twice where a line ends.
pub open spec fn end_doubled(line: LineLayout) -> int {
    line.start_doubled + 2 * line.width
}

/// A centred line that has a width reaches as far to the left of the origin as to
/// the right of it.
pub proof fn law_center_straddles_origin(line: LineLayout, glyphs: Seq<Glyph>)
    requires
        is_line(line, glyphs, TextAlign::Center),
        line.width > 0,
    ensures
        line.start_doubled < 0 < end_doubled(line),
        line.start_doubled == -end_doubled(line),
{
}

/// A right aligned line ends at the origin and a left aligned one starts there.
pub proof fn law_sides_meet_origin(line: LineLayout, glyphs: Seq<Glyph>)
    ensures
        is_line(line, glyphs, TextAlign::Left) ==> line.start_doubled == 0,
        is_line(line, glyphs, TextAlign::Right) ==> end_doubled(line) == 0,
{
}

/// The layout depends on the font's bytes, the text and the alignment alone.
pub proof fn law_layout_is_deterministic(
    a: TextLayout,
    b: TextLayout,
    data: Seq<u8>,
    text: Seq<char>,
    align: TextAlign,
)
    requires
        is_layout(a, data, text, align),
        is_layout(b, data, text, align),
    ensures
        a.units_per_em == b.units_per_em,
        a.line_height == b.line_height,
        a.lines@.len() == b.lines@.len(),
        forall|i: int|
            0 <= i < a.lines@.len() ==> (#[trigger] a.lines@[i]).width == b.lines@[i].width
                && a.lines@[i].start_doubled == b.lines@[i].start_doubled && a.lines@[i].glyphs@
                == b.lines@[i].glyphs@,
{
    assert forall|i: int| 0 <= i < a.lines@.len() implies (#[trigger] a.lines@[i]).width
        == b.lines@[i].width && a.lines@[i].start_doubled == b.lines@[i].start_doubled
        && a.lines@[i].glyphs@ == b.lines@[i].glyphs@ by {
        let glyphs = glyphs_for(data, lines(text)[i]);
        assert(is_line(a.lines@[i], glyphs, align));
        assert(is_line(b.lines@[i], glyphs, align));
        assert forall|j: int| 0 <= j < glyphs.len() implies a.lines@[i].glyphs@[j]
            == b.lines@[i].glyphs@[j] by {
            assert(a.lines@[i].glyphs@[j].offset == advance_sum(glyphs.take(j)));
            assert(b.lines@[i].glyphs@[j].offset == advance_sum(glyphs.take(j)));
        }
        assert(a.lines@[i].glyphs@ =~= b.lines@[i].glyphs@);
    }
}

/// Breaking a line adds one line below all the others: the last baseline moves by
/// exactly the line height.
pub proof fn law_newline_adds_a_line(
    data: Seq<u8>,
    text: Seq<char>,
    more: TextLayout,
    less: TextLayout,
    align: TextAlign,
)
    requires
        is_layout(less, data, text, align),
        is_layout(more, data, text.push('\n'), align),
    ensures
        more.lines@.len() == less.lines@.len() + 1,
        (more.lines@.len() - 1) * more.line_height == (less.lines@.len() - 1) * less.line_height
            + less.line_height,
{
    assert(text.push('\n').drop_last() =~= text);
    let n = less.lines@.len() as int;
    let h = less.line_height as int;
    assert(n * h == (n - 1) * h + h) by (nonlinear_arith);
}

} // verus!
