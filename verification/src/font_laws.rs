//! Which family a font has, and which font a family stands for.
use vstd::prelude::*;

use crate::faces::{
    core_advance, core_ascender, core_descender, core_glyph, core_line_gap, core_names,
    core_tables, core_units, face_advance, face_ascender, face_descender, face_glyph,
    face_line_gap, face_names, face_ok, face_records, face_units, file_core, long, plain_records, table, word,
    NameRecord,
};
use crate::font::{
    default_font_bytes, family_name, first_text, font_family_name, pick_family,
    register_font_data, registered_families, text_less, FontRef, FontRegistry, TextError,
};

verus! {

/// Whether the record at `i` is the first one with that id and a text.
pub open spec fn is_first_record(
    records: Seq<(u16, Option<Seq<char>>)>,
    id: u16,
    i: int,
) -> bool {
    &&& 0 <= i < records.len()
    &&& records[i].0 == id && records[i].1 is Some
    &&& forall|j: int| 0 <= j < i ==> !((#[trigger] records[j]).0 == id && records[j].1 is Some)
}

proof fn lemma_first_text(records: Seq<(u16, Option<Seq<char>>)>, id: u16)
    ensures
        match first_text(records, id) {
            Some(s) => exists|i: int|
                #[trigger] is_first_record(records, id, i) && records[i].1 == Some(s),
            None => forall|j: int|
                0 <= j < records.len() ==> !((#[trigger] records[j]).0 == id && records[j].1
                    is Some),
        },
    decreases records.len(),
{
    if records.len() > 0 {
        if records[0].0 == id && records[0].1 is Some {
            assert(is_first_record(records, id, 0));
        } else {
            let rest = records.drop_first();
            lemma_first_text(rest, id);
            match first_text(rest, id) {
                Some(s) => {
                    let i = choose|i: int|
                        #[trigger] is_first_record(rest, id, i) && rest[i].1 == Some(s);
                    assert forall|j: int| 0 <= j < i + 1 implies !((#[trigger] records[j]).0 == id
                        && records[j].1 is Some) by {
                        if j > 0 {
                            assert(rest[j - 1] == records[j]);
                        }
                    }
                    assert(records[i + 1] == rest[i]);
                    assert(is_first_record(records, id, i + 1));
                },
                None => {
                    assert forall|j: int| 0 <= j < records.len() implies !((
                    #[trigger] records[j]).0 == id && records[j].1 is Some) by {
                        if j > 0 {
                            assert(rest[j - 1] == records[j]);
                        }
                    }
                },
            }
        }
    }
}

/// The family of a font is its first typographic family that has a text, and only where
/// there is none its first plain family.
pub proof fn law_typographic_family_goes_first(
    records: Vec<NameRecord>,
    i: int,
    r: Option<String>,
)
    requires
        call_ensures(pick_family, (&records,), r),
    ensures
        ({
            let all = plain_records(records@);
            &&& is_first_record(all, 16, i) ==> r is Some && Some(r->0@) == all[i].1
            &&& (forall|j: int|
                0 <= j < all.len() ==> !((#[trigger] all[j]).0 == 16 && all[j].1 is Some))
                && is_first_record(all, 1, i) ==> r is Some && Some(r->0@) == all[i].1
            &&& (forall|j: int|
                0 <= j < all.len() ==> !(((#[trigger] all[j]).0 == 16 || all[j].0 == 1) && all[j].1
                    is Some)) ==> r is None
        }),
{
    let all = plain_records(records@);
    lemma_first_text(all, 16);
    lemma_first_text(all, 1);
    lemma_one_first(all, 16, i);
    lemma_one_first(all, 1, i);
}

proof fn lemma_one_first(records: Seq<(u16, Option<Seq<char>>)>, id: u16, i: int)
    ensures
        is_first_record(records, id, i) ==> first_text(records, id) == records[i].1,
{
    lemma_first_text(records, id);
    if is_first_record(records, id, i) {
        match first_text(records, id) {
            Some(s) => {
                let k = choose|k: int|
                    #[trigger] is_first_record(records, id, k) && records[k].1 == Some(s);
                if k < i {
                    assert(!(records[k].0 == id && records[k].1 is Some));
                } else if i < k {
                    assert(!(records[i].0 == id && records[i].1 is Some));
                }
            },
            None => {
                assert(!(records[i].0 == id && records[i].1 is Some));
            },
        }
    }
}

/// Texts are ordered by the first character in which they differ, and one that the other
/// starts with comes first.
pub proof fn law_texts_are_ordered_by_their_first_difference(a: Seq<char>, b: Seq<char>, k: int)
    requires
        0 <= k <= a.len(),
        k <= b.len(),
        forall|i: int| 0 <= i < k ==> a[i] == b[i],
    ensures
        k < a.len() && k < b.len() && a[k] != b[k] ==> (text_less(a, b) <==> a[k]
            < b[k]),
        k == a.len() ==> (text_less(a, b) <==> a.len() < b.len()),
        k == b.len() ==> !text_less(a, b),
    decreases a.len(),
{
    if k > 0 {
        let x = a.drop_first();
        let y = b.drop_first();
        assert forall|i: int| 0 <= i < k - 1 implies x[i] == y[i] by {
            assert(a[i + 1] == b[i + 1]);
        }
        assert(a[0] == b[0]);
        law_texts_are_ordered_by_their_first_difference(x, y, k - 1);
    }
}

/// A registered font is found under its family, every other family stands for what it
/// did, and the default font stays; a font without a family changes nothing.
pub proof fn law_registered_fonts_are_found(
    before: FontRegistry,
    after: FontRegistry,
    bytes: Vec<u8>,
    r: Option<String>,
    name: &str,
)
    requires
        before.wf(),
        exists|s: &mut FontRegistry| #[trigger]
            call_ensures(register_font_data, (s, bytes), r) && *s == before && *final(s) == after,
    ensures
        after.wf(),
        r is None ==> after == before,
        r matches Some(family) ==> family_name(bytes@) == Some(family@),
        r matches Some(family) ==> (family@ == name@ ==> forall|f: FontRef| #[trigger]
            call_ensures(FontRef::for_family, (&after, Some(name)), f) ==> f.bytes() == bytes@),
        r matches Some(family) ==> (family@ != name@ ==> forall|f: FontRef, g: FontRef|
            #[trigger] call_ensures(FontRef::for_family, (&after, Some(name)), f)
                && #[trigger] call_ensures(FontRef::for_family, (&before, Some(name)), g)
                ==> f.bytes() == g.bytes()),
        forall|f: FontRef, g: FontRef|
            #[trigger] call_ensures(FontRef::default_font, (&after,), f) && #[trigger] call_ensures(
                FontRef::default_font,
                (&before,),
                g,
            ) ==> f.bytes() == g.bytes(),
{
}

/// The families that are listed are those under which a font is found, each once and in
/// order; an unknown family stands for the default font.
pub proof fn law_listed_families_are_found(
    registry: FontRegistry,
    names: Vec<String>,
    name: &str,
)
    requires
        registry.wf(),
        call_ensures(registered_families, (&registry,), names),
    ensures
        forall|i: int, j: int|
            0 <= i < j < names@.len() ==> text_less((#[trigger] names@[i])@, (#[trigger] names@[j])@)
                && names@[i]@ != names@[j]@,
        (forall|i: int| 0 <= i < names@.len() ==> (#[trigger] names@[i])@ != name@) ==> forall|
            f: FontRef,
        | #[trigger]
            call_ensures(FontRef::for_family, (&registry, Some(name)), f) ==> f.bytes()
                == registry.default_bytes(),
        (exists|i: int| 0 <= i < names@.len() && (#[trigger] names@[i])@ == name@) ==> forall|
            f: FontRef,
        | #[trigger]
            call_ensures(FontRef::for_family, (&registry, Some(name)), f) ==> f.bytes()
                == registry.fonts()[name@] && family_name(f.bytes()) == Some(name@),
        forall|f: FontRef| #[trigger]
            call_ensures(FontRef::for_family, (&registry, None::<&str>), f) ==> f.bytes()
                == registry.default_bytes(),
        forall|r: &Vec<u8>| #[trigger]
            call_ensures(default_font_bytes, (&registry,), r) ==> r@ == registry.default_bytes(),
{
    registry.law_fonts_are_filed_by_family(name@);
    assert(crate::font::lists_all(registry.fonts(), names@));
    assert forall|i: int, j: int| 0 <= i < j < names@.len() implies text_less(
        (#[trigger] names@[i])@,
        (#[trigger] names@[j])@,
    ) && names@[i]@ != names@[j]@ by {
        law_texts_are_ordered_by_their_first_difference(
            names@[i]@,
            names@[i]@,
            names@[i]@.len() as int,
        );
    }
}

/// A font is taken where it parses, with its bytes as they are, and refused otherwise; a
/// registry starts with its default font under that one's family alone.
pub proof fn law_fonts_keep_their_bytes(data: &[u8], default: Vec<u8>)
    ensures
        forall|r: Result<FontRef, TextError>| #[trigger]
            call_ensures(FontRef::parse, (data,), r) ==> {
                &&& r is Ok <==> face_ok(data@)
                &&& r is Ok ==> r->Ok_0.bytes() == data@
            },
        forall|r: Result<FontRegistry, TextError>| #[trigger]
            call_ensures(FontRegistry::new, (default,), r) ==> {
                &&& r is Ok <==> face_ok(default@)
                &&& r is Ok ==> r->Ok_0.default_bytes() == default@ && forall|name: Seq<char>|
                    #[trigger] r->Ok_0.fonts().contains_key(name) <==> family_name(default@)
                        == Some(
                        name,
                    )
            },
        forall|r: Option<String>| #[trigger]
            call_ensures(font_family_name, (data,), r) ==> {
                &&& !face_ok(data@) ==> r is None
                &&& r matches Some(s) ==> exists|i: int|
                    0 <= i < face_names(data@).len() && (#[trigger] face_names(data@)[i]).1 == Some(
                        s@,
                    )
            },
{
    if face_ok(data@) {
        lemma_first_text(face_names(data@), 16);
        lemma_first_text(face_names(data@), 1);
    }
}

/// A table of a font is what its last record with the tag spans, where that lies in the
/// data.
pub proof fn law_last_record_of_a_tag_counts(
    data: Seq<u8>,
    records: Seq<(u32, u32, u32)>,
    tag: u32,
    i: int,
)
    ensures
        0 <= i < records.len() && records[i].0 == tag && (forall|j: int|
            i < j < records.len() ==> (#[trigger] records[j]).0 != tag) ==> {
            let (_, at, len) = records[i];
            &&& at + len <= data.len() ==> table(data, records, tag) == Some(
                data.subrange(at as int, at + len),
            )
            &&& at + len > data.len() ==> table(data, records, tag) is None
        },
        (forall|j: int| 0 <= j < records.len() ==> (#[trigger] records[j]).0 != tag) ==> table(
            data,
            records,
            tag,
        ) is None,
    decreases records.len(),
{
    if records.len() > 0 {
        let front = records.drop_last();
        law_last_record_of_a_tag_counts(data, front, tag, i);
        assert(records[records.len() - 1] == records.last());
        assert forall|j: int| 0 <= j < front.len() implies #[trigger] front[j] == records[j] by {}
    }
}

/// A font's figures come from its own tables: the glyphs from `cmap`, the advances from
/// `hmtx`, the names from `name`, the heights from `OS/2` and the base tables.
pub proof fn law_figures_come_from_their_tables(data: Seq<u8>, c: char, glyph: u16)
    ensures
        ({
            let records = face_records(data)->0;
            let base = core_tables(data, records);
            &&& face_glyph(data, c) == core_glyph(base, table(data, records, 0x636d_6170), c)
            &&& face_advance(data, glyph) == core_advance(
                base,
                table(data, records, 0x686d_7478),
                glyph,
            )
            &&& face_names(data) == core_names(base, table(data, records, 0x6e61_6d65))
            &&& face_ascender(data) == core_ascender(base, table(data, records, 0x4f53_2f32))
            &&& face_descender(data) == core_descender(base, table(data, records, 0x4f53_2f32))
            &&& face_line_gap(data) == core_line_gap(base, table(data, records, 0x4f53_2f32))
            &&& face_units(data) == core_units(base)
            &&& table(data, records, 0x6865_6164) is Some ==> base.0 == table(
                data,
                records,
                0x6865_6164,
            )->0
            &&& table(data, records, 0x6868_6561) is Some ==> base.1 == table(
                data,
                records,
                0x6868_6561,
            )->0
            &&& table(data, records, 0x6d61_7870) is Some ==> base.2 == table(
                data,
                records,
                0x6d61_7870,
            )->0
        }),
{
}

/// A font without a lower end is not laid out: one whose base table gives no descender
/// and whose `OS/2` table gives the lowest number for it. One that has a descender and no
/// map of characters is.
pub proof fn law_bottomless_fonts_are_not_laid_out(font: FontRef, r: bool)
    requires
        call_ensures(FontRef::can_shape, (&font,), r),
    ensures
        ({
            let data = font.bytes();
            let hhea = file_core(data).1;
            let os2 = table(data, face_records(data)->0, 0x4f53_2f32);
            let map = table(data, face_records(data)->0, 0x636d_6170);
            &&& hhea.len() >= 36 && word(hhea, 6) == 0 && os2 is Some && os2->0.len() >= 78 && word(
                os2->0,
                76,
            ) == 0x8000 && word(os2->0, 70) == 0 && word(os2->0, 0) < 4 ==> !r
            &&& (hhea.len() >= 36 && word(hhea, 6) != 0 || os2 is None) && map is None ==> r
        }),
{
}

/// Numbers in a font stand with their highest byte first.
pub proof fn law_numbers_stand_highest_byte_first(data: Seq<u8>, at: int)
    requires
        0 <= at,
        at + 4 <= data.len(),
    ensures
        word(data, at) == 256 * data[at] + data[at + 1],
        long(data, at) == 16777216 * data[at] + 65536 * data[at + 1] + 256 * data[at + 2] + data[at
            + 3],
        0 <= long(data, at) < 0x1_0000_0000,
{
}

} // verus!
