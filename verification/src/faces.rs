//! The bytes of a font file: its table directory, the tables that text needs, and what
//! the font parser reads from them.
//!
//! The parser adds up the sizes that a file announces without checking them. Files and
//! tables whose sizes it cannot add are found here and kept away from it, and it is
//! given only the tables that a call reads: a face is made of head, hhea and maxp, and
//! no other table keeps it from being made.
use vstd::prelude::*;
use vstd::slice::slice_subrange;

verus! {

/// The tag "ttcf" that a collection of faces begins with.
pub const COLLECTION: u32 = 0x7474_6366;

/// The tag "head".
pub const HEAD: u32 = 0x6865_6164;

/// The tag "hhea".
pub const HHEA: u32 = 0x6868_6561;

/// The tag "maxp".
pub const MAXP: u32 = 0x6d61_7870;

/// The tag "hmtx".
pub const HMTX: u32 = 0x686d_7478;

/// The tag "cmap".
pub const CMAP: u32 = 0x636d_6170;

/// The tag "name".
pub const NAME: u32 = 0x6e61_6d65;

/// The tag "OS/2".
pub const OS2: u32 = 0x4f53_2f32;

/// The largest size that the parser counts to.
pub const COUNTED: u64 = 0xffff_ffff;

/// The two bytes at `at`, the high one first.
pub open spec fn word(data: Seq<u8>, at: int) -> int {
    data[at] * 256 + data[at + 1]
}

/// The four bytes at `at`, the highest one first.
pub open spec fn long(data: Seq<u8>, at: int) -> int {
    word(data, at) * 65536 + word(data, at + 2)
}

fn word_at(data: &[u8], at: usize) -> (r: u64)
    requires
        at + 2 <= data@.len(),
    ensures
        r == word(data@, at as int),
        r <= 0xffff,
{
    data[at] as u64 * 256 + data[at + 1] as u64
}

fn long_at(data: &[u8], at: usize) -> (r: u64)
    requires
        at + 4 <= data@.len(),
    ensures
        r == long(data@, at as int),
        r <= COUNTED,
{
    assert(at + 4 <= data.len());
    word_at(data, at) * 65536 + word_at(data, at + 2)
}

/// Whether the parser can count the tables of the directory that begins at `at`.
pub open spec fn countable_directory(data: Seq<u8>, at: int) -> bool {
    &&& at + 12 <= COUNTED
    &&& at + 6 <= data.len() ==> {
        &&& word(data, at + 4) < 0xffff
        &&& at + 12 + 16 * word(data, at + 4) <= COUNTED
    }
}

/// Whether the parser can count what the file announces: the faces of a collection,
/// and the tables of the first face.
pub open spec fn countable(data: Seq<u8>) -> bool {
    if data.len() >= 4 && long(data, 0) == COLLECTION {
        data.len() >= 12 ==> {
            &&& 12 + 4 * long(data, 8) <= COUNTED
            &&& long(data, 8) > 0 && data.len() >= 16 ==> countable_directory(data, long(data, 12))
        }
    } else {
        countable_directory(data, 0)
    }
}

fn is_countable_directory(data: &[u8], at: u64) -> (r: bool)
    requires
        at <= COUNTED,
    ensures
        r == countable_directory(data@, at as int),
{
    if at + 12 > COUNTED {
        return false;
    }
    if at + 6 > data.len() as u64 {
        return true;
    }
    let tables = word_at(data, at as usize + 4);
    tables < 0xffff && at + 12 + 16 * tables <= COUNTED
}

/// Whether the parser can count what the file announces.
pub fn is_countable(data: &[u8]) -> (r: bool)
    ensures
        r == countable(data@),
{
    if data.len() >= 4 && long_at(data, 0) == COLLECTION as u64 {
        if data.len() < 12 {
            return true;
        }
        let faces = long_at(data, 8);
        if 12 + 4 * faces > COUNTED {
            return false;
        }
        if faces == 0 || data.len() < 16 {
            return true;
        }
        let start = long_at(data, 12);
        is_countable_directory(data, start)
    } else {
        is_countable_directory(data, 0)
    }
}

/// The table directory of the first face: tag, offset and length of each table.
pub uninterp spec fn face_records(data: Seq<u8>) -> Option<Seq<(u32, u32, u32)>>;

/// `ttf_parser::RawFace::parse` on the first face and its `table_records`, each with
/// its tag, offset and length: they depend on the bytes alone. Nothing where the
/// directory does not parse.
#[verifier::external_body]
fn table_records(data: &[u8]) -> (r: Option<Vec<(u32, u32, u32)>>)
    requires
        countable(data@),
    ensures
        match r {
            Some(v) => face_records(data@) == Some(v@),
            None => face_records(data@) is None,
        },
{
    let face = ttf_parser::RawFace::parse(data, 0).ok()?;
    Some(face.table_records.into_iter().map(|t| (t.tag.0, t.offset, t.length)).collect())
}

/// The table with this tag: what its last entry in the directory names, where that
/// lies within the file.
pub open spec fn table(data: Seq<u8>, records: Seq<(u32, u32, u32)>, tag: u32) -> Option<Seq<u8>>
    decreases records.len(),
{
    if records.len() == 0 {
        None
    } else if records.last().0 != tag {
        table(data, records.drop_last(), tag)
    } else if records.last().1 + records.last().2 <= data.len() {
        Some(
            data.subrange(
                records.last().1 as int,
                records.last().1 + records.last().2,
            ),
        )
    } else {
        None
    }
}

/// The bytes of a table that may be missing.
pub open spec fn bytes_of(table: Option<&[u8]>) -> Option<Seq<u8>> {
    match table {
        Some(t) => Some(t@),
        None => None,
    }
}

fn find_table<'a>(data: &'a [u8], records: &Vec<(u32, u32, u32)>, tag: u32) -> (r: Option<&'a [u8]>)
    ensures
        bytes_of(r) == table(data@, records@, tag),
{
    let mut i: usize = records.len();
    assert(records@.take(i as int) =~= records@);
    while i > 0
        invariant
            i <= records@.len(),
            table(data@, records@, tag) == table(data@, records@.take(i as int), tag),
        decreases i,
    {
        i = i - 1;
        assert(records@.take(i + 1).drop_last() =~= records@.take(i as int));
        let record = records[i];
        if record.0 == tag {
            if record.1 as u64 + record.2 as u64 <= data.len() as u64 {
                let end = (record.1 as u64 + record.2 as u64) as usize;
                return Some(slice_subrange(data, record.1 as usize, end));
            }
            return None;
        }
    }
    None
}

/// The tables that a face cannot do without: head, hhea and maxp.
pub open spec fn core_tables(data: Seq<u8>, records: Seq<(u32, u32, u32)>) -> (
    Seq<u8>,
    Seq<u8>,
    Seq<u8>,
) {
    (
        present(table(data, records, HEAD)),
        present(table(data, records, HHEA)),
        present(table(data, records, MAXP)),
    )
}

/// The bytes of a table, none where it is missing.
pub open spec fn present(table: Option<Seq<u8>>) -> Seq<u8> {
    match table {
        Some(t) => t,
        None => Seq::empty(),
    }
}

/// The tables of the first face that text needs.
pub struct Tables<'a> {
    head: &'a [u8],
    hhea: &'a [u8],
    maxp: &'a [u8],
    hmtx: Option<&'a [u8]>,
    cmap: Option<&'a [u8]>,
    name: Option<&'a [u8]>,
    os2: Option<&'a [u8]>,
}

impl<'a> Tables<'a> {
    pub closed spec fn base(&self) -> (Seq<u8>, Seq<u8>, Seq<u8>) {
        (self.head@, self.hhea@, self.maxp@)
    }

    pub closed spec fn metrics(&self) -> Option<Seq<u8>> {
        bytes_of(self.os2)
    }

    pub closed spec fn map(&self) -> Option<Seq<u8>> {
        bytes_of(self.cmap)
    }

    pub closed spec fn advances(&self) -> Option<Seq<u8>> {
        bytes_of(self.hmtx)
    }

    pub closed spec fn naming(&self) -> Option<Seq<u8>> {
        bytes_of(self.name)
    }

    /// Whether these are the tables of the first face of a file.
    pub open spec fn are_of(&self, data: Seq<u8>) -> bool {
        &&& self.base() == file_core(data)
        &&& self.metrics() == file_table(data, OS2)
        &&& self.map() == file_table(data, CMAP)
        &&& self.advances() == file_table(data, HMTX)
        &&& self.naming() == file_table(data, NAME)
    }
}

/// The tables of a file's first face that it cannot do without.
pub open spec fn file_core(data: Seq<u8>) -> (Seq<u8>, Seq<u8>, Seq<u8>) {
    core_tables(data, face_records(data)->0)
}

/// A table of a file's first face.
pub open spec fn file_table(data: Seq<u8>, tag: u32) -> Option<Seq<u8>> {
    table(data, face_records(data)->0, tag)
}

/// Whether head, hhea and maxp make a face.
pub uninterp spec fn core_ok(base: (Seq<u8>, Seq<u8>, Seq<u8>)) -> bool;

/// The units per em of a face.
pub uninterp spec fn core_units(base: (Seq<u8>, Seq<u8>, Seq<u8>)) -> u16;

/// The ascender of a face with this metrics table.
pub uninterp spec fn core_ascender(base: (Seq<u8>, Seq<u8>, Seq<u8>), os2: Option<Seq<u8>>) -> i16;

/// The descender of a face with this metrics table.
pub uninterp spec fn core_descender(base: (Seq<u8>, Seq<u8>, Seq<u8>), os2: Option<Seq<u8>>) -> i16;

/// The line gap of a face with this metrics table.
pub uninterp spec fn core_line_gap(base: (Seq<u8>, Seq<u8>, Seq<u8>), os2: Option<Seq<u8>>) -> i16;

/// The glyph of a face with this character map for a character.
pub uninterp spec fn core_glyph(
    base: (Seq<u8>, Seq<u8>, Seq<u8>),
    cmap: Option<Seq<u8>>,
    c: char,
) -> Option<u16>;

/// The horizontal advance of a glyph of a face with this table of advances.
pub uninterp spec fn core_advance(
    base: (Seq<u8>, Seq<u8>, Seq<u8>),
    hmtx: Option<Seq<u8>>,
    glyph: u16,
) -> Option<u16>;

/// The names of a face with this name table: name ids, and the texts of the Unicode
/// ones.
pub uninterp spec fn core_names(
    base: (Seq<u8>, Seq<u8>, Seq<u8>),
    name: Option<Seq<u8>>,
) -> Seq<(u16, Option<Seq<char>>)>;

/// `ttf_parser::Face::from_raw_tables` on head, hhea and maxp: whether it succeeds
/// depends on their bytes alone. Other tables do not keep a face from being made.
#[verifier::external_body]
fn makes_face(t: &Tables) -> (r: bool)
    ensures
        r == core_ok(t.base()),
{
    let raw = ttf_parser::RawFaceTables {
        head: t.head,
        hhea: t.hhea,
        maxp: t.maxp,
        ..Default::default()
    };
    ttf_parser::Face::from_raw_tables(raw).is_ok()
}

/// One record of a font's name table.
#[derive(Debug)]
pub struct NameRecord {
    pub name_id: u16,
    pub text: Option<String>,
}

impl NameRecord {
    pub open spec fn plain(&self) -> (u16, Option<Seq<char>>) {
        (
            self.name_id,
            match self.text {
                Some(s) => Some(s@),
                None => None,
            },
        )
    }
}

pub open spec fn plain_records(records: Seq<NameRecord>) -> Seq<(u16, Option<Seq<char>>)> {
    Seq::new(records.len(), |i: int| records[i].plain())
}

/// `ttf_parser::Face::names` of a face made of head, hhea, maxp and the name table,
/// each with its id and `Name::to_string`. Nothing where no face is made.
#[verifier::external_body]
pub(crate) fn name_records(t: &Tables) -> (r: Option<Vec<NameRecord>>)
    ensures
        match r {
            Some(v) => core_ok(t.base()) && plain_records(v@) == core_names(t.base(), t.naming()),
            None => !core_ok(t.base()),
        },
{
    let raw = ttf_parser::RawFaceTables {
        head: t.head,
        hhea: t.hhea,
        maxp: t.maxp,
        name: t.name,
        ..Default::default()
    };
    let face = ttf_parser::Face::from_raw_tables(raw).ok()?;
    let names = face.names().into_iter();
    Some(names.map(|n| NameRecord { name_id: n.name_id, text: n.to_string() }).collect())
}

/// `ttf_parser::Face::units_per_em` of a face made of head, hhea and maxp; it lies in
/// 16..=16384.
#[verifier::external_body]
pub(crate) fn units_per_em(t: &Tables) -> (r: Option<u16>)
    ensures
        r == (if core_ok(t.base()) {
            Some(core_units(t.base()))
        } else {
            None
        }),
        r matches Some(n) ==> 16 <= n <= 16384,
{
    let raw = ttf_parser::RawFaceTables {
        head: t.head,
        hhea: t.hhea,
        maxp: t.maxp,
        ..Default::default()
    };
    ttf_parser::Face::from_raw_tables(raw).ok().map(|f| f.units_per_em())
}

/// `ttf_parser::Face::ascender` of a face made of head, hhea, maxp and the metrics
/// table.
#[verifier::external_body]
pub(crate) fn ascender(t: &Tables) -> (r: Option<i16>)
    ensures
        r == (if core_ok(t.base()) {
            Some(core_ascender(t.base(), t.metrics()))
        } else {
            None
        }),
{
    let raw = ttf_parser::RawFaceTables {
        head: t.head,
        hhea: t.hhea,
        maxp: t.maxp,
        os2: t.os2,
        ..Default::default()
    };
    ttf_parser::Face::from_raw_tables(raw).ok().map(|f| f.ascender())
}

/// Whether a metrics table stores a Windows descent that cannot be negated in 16 bits
/// and gives no typographic descender to use in its place.
pub open spec fn is_bottomless(os2: Seq<u8>) -> bool {
    &&& os2.len() >= 78
    &&& word(os2, 76) == 0x8000
    &&& word(os2, 70) == 0
    &&& word(os2, 0) < 4 || word(os2, 62) / 128 % 2 == 0
}

/// Whether the descender can be told: the horizontal header gives one, or the metrics
/// table does.
pub open spec fn has_descender(hhea: Seq<u8>, os2: Option<Seq<u8>>) -> bool {
    ||| hhea.len() >= 36 && word(hhea, 6) != 0
    ||| os2 is None
    ||| !is_bottomless(os2->0)
}

/// `ttf_parser::Face::descender` of a face made of head, hhea, maxp and the metrics
/// table. It negates the Windows descent where neither hhea nor the metrics table
/// gives another; the one that cannot be negated is left out.
#[verifier::external_body]
pub(crate) fn descender(t: &Tables) -> (r: Option<i16>)
    requires
        has_descender(t.base().1, t.metrics()),
    ensures
        r == (if core_ok(t.base()) {
            Some(core_descender(t.base(), t.metrics()))
        } else {
            None
        }),
{
    let raw = ttf_parser::RawFaceTables {
        head: t.head,
        hhea: t.hhea,
        maxp: t.maxp,
        os2: t.os2,
        ..Default::default()
    };
    ttf_parser::Face::from_raw_tables(raw).ok().map(|f| f.descender())
}

/// `ttf_parser::Face::line_gap` of a face made of head, hhea, maxp and the metrics
/// table.
#[verifier::external_body]
pub(crate) fn line_gap(t: &Tables) -> (r: Option<i16>)
    ensures
        r == (if core_ok(t.base()) {
            Some(core_line_gap(t.base(), t.metrics()))
        } else {
            None
        }),
{
    let raw = ttf_parser::RawFaceTables {
        head: t.head,
        hhea: t.hhea,
        maxp: t.maxp,
        os2: t.os2,
        ..Default::default()
    };
    ttf_parser::Face::from_raw_tables(raw).ok().map(|f| f.line_gap())
}

/// Whether the parser can count the list of the map that begins at `at` in a character
/// map: arrays (10), groups (12 and 13) and variation selectors (14) announce a length.
pub open spec fn countable_submap(map: Seq<u8>, at: int) -> bool {
    at + 2 <= map.len() ==> {
        let format = word(map, at);
        &&& format == 10 && at + 20 <= map.len() ==> 20 + 2 * long(map, at + 16) <= COUNTED
        &&& (format == 12 || format == 13) && at + 16 <= map.len() ==> 16 + 12 * long(map, at + 12)
            <= COUNTED
        &&& format == 14 && at + 10 <= map.len() ==> 10 + 11 * long(map, at + 6) <= COUNTED
    }
}

/// Whether the parser can count every list of a character map.
pub open spec fn countable_map(map: Seq<u8>) -> bool {
    map.len() >= 4 && 4 + 8 * word(map, 2) <= map.len() ==> forall|i: int|
        0 <= i < word(map, 2) ==> countable_submap(map, #[trigger] long(map, 8 + 8 * i))
}

fn is_countable_submap(map: &[u8], at: u64) -> (r: bool)
    requires
        at <= COUNTED,
    ensures
        r == countable_submap(map@, at as int),
{
    let size = map.len() as u64;
    if at + 2 > size {
        return true;
    }
    let start = at as usize;
    let format = word_at(map, start);
    if format == 10 {
        at + 20 > size || 20 + 2 * long_at(map, start + 16) <= COUNTED
    } else if format == 12 || format == 13 {
        at + 16 > size || 16 + 12 * long_at(map, start + 12) <= COUNTED
    } else if format == 14 {
        at + 10 > size || 10 + 11 * long_at(map, start + 6) <= COUNTED
    } else {
        true
    }
}

fn is_countable_map(map: &[u8]) -> (r: bool)
    ensures
        r == countable_map(map@),
{
    if map.len() < 4 {
        return true;
    }
    let count = word_at(map, 2);
    if 4 + 8 * count > map.len() as u64 {
        return true;
    }
    let mut i: u64 = 0;
    while i < count
        invariant
            i <= count <= 0xffff,
            count == word(map@, 2),
            4 + 8 * count <= map@.len(),
            forall|k: int|
                0 <= k < i ==> countable_submap(map@, #[trigger] long(map@, 8 + 8 * k)),
        decreases count - i,
    {
        let at = long_at(map, (8 + 8 * i) as usize);
        if !is_countable_submap(map, at) {
            assert(!countable_submap(map@, long(map@, 8 + 8 * (i as int))));
            return false;
        }
        i = i + 1;
    }
    true
}

/// `ttf_parser::Face::glyph_index` of a face made of head, hhea, maxp and the character
/// map.
#[verifier::external_body]
pub(crate) fn glyph_index(t: &Tables, c: char) -> (r: Option<Option<u16>>)
    requires
        t.map() matches Some(map) ==> countable_map(map),
    ensures
        r == (if core_ok(t.base()) {
            Some(core_glyph(t.base(), t.map(), c))
        } else {
            None
        }),
{
    let raw = ttf_parser::RawFaceTables {
        head: t.head,
        hhea: t.hhea,
        maxp: t.maxp,
        cmap: t.cmap,
        ..Default::default()
    };
    ttf_parser::Face::from_raw_tables(raw).ok().map(|f| f.glyph_index(c).map(|g| g.0))
}

/// `ttf_parser::Face::glyph_hor_advance` of a face made of head, hhea, maxp and the
/// table of advances.
#[verifier::external_body]
pub(crate) fn glyph_advance(t: &Tables, glyph: u16) -> (r: Option<Option<u16>>)
    ensures
        r == (if core_ok(t.base()) {
            Some(core_advance(t.base(), t.advances(), glyph))
        } else {
            None
        }),
{
    let raw = ttf_parser::RawFaceTables {
        head: t.head,
        hhea: t.hhea,
        maxp: t.maxp,
        hmtx: t.hmtx,
        ..Default::default()
    };
    let id = ttf_parser::GlyphId(glyph);
    ttf_parser::Face::from_raw_tables(raw).ok().map(|f| f.glyph_hor_advance(id))
}

/// Whether the first face of a file parses.
pub open spec fn face_ok(data: Seq<u8>) -> bool {
    countable(data) && face_records(data) is Some && core_ok(file_core(data))
}

/// The name table of the first face: name ids, and the texts of the Unicode ones.
pub open spec fn face_names(data: Seq<u8>) -> Seq<(u16, Option<Seq<char>>)> {
    core_names(file_core(data), file_table(data, NAME))
}

/// The units per em of the first face.
pub open spec fn face_units(data: Seq<u8>) -> u16 {
    core_units(file_core(data))
}

/// The ascender of the first face.
pub open spec fn face_ascender(data: Seq<u8>) -> i16 {
    core_ascender(file_core(data), file_table(data, OS2))
}

/// The descender of the first face.
pub open spec fn face_descender(data: Seq<u8>) -> i16 {
    core_descender(file_core(data), file_table(data, OS2))
}

/// The line gap of the first face.
pub open spec fn face_line_gap(data: Seq<u8>) -> i16 {
    core_line_gap(file_core(data), file_table(data, OS2))
}

/// The glyph of the first face for a character.
pub open spec fn face_glyph(data: Seq<u8>, c: char) -> Option<u16> {
    core_glyph(file_core(data), file_table(data, CMAP), c)
}

/// The horizontal advance of a glyph of the first face.
pub open spec fn face_advance(data: Seq<u8>, glyph: u16) -> Option<u16> {
    core_advance(file_core(data), file_table(data, HMTX), glyph)
}

/// Whether text can be laid out in the first face: its descender can be told, and the
/// lists of its character map can be counted.
pub open spec fn can_shape(data: Seq<u8>) -> bool {
    &&& has_descender(file_core(data).1, file_table(data, OS2))
    &&& file_table(data, CMAP) matches Some(map) ==> countable_map(map)
}

fn or_empty<'a>(data: &'a [u8], table: Option<&'a [u8]>) -> (r: &'a [u8])
    ensures
        r@ == present(bytes_of(table)),
{
    match table {
        Some(t) => t,
        None => {
            let none = slice_subrange(data, 0, 0);
            assert(none@ =~= Seq::<u8>::empty());
            none
        },
    }
}

/// The tables of the first face, where it parses.
pub(crate) fn read_tables<'a>(data: &'a [u8]) -> (r: Option<Tables<'a>>)
    ensures
        match r {
            Some(t) => face_ok(data@) && t.are_of(data@),
            None => !face_ok(data@),
        },
{
    if !is_countable(data) {
        return None;
    }
    let records = match table_records(data) {
        Some(records) => records,
        None => {
            return None;
        },
    };
    let t = Tables {
        head: or_empty(data, find_table(data, &records, HEAD)),
        hhea: or_empty(data, find_table(data, &records, HHEA)),
        maxp: or_empty(data, find_table(data, &records, MAXP)),
        hmtx: find_table(data, &records, HMTX),
        cmap: find_table(data, &records, CMAP),
        name: find_table(data, &records, NAME),
        os2: find_table(data, &records, OS2),
    };
    if makes_face(&t) {
        Some(t)
    } else {
        None
    }
}

fn bottomless(os2: &[u8]) -> (r: bool)
    ensures
        r == is_bottomless(os2@),
{
    os2.len() >= 78 && word_at(os2, 76) == 0x8000 && word_at(os2, 70) == 0 && (word_at(os2, 0) < 4
        || word_at(os2, 62) / 128 % 2 == 0)
}

impl<'a> Tables<'a> {
    /// Whether text can be laid out with these tables.
    pub(crate) fn can_shape(&self) -> (r: bool)
        ensures
            forall|data: Seq<u8>| #[trigger] self.are_of(data) ==> r == can_shape(data),
    {
        let descends = (self.hhea.len() >= 36 && word_at(self.hhea, 6) != 0) || match self.os2 {
            Some(os2) => !bottomless(os2),
            None => true,
        };
        let maps = match self.cmap {
            Some(map) => is_countable_map(map),
            None => true,
        };
        descends && maps
    }
}

} // verus!
