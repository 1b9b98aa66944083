//! Fonts: which family a font file belongs to, and the registry of families.
use std::sync::Arc;

use vstd::prelude::*;

use crate::faces::{
    can_shape, face_names, face_ok, name_records, plain_records, read_tables, NameRecord, Tables,
};
use crate::strings::{chars_of, same_text};

verus! {

/// Why a font is refused.
#[derive(Clone, Copy, Debug, PartialEq, Eq, Structural)]
pub enum TextError {
    /// The font failed to parse.
    BadFont,
}

/// Horizontal alignment of each line within the text block.
#[derive(Clone, Copy, Debug, PartialEq, Eq, Structural)]
pub enum TextAlign {
    Left,
    Center,
    Right,
}

impl Default for TextAlign {
    fn default() -> (r: TextAlign)
        ensures
            r == TextAlign::Left,
    {
        TextAlign::Left
    }
}

/// `std::sync::Arc::clone`: another handle on the same bytes.
#[verifier::external_body]
fn share(data: &Arc<Vec<u8>>) -> (r: Arc<Vec<u8>>)
    ensures
        r == *data,
{
    Arc::clone(data)
}

/// The id of the typographic family name.
pub const TYPOGRAPHIC_FAMILY: u16 = 16;

/// The id of the plain family name.
pub const FAMILY: u16 = 1;

/// The first record with the given id that has a text.
pub open spec fn first_text(records: Seq<(u16, Option<Seq<char>>)>, id: u16) -> Option<Seq<char>>
    decreases records.len(),
{
    if records.len() == 0 {
        None
    } else if records[0].0 == id && records[0].1 is Some {
        records[0].1
    } else {
        first_text(records.drop_first(), id)
    }
}

/// The family that a name table gives: the typographic one first, then the plain
/// one.
pub open spec fn family_of(records: Seq<(u16, Option<Seq<char>>)>) -> Option<Seq<char>> {
    match first_text(records, TYPOGRAPHIC_FAMILY) {
        Some(s) => Some(s),
        None => first_text(records, FAMILY),
    }
}

/// The family of a font file, if it parses and has one.
pub open spec fn family_name(data: Seq<u8>) -> Option<Seq<char>> {
    if face_ok(data) {
        family_of(face_names(data))
    } else {
        None
    }
}

/// The family that a name table gives: the typographic one first, then the plain
/// one.
pub fn pick_family(records: &Vec<NameRecord>) -> (r: Option<String>)
    ensures
        match r {
            Some(s) => family_of(plain_records(records@)) == Some(s@),
            None => family_of(plain_records(records@)) is None,
        },
{
    let ghost all = plain_records(records@);
    let mut fallback: Option<String> = None;
    let mut i: usize = 0;
    assert(all.skip(0) =~= all);
    while i < records.len()
        invariant
            i <= records@.len(),
            all == plain_records(records@),
            first_text(all, TYPOGRAPHIC_FAMILY) == first_text(
                all.skip(i as int),
                TYPOGRAPHIC_FAMILY,
            ),
            match fallback {
                Some(s) => first_text(all, FAMILY) == Some(s@),
                None => first_text(all, FAMILY) == first_text(all.skip(i as int), FAMILY),
            },
        decreases records.len() - i,
    {
        let record = &records[i];
        assert(all[i as int] == record.plain());
        assert(all.skip(i as int).drop_first() =~= all.skip(i + 1));
        if record.name_id == TYPOGRAPHIC_FAMILY {
            if let Some(s) = &record.text {
                return Some(s.clone());
            }
        } else if record.name_id == FAMILY && fallback.is_none() {
            if let Some(s) = &record.text {
                fallback = Some(s.clone());
            }
        }
        i = i + 1;
    }
    fallback
}

/// The family name that a font file reports.
pub fn font_family_name(bytes: &[u8]) -> (r: Option<String>)
    ensures
        match r {
            Some(s) => family_name(bytes@) == Some(s@),
            None => family_name(bytes@) is None,
        },
{
    let tables = match read_tables(bytes) {
        Some(tables) => tables,
        None => {
            return None;
        },
    };
    match name_records(&tables) {
        Some(records) => pick_family(&records),
        None => None,
    }
}

/// Whether `a` sorts before `b`: character by character, the shorter first.
pub open spec fn text_less(a: Seq<char>, b: Seq<char>) -> bool
    decreases a.len(),
{
    if b.len() == 0 {
        false
    } else if a.len() == 0 {
        true
    } else if a[0] != b[0] {
        a[0] < b[0]
    } else {
        text_less(a.drop_first(), b.drop_first())
    }
}

proof fn lemma_less_irreflexive(a: Seq<char>)
    ensures
        !text_less(a, a),
    decreases a.len(),
{
    if a.len() > 0 {
        lemma_less_irreflexive(a.drop_first());
    }
}

proof fn lemma_less_transitive(a: Seq<char>, b: Seq<char>, c: Seq<char>)
    requires
        text_less(a, b),
        text_less(b, c),
    ensures
        text_less(a, c),
    decreases a.len(),
{
    if a.len() > 0 && a[0] == b[0] && b[0] == c[0] {
        lemma_less_transitive(a.drop_first(), b.drop_first(), c.drop_first());
    }
}

proof fn lemma_less_total(a: Seq<char>, b: Seq<char>)
    ensures
        text_less(a, b) || text_less(b, a) || a == b,
    decreases a.len(),
{
    if a.len() > 0 && b.len() > 0 && a[0] == b[0] {
        lemma_less_total(a.drop_first(), b.drop_first());
        if a.drop_first() == b.drop_first() {
            assert(a =~= seq![a[0]] + a.drop_first());
            assert(b =~= seq![b[0]] + b.drop_first());
        }
    } else if a.len() == 0 && b.len() == 0 {
        assert(a =~= b);
    }
}

fn sorts_before(a: &str, b: &str) -> (r: bool)
    ensures
        r == text_less(a@, b@),
{
    let x = chars_of(a);
    let y = chars_of(b);
    let mut i: usize = 0;
    assert(x@.skip(0) =~= x@);
    assert(y@.skip(0) =~= y@);
    loop
        invariant
            i <= x@.len(),
            i <= y@.len(),
            x@ == a@,
            y@ == b@,
            text_less(a@, b@) == text_less(x@.skip(i as int), y@.skip(i as int)),
        decreases x.len() - i,
    {
        if i == y.len() {
            return false;
        }
        if i == x.len() {
            return true;
        }
        assert(x@.skip(i as int)[0] == x@[i as int]);
        assert(y@.skip(i as int)[0] == y@[i as int]);
        if x[i] != y[i] {
            return x[i] < y[i];
        }
        assert(x@.skip(i as int).drop_first() =~= x@.skip(i + 1));
        assert(y@.skip(i as int).drop_first() =~= y@.skip(i + 1));
        i = i + 1;
    }
}

/// A font that parses, with its bytes. Cheap to copy.
pub struct FontRef {
    data: Arc<Vec<u8>>,
}

impl FontRef {
    pub closed spec fn bytes(&self) -> Seq<u8> {
        self.data@
    }

    /// Whether the font parses.
    #[verifier::type_invariant]
    pub open spec fn valid(&self) -> bool {
        face_ok(self.bytes())
    }

    /// Takes a copy of `data`, if it parses.
    pub fn parse(data: &[u8]) -> (r: Result<FontRef, TextError>)
        ensures
            match r {
                Ok(font) => face_ok(data@) && font.bytes() == data@ && font.valid(),
                Err(e) => e == TextError::BadFont && !face_ok(data@),
            },
    {
        if read_tables(data).is_some() {
            let copy = vstd::slice::slice_to_vec(data);
            Ok(FontRef { data: Arc::new(copy) })
        } else {
            Err(TextError::BadFont)
        }
    }

    /// The bundled default font.
    pub fn default_font(registry: &FontRegistry) -> (r: FontRef)
        requires
            registry.wf(),
        ensures
            r.bytes() == registry.default_bytes(),
            r.valid(),
    {
        FontRef { data: share(&registry.default) }
    }

    /// The font of a family, or the bundled default where the name is absent or
    /// unknown.
    pub fn for_family(registry: &FontRegistry, name: Option<&str>) -> (r: FontRef)
        requires
            registry.wf(),
        ensures
            r.bytes() == registry.resolve(
                match name {
                    Some(s) => Some(s@),
                    None => None,
                },
            ),
            r.valid(),
    {
        if let Some(s) = name {
            if let Some(i) = registry.find(s) {
                return FontRef { data: share(&registry.entries[i].data) };
            }
        }
        FontRef::default_font(registry)
    }

    /// The font's bytes.
    pub fn data(&self) -> (r: &Vec<u8>)
        ensures
            r@ == self.bytes(),
            self.valid(),
    {
        proof {
            use_type_invariant(self);
        }
        &self.data
    }
}

impl FontRef {
    /// The font's tables.
    pub(crate) fn tables(&self) -> (r: Tables<'_>)
        ensures
            r.are_of(self.bytes()),
            self.valid(),
    {
        read_tables(self.data()).unwrap()
    }

    /// Whether text can be laid out in the font.
    pub fn can_shape(&self) -> (r: bool)
        ensures
            r == can_shape(self.bytes()),
    {
        let tables = self.tables();
        tables.can_shape()
    }
}

/// One family of the registry.
struct FontEntry {
    family: String,
    data: Arc<Vec<u8>>,
}

/// The registered families and the bundled default font.
pub struct FontRegistry {
    entries: Vec<FontEntry>,
    default: Arc<Vec<u8>>,
}

impl FontRegistry {
    closed spec fn key(&self, i: int) -> Seq<char> {
        self.entries@[i].family@
    }

    /// The registered families with their fonts.
    pub closed spec fn fonts(&self) -> Map<Seq<char>, Seq<u8>> {
        Map::new(
            |k: Seq<char>| exists|i: int| 0 <= i < self.entries@.len() && #[trigger] self.key(i) == k,
            |k: Seq<char>|
                self.entries@[choose|i: int|
                    0 <= i < self.entries@.len() && #[trigger] self.key(i) == k].data@,
        )
    }

    pub closed spec fn default_bytes(&self) -> Seq<u8> {
        self.default@
    }

    /// The names are in order, none twice, and every font reports the family that it
    /// is filed under.
    closed spec fn filed(&self) -> bool {
        &&& face_ok(self.default@)
        &&& forall|i: int|
            0 <= i < self.entries@.len() ==> family_name((#[trigger] self.entries@[i]).data@)
                == Some(self.entries@[i].family@)
        &&& forall|i: int, j: int|
            0 <= i < j < self.entries@.len() ==> text_less(
                #[trigger] self.key(i),
                #[trigger] self.key(j),
            )
    }

    /// Whether every font is filed under the family that it reports, and the bundled
    /// font's family is registered.
    pub closed spec fn wf(&self) -> bool {
        &&& self.filed()
        &&& family_name(self.default_bytes()) matches Some(name) ==> self.fonts().contains_key(name)
    }

    /// Every registered font reports the family that it is filed under, and the family
    /// of the bundled font stays registered.
    pub proof fn law_fonts_are_filed_by_family(&self, name: Seq<char>)
        requires
            self.wf(),
        ensures
            self.fonts().contains_key(name) ==> family_name(self.fonts()[name]) == Some(name),
            family_name(self.default_bytes()) matches Some(own) ==> self.fonts().contains_key(own),
    {
        if self.fonts().contains_key(name) {
            let i = choose|i: int| 0 <= i < self.entries@.len() && #[trigger] self.key(i) == name;
            self.lemma_entry(i);
            assert(family_name(self.entries@[i].data@) == Some(self.entries@[i].family@));
        }
    }

    /// The font that a family name stands for.
    pub open spec fn resolve(&self, name: Option<Seq<char>>) -> Seq<u8> {
        match name {
            Some(n) if self.fonts().contains_key(n) => self.fonts()[n],
            _ => self.default_bytes(),
        }
    }

    proof fn lemma_entry(&self, i: int)
        requires
            self.filed(),
            0 <= i < self.entries@.len(),
        ensures
            self.fonts().contains_key(self.key(i)),
            self.fonts()[self.key(i)] == self.entries@[i].data@,
    {
        let k = self.key(i);
        let j = choose|j: int| 0 <= j < self.entries@.len() && #[trigger] self.key(j) == k;
        lemma_less_irreflexive(k);
        if j < i {
            assert(text_less(self.key(j), self.key(i)));
        } else if i < j {
            assert(text_less(self.key(i), self.key(j)));
        }
    }

    /// A registry with the bundled default font, registered under its own family
    /// where it has one.
    pub fn new(default: Vec<u8>) -> (r: Result<FontRegistry, TextError>)
        ensures
            match r {
                Ok(registry) => {
                    &&& registry.wf()
                    &&& face_ok(default@)
                    &&& registry.default_bytes() == default@
                    &&& registry.fonts() == (match family_name(default@) {
                        Some(name) => Map::<Seq<char>, Seq<u8>>::empty().insert(name, default@),
                        None => Map::empty(),
                    })
                },
                Err(e) => e == TextError::BadFont && !face_ok(default@),
            },
    {
        if read_tables(&default).is_none() {
            return Err(TextError::BadFont);
        }
        let family = font_family_name(&default);
        let data = Arc::new(default);
        let mut registry = FontRegistry { entries: Vec::new(), default: share(&data) };
        assert(registry.fonts() =~= Map::empty());
        if let Some(family) = family {
            registry.put(family, data);
        }
        Ok(registry)
    }

    /// Where the family stands, if it is registered.
    fn find(&self, name: &str) -> (r: Option<usize>)
        requires
            self.wf(),
        ensures
            match r {
                Some(i) => {
                    &&& i < self.entries@.len()
                    &&& self.fonts().contains_key(name@)
                    &&& self.fonts()[name@] == self.entries@[i as int].data@
                    &&& self.key(i as int) == name@
                },
                None => !self.fonts().contains_key(name@),
            },
    {
        let mut i: usize = 0;
        while i < self.entries.len()
            invariant
                self.wf(),
                i <= self.entries@.len(),
                forall|j: int| 0 <= j < i ==> #[trigger] self.key(j) != name@,
            decreases self.entries.len() - i,
        {
            assert(self.key(i as int) == self.entries@[i as int].family@);
            if same_text(&self.entries[i].family, name) {
                proof {
                    self.lemma_entry(i as int);
                }
                return Some(i);
            }
            i = i + 1;
        }
        None
    }

    /// Puts a font under a family name, in place of the one that was there.
    fn put(&mut self, family: String, data: Arc<Vec<u8>>)
        requires
            old(self).filed(),
            family_name(data@) == Some(family@),
        ensures
            final(self).filed(),
            final(self).default_bytes() == old(self).default_bytes(),
            final(self).fonts() == old(self).fonts().insert(family@, data@),
    {
        let ghost before = *self;
        let mut i: usize = 0;
        while i < self.entries.len() && sorts_before(&self.entries[i].family, &family)
            invariant
                *self == before,
                i <= self.entries@.len(),
                forall|j: int| 0 <= j < i ==> text_less(#[trigger] self.key(j), family@),
            decreases self.entries.len() - i,
        {
            assert(self.key(i as int) == self.entries@[i as int].family@);
            i = i + 1;
        }
        assert(i < self.entries@.len() ==> self.key(i as int)
            == self.entries@[i as int].family@);
        let ghost name = family@;
        if i < self.entries.len() && same_text(&self.entries[i].family, &family) {
            self.entries.remove(i);
            self.entries.insert(i, FontEntry { family, data });
            proof {
                assert forall|j: int| 0 <= j < self.entries@.len() implies #[trigger] self.key(j)
                    == before.key(j) by {
                    assert(self.entries@[j].family@ == before.entries@[j].family@);
                }
                assert forall|j: int| 0 <= j < self.entries@.len() implies family_name(
                    (#[trigger] self.entries@[j]).data@,
                ) == Some(self.entries@[j].family@) by {
                    if j != i {
                        assert(self.entries@[j] == before.entries@[j]);
                    }
                }
                assert(self.filed());
                assert forall|k: Seq<char>|
                    self.fonts().contains_key(k) <==> before.fonts().insert(
                        name,
                        data@,
                    ).contains_key(k) by {
                    if self.fonts().contains_key(k) {
                        let j = choose|j: int|
                            0 <= j < self.entries@.len() && #[trigger] self.key(j) == k;
                        assert(before.key(j) == k);
                    }
                    if before.fonts().contains_key(k) {
                        let j = choose|j: int|
                            0 <= j < before.entries@.len() && #[trigger] before.key(j) == k;
                        assert(self.key(j) == k);
                    }
                    assert(self.key(i as int) == name);
                }
                assert forall|k: Seq<char>| self.fonts().contains_key(k) implies self.fonts()[k]
                    == before.fonts().insert(name, data@)[k] by {
                    let j = choose|j: int|
                        0 <= j < self.entries@.len() && #[trigger] self.key(j) == k;
                    self.lemma_entry(j);
                    before.lemma_entry(j);
                    if j != i {
                        assert(self.entries@[j] == before.entries@[j]);
                        lemma_less_irreflexive(k);
                        if j < i {
                            assert(text_less(self.key(j), self.key(i as int)));
                        } else {
                            assert(text_less(self.key(i as int), self.key(j)));
                        }
                    }
                }
                assert(self.fonts() =~= before.fonts().insert(name, data@));
            }
        } else {
            self.entries.insert(i, FontEntry { family, data });
            proof {
                before.lemma_inserted(*self, name, data@, i as int);
            }
        }
    }

    proof fn lemma_inserted(&self, after: FontRegistry, name: Seq<char>, data: Seq<u8>, i: int)
        requires
            self.filed(),
            family_name(data) == Some(name),
            0 <= i <= self.entries@.len(),
            after.default == self.default,
            after.entries@.len() == self.entries@.len() + 1,
            after.entries@[i].family@ == name,
            after.entries@[i].data@ == data,
            forall|j: int| 0 <= j < i ==> after.entries@[j] == self.entries@[j],
            forall|j: int| i < j < after.entries@.len() ==> after.entries@[j] == self.entries@[j - 1],
            forall|j: int| 0 <= j < i ==> text_less(#[trigger] self.key(j), name),
            i < self.entries@.len() ==> !text_less(self.key(i), name) && self.key(i) != name,
        ensures
            after.filed(),
            after.fonts() == self.fonts().insert(name, data),
            !self.fonts().contains_key(name),
    {
        assert forall|j: int| 0 <= j < after.entries@.len() implies #[trigger] after.key(j) == (if j
            < i {
            self.key(j)
        } else if j == i {
            name
        } else {
            self.key(j - 1)
        }) by {}
        assert forall|j: int| i <= j < self.entries@.len() implies text_less(
            name,
            #[trigger] self.key(j),
        ) by {
            lemma_less_total(self.key(i), name);
            if j > i {
                assert(text_less(self.key(i), self.key(j)));
                lemma_less_transitive(name, self.key(i), self.key(j));
            }
        }
        assert forall|a: int, b: int| 0 <= a < b < after.entries@.len() implies text_less(
            #[trigger] after.key(a),
            #[trigger] after.key(b),
        ) by {
            if b < i {
                assert(text_less(self.key(a), self.key(b)));
            } else if b == i {
                assert(text_less(self.key(a), name));
            } else if a < i {
                assert(text_less(self.key(a), self.key(b - 1)));
            } else if a == i {
                assert(text_less(name, self.key(b - 1)));
            } else {
                assert(text_less(self.key(a - 1), self.key(b - 1)));
            }
        }
        assert forall|j: int| 0 <= j < after.entries@.len() implies family_name(
            (#[trigger] after.entries@[j]).data@,
        ) == Some(after.entries@[j].family@) by {
            if j < i {
                assert(after.entries@[j] == self.entries@[j]);
            } else if j > i {
                assert(after.entries@[j] == self.entries@[j - 1]);
            }
        }
        assert(after.filed());
        assert forall|j: int| 0 <= j < self.entries@.len() implies #[trigger] self.key(j)
            != name by {
            lemma_less_irreflexive(name);
            if j < i {
                assert(text_less(self.key(j), name));
            } else {
                assert(text_less(name, self.key(j)));
            }
        }
        assert forall|k: Seq<char>| after.fonts().contains_key(k) <==> self.fonts().insert(
            name,
            data,
        ).contains_key(k) by {
            if after.fonts().contains_key(k) {
                let j = choose|j: int| 0 <= j < after.entries@.len() && #[trigger] after.key(j) == k;
                if j < i {
                    assert(self.key(j) == k);
                } else if j > i {
                    assert(self.key(j - 1) == k);
                }
            }
            if self.fonts().contains_key(k) {
                let j = choose|j: int| 0 <= j < self.entries@.len() && #[trigger] self.key(j) == k;
                if j < i {
                    assert(after.key(j) == k);
                } else {
                    assert(after.key(j + 1) == k);
                }
            }
            assert(after.key(i) == name);
        }
        assert forall|k: Seq<char>| after.fonts().contains_key(k) implies after.fonts()[k]
            == self.fonts().insert(name, data)[k] by {
            let j = choose|j: int| 0 <= j < after.entries@.len() && #[trigger] after.key(j) == k;
            after.lemma_entry(j);
            if j < i {
                assert(self.key(j) == k);
                self.lemma_entry(j);
            } else if j > i {
                assert(self.key(j - 1) == k);
                self.lemma_entry(j - 1);
            }
        }
        assert(after.fonts() =~= self.fonts().insert(name, data));
    }
}

/// The bytes of the bundled default font.
pub fn default_font_bytes(registry: &FontRegistry) -> (r: &Vec<u8>)
    ensures
        r@ == registry.default_bytes(),
{
    &registry.default
}

/// Registers a font file under the family that it reports, in place of the one
/// that was there. The family, or nothing where the file has none.
pub fn register_font_data(registry: &mut FontRegistry, bytes: Vec<u8>) -> (r: Option<String>)
    requires
        old(registry).wf(),
    ensures
        final(registry).wf(),
        final(registry).default_bytes() == old(registry).default_bytes(),
        match r {
            Some(family) => {
                &&& family_name(bytes@) == Some(family@)
                &&& final(registry).fonts() == old(registry).fonts().insert(family@, bytes@)
            },
            None => {
                &&& family_name(bytes@) is None
                &&& *final(registry) == *old(registry)
            },
        },
{
    match font_family_name(&bytes) {
        Some(family) => {
            registry.put(family.clone(), Arc::new(bytes));
            Some(family)
        },
        None => None,
    }
}

/// Whether `names` lists just the families of `fonts`.
pub open spec fn lists_all(fonts: Map<Seq<char>, Seq<u8>>, names: Seq<String>) -> bool {
    forall|name: Seq<char>| #[trigger]
        fonts.contains_key(name) <==> exists|i: int|
            0 <= i < names.len() && (#[trigger] names[i])@ == name
}

/// All the registered families, in order.
pub fn registered_families(registry: &FontRegistry) -> (r: Vec<String>)
    requires
        registry.wf(),
    ensures
        forall|i: int, j: int|
            0 <= i < j < r@.len() ==> text_less((#[trigger] r@[i])@, (#[trigger] r@[j])@),
        forall|name: Seq<char>| #[trigger]
            registry.fonts().contains_key(name) <==> exists|i: int|
                0 <= i < r@.len() && (#[trigger] r@[i])@ == name,
        lists_all(registry.fonts(), r@),
{
    let mut out: Vec<String> = Vec::new();
    let mut i: usize = 0;
    while i < registry.entries.len()
        invariant
            i <= registry.entries@.len(),
            out@.len() == i,
            forall|j: int| 0 <= j < i ==> (#[trigger] out@[j])@ == registry.key(j),
        decreases registry.entries.len() - i,
    {
        assert(registry.key(i as int) == registry.entries@[i as int].family@);
        out.push(registry.entries[i].family.clone());
        i = i + 1;
    }
    proof {
        assert forall|a: int, b: int| 0 <= a < b < out@.len() implies text_less(
            (#[trigger] out@[a])@,
            (#[trigger] out@[b])@,
        ) by {
            assert(text_less(registry.key(a), registry.key(b)));
        }
        assert forall|name: Seq<char>| #[trigger]
            registry.fonts().contains_key(name) <==> exists|i: int|
                0 <= i < out@.len() && (#[trigger] out@[i])@ == name by {
            if registry.fonts().contains_key(name) {
                let j = choose|j: int|
                    0 <= j < registry.entries@.len() && #[trigger] registry.key(j) == name;
                assert(out@[j]@ == name);
            }
            if exists|i: int| 0 <= i < out@.len() && (#[trigger] out@[i])@ == name {
                let j = choose|j: int| 0 <= j < out@.len() && (#[trigger] out@[j])@ == name;
                assert(registry.key(j) == name);
            }
        }
    }
    out
}

} // verus!
