//! Fonts and text layout, on a small font that is put together here.
use kurbo::{BezPath, Shape};
use renamite::faces::{is_countable, NameRecord};
use renamite::font::{
    default_font_bytes, font_family_name, pick_family, register_font_data, registered_families,
    FontRef, FontRegistry, TextAlign, TextError,
};
use renamite::text::{
    place_line, shape_layout, shape_layout_checked, shape_layout_from_bytes,
    shape_layout_from_bytes_checked, split_lines, Glyph,
};
use ttf_parser::{Face, GlyphId, OutlineBuilder};

const GLYPHS: u16 = 59;

fn be16(out: &mut Vec<u8>, v: i32) {
    out.extend_from_slice(&(v as u16).to_be_bytes());
}

fn be32(out: &mut Vec<u8>, v: u32) {
    out.extend_from_slice(&v.to_be_bytes());
}

fn head() -> Vec<u8> {
    let mut t = vec![0u8; 54];
    t[0..4].copy_from_slice(&0x0001_0000u32.to_be_bytes());
    t[18..20].copy_from_slice(&1000u16.to_be_bytes());
    t
}

fn hhea() -> Vec<u8> {
    let mut t = vec![0u8; 36];
    t[0..4].copy_from_slice(&0x0001_0000u32.to_be_bytes());
    t[4..6].copy_from_slice(&800i16.to_be_bytes());
    t[6..8].copy_from_slice(&(-200i16).to_be_bytes());
    t[8..10].copy_from_slice(&90i16.to_be_bytes());
    t[34..36].copy_from_slice(&GLYPHS.to_be_bytes());
    t
}

fn maxp() -> Vec<u8> {
    let mut t = vec![0u8; 32];
    t[0..4].copy_from_slice(&0x0001_0000u32.to_be_bytes());
    t[4..6].copy_from_slice(&GLYPHS.to_be_bytes());
    t
}

/// Glyph `n` is `500 + n` units wide.
fn hmtx() -> Vec<u8> {
    let mut t = Vec::new();
    for n in 0..GLYPHS {
        be16(&mut t, 500 + n as i32);
        be16(&mut t, 50);
    }
    t
}

/// The letters from `A` to `z` have the glyphs from 1 on.
fn cmap() -> Vec<u8> {
    let mut sub = Vec::new();
    be16(&mut sub, 4);
    be16(&mut sub, 32);
    be16(&mut sub, 0);
    be16(&mut sub, 4);
    be16(&mut sub, 4);
    be16(&mut sub, 1);
    be16(&mut sub, 0);
    be16(&mut sub, 'z' as i32);
    be16(&mut sub, 0xffff);
    be16(&mut sub, 0);
    be16(&mut sub, 'A' as i32);
    be16(&mut sub, 0xffff);
    be16(&mut sub, 1 - 'A' as i32);
    be16(&mut sub, 1);
    be16(&mut sub, 0);
    be16(&mut sub, 0);
    let mut t = Vec::new();
    be16(&mut t, 0);
    be16(&mut t, 1);
    be16(&mut t, 3);
    be16(&mut t, 1);
    be32(&mut t, 12);
    t.extend_from_slice(&sub);
    t
}

/// Every glyph is a rectangle.
fn glyph() -> Vec<u8> {
    let mut t = Vec::new();
    be16(&mut t, 1);
    be16(&mut t, 50);
    be16(&mut t, 0);
    be16(&mut t, 450);
    be16(&mut t, 700);
    be16(&mut t, 3);
    be16(&mut t, 0);
    t.extend_from_slice(&[1, 1, 1, 1]);
    for dx in [50, 0, 400, 0] {
        be16(&mut t, dx);
    }
    for dy in [0, 700, 0, -700] {
        be16(&mut t, dy);
    }
    t
}

fn glyf() -> Vec<u8> {
    let mut t = Vec::new();
    for _ in 0..GLYPHS {
        t.extend_from_slice(&glyph());
    }
    t
}

fn loca() -> Vec<u8> {
    let len = glyph().len();
    let mut t = Vec::new();
    for n in 0..=GLYPHS as usize {
        be16(&mut t, (n * len / 2) as i32);
    }
    t
}

fn name(records: &[(u16, &str)]) -> Vec<u8> {
    let mut storage = Vec::new();
    let mut t = Vec::new();
    be16(&mut t, 0);
    be16(&mut t, records.len() as i32);
    be16(&mut t, 6 + 12 * records.len() as i32);
    for (id, text) in records {
        let from = storage.len();
        for unit in text.encode_utf16() {
            be16(&mut storage, unit as i32);
        }
        be16(&mut t, 3);
        be16(&mut t, 1);
        be16(&mut t, 0x409);
        be16(&mut t, *id as i32);
        be16(&mut t, (storage.len() - from) as i32);
        be16(&mut t, from as i32);
    }
    t.extend_from_slice(&storage);
    t
}

fn font(names: &[(u16, &str)]) -> Vec<u8> {
    assembled(vec![
        (b"cmap", cmap()),
        (b"glyf", glyf()),
        (b"head", head()),
        (b"hhea", hhea()),
        (b"hmtx", hmtx()),
        (b"loca", loca()),
        (b"maxp", maxp()),
        (b"name", name(names)),
    ])
}

fn assembled(tables: Vec<(&[u8; 4], Vec<u8>)>) -> Vec<u8> {
    let mut out = Vec::new();
    be32(&mut out, 0x0001_0000);
    be16(&mut out, tables.len() as i32);
    be16(&mut out, 0);
    be16(&mut out, 0);
    be16(&mut out, 0);
    let mut at = 12 + 16 * tables.len();
    for (tag, data) in &tables {
        out.extend_from_slice(*tag);
        be32(&mut out, 0);
        be32(&mut out, at as u32);
        be32(&mut out, data.len() as u32);
        at += (data.len() + 3) / 4 * 4;
    }
    for (_, data) in &tables {
        out.extend_from_slice(data);
        while out.len() % 4 != 0 {
            out.push(0);
        }
    }
    out
}

fn default_font() -> Vec<u8> {
    font(&[(1, "Test Sans")])
}

fn registry() -> FontRegistry {
    FontRegistry::new(default_font()).expect("the default parses")
}

struct Sink {
    path: BezPath,
    scale: f64,
    dx: f64,
    dy: f64,
}

impl Sink {
    fn at(&self, x: f32, y: f32) -> (f64, f64) {
        (self.dx + x as f64 * self.scale, self.dy - y as f64 * self.scale)
    }
}

impl OutlineBuilder for Sink {
    fn move_to(&mut self, x: f32, y: f32) {
        let p = self.at(x, y);
        self.path.move_to(p);
    }
    fn line_to(&mut self, x: f32, y: f32) {
        let p = self.at(x, y);
        self.path.line_to(p);
    }
    fn quad_to(&mut self, x1: f32, y1: f32, x: f32, y: f32) {
        let (a, b) = (self.at(x1, y1), self.at(x, y));
        self.path.quad_to(a, b);
    }
    fn curve_to(&mut self, x1: f32, y1: f32, x2: f32, y2: f32, x: f32, y: f32) {
        let (a, b, c) = (self.at(x1, y1), self.at(x2, y2), self.at(x, y));
        self.path.curve_to(a, b, c);
    }
    fn close(&mut self) {
        self.path.close_path();
    }
}

/// Traces the outlines of a laid out text.
fn shape_text(font: &FontRef, text: &str, size: f64, align: TextAlign) -> BezPath {
    let layout = shape_layout(font, text, align);
    let face = Face::parse(font.data(), 0).expect("a font reference parses");
    let scale = size / layout.units_per_em as f64;
    let mut out = BezPath::new();
    for (n, line) in layout.lines.iter().enumerate() {
        let start = line.start_doubled as f64 / 2.0;
        for g in &line.glyphs {
            let mut sink = Sink {
                path: BezPath::new(),
                scale,
                dx: (start + g.offset as f64) * scale,
                dy: n as f64 * layout.line_height as f64 * scale,
            };
            let _ = face.outline_glyph(GlyphId(g.glyph.glyph), &mut sink);
            out.extend(sink.path);
        }
    }
    out
}

#[test]
fn nonempty_text_produces_outline() {
    let font = FontRef::default_font(&registry());
    let p = shape_text(&font, "Ab", 48.0, TextAlign::Left);
    assert!(!p.elements().is_empty());
    assert!(p.bounding_box().width() > 10.0);
}

#[test]
fn newline_advances_baseline_downward() {
    let font = FontRef::default_font(&registry());
    let one = shape_text(&font, "A", 48.0, TextAlign::Left).bounding_box();
    let two = shape_text(&font, "A\nA", 48.0, TextAlign::Left).bounding_box();
    assert!(two.height() > one.height() + 10.0);
}

#[test]
fn center_align_straddles_origin() {
    let font = FontRef::default_font(&registry());
    let bb = shape_text(&font, "WW", 48.0, TextAlign::Center).bounding_box();
    assert!(bb.x0 < 0.0 && bb.x1 > 0.0);
}

#[test]
fn shaping_is_deterministic() {
    let font = FontRef::default_font(&registry());
    let a = shape_text(&font, "Renamite", 32.0, TextAlign::Left);
    let b = shape_text(&font, "Renamite", 32.0, TextAlign::Left);
    assert_eq!(a.elements(), b.elements());
}

#[test]
fn bundled_font_reports_family_name() {
    let registry = registry();
    let name = font_family_name(default_font_bytes(&registry)).expect("bundled font has a name");
    assert!(!name.is_empty());
    assert!(registered_families(&registry).contains(&name));
}

#[test]
fn for_family_none_resolves_to_default() {
    let font = FontRef::for_family(&registry(), None);
    let p = shape_text(&font, "Ab", 48.0, TextAlign::Left);
    assert!(!p.elements().is_empty());
}

#[test]
fn for_family_unknown_falls_back_to_default() {
    let font = FontRef::for_family(&registry(), Some("Definitely Not A Font"));
    let p = shape_text(&font, "Ab", 48.0, TextAlign::Left);
    assert!(!p.elements().is_empty());
}

#[test]
fn register_font_data_keys_by_family_and_resolves() {
    let mut registry = registry();
    let name = register_font_data(&mut registry, default_font()).expect("valid font registers");
    assert_eq!(
        name,
        font_family_name(&default_font()).unwrap(),
        "register returns the same family the font reports"
    );
    assert!(registered_families(&registry).contains(&name));

    let by_name = FontRef::for_family(&registry, Some(&name));
    let by_default = FontRef::default_font(&registry);
    let a = shape_text(&by_name, "Renamite", 32.0, TextAlign::Left);
    let b = shape_text(&by_default, "Renamite", 32.0, TextAlign::Left);
    assert_eq!(
        a.elements(),
        b.elements(),
        "registry hit shapes identically to the default face"
    );
}

#[test]
fn register_invalid_bytes_returns_none() {
    let mut registry = registry();
    assert_eq!(register_font_data(&mut registry, b"not a font".to_vec()), None);
    assert_eq!(font_family_name(b"not a font"), None);
    assert_eq!(registered_families(&registry), vec!["Test Sans".to_string()]);
}

#[test]
fn bytes_that_do_not_parse_are_refused() {
    assert!(matches!(FontRef::parse(b"not a font"), Err(TextError::BadFont)));
    assert!(matches!(FontRegistry::new(Vec::new()), Err(TextError::BadFont)));
    assert!(matches!(
        shape_layout_from_bytes(b"", "A", TextAlign::Left),
        Err(TextError::BadFont)
    ));
    let font = FontRef::parse(&default_font()).ok().expect("the font parses");
    assert_eq!(font.data(), &default_font());
}

#[test]
fn typographic_family_goes_before_the_plain_one() {
    assert_eq!(
        font_family_name(&font(&[(1, "Plain"), (16, "Typographic")])),
        Some("Typographic".to_string())
    );
    assert_eq!(font_family_name(&font(&[(1, "Plain"), (1, "Later")])), Some("Plain".to_string()));
    assert_eq!(font_family_name(&font(&[(2, "Regular")])), None);
}

#[test]
fn families_without_text_are_passed_over() {
    let records = vec![
        NameRecord { name_id: 16, text: None },
        NameRecord { name_id: 1, text: None },
        NameRecord { name_id: 1, text: Some("Second".to_string()) },
    ];
    assert_eq!(pick_family(&records), Some("Second".to_string()));
    assert_eq!(pick_family(&Vec::new()), None);
}

#[test]
fn families_are_sorted_and_replaced() {
    let mut registry = registry();
    assert_eq!(
        register_font_data(&mut registry, font(&[(1, "Zeta")])),
        Some("Zeta".to_string())
    );
    assert_eq!(
        register_font_data(&mut registry, font(&[(1, "Alpha")])),
        Some("Alpha".to_string())
    );
    let again = font(&[(2, "Bold"), (1, "Alpha")]);
    register_font_data(&mut registry, again.clone());
    assert_eq!(
        registered_families(&registry),
        vec!["Alpha".to_string(), "Test Sans".to_string(), "Zeta".to_string()]
    );
    assert_eq!(FontRef::for_family(&registry, Some("Alpha")).data(), &again);
    assert_eq!(FontRef::for_family(&registry, Some("alpha")).data(), &default_font());
}

#[test]
fn a_default_without_family_is_not_registered() {
    let registry = FontRegistry::new(font(&[])).ok().expect("the font parses");
    assert!(registered_families(&registry).is_empty());
    assert_eq!(FontRef::for_family(&registry, None).data(), &font(&[]));
}

#[test]
fn layout_is_in_font_units() {
    let font = FontRef::default_font(&registry());
    let layout = shape_layout(&font, "AB\n?", TextAlign::Right);
    assert_eq!(layout.units_per_em, 1000);
    assert_eq!(layout.line_height, 1090);
    assert_eq!(layout.lines.len(), 2);
    assert_eq!(layout.lines[0].width, 501 + 502);
    assert_eq!(layout.lines[0].start_doubled, -2006);
    assert_eq!(layout.lines[0].glyphs[0].offset, 0);
    assert_eq!(layout.lines[0].glyphs[1].offset, 501);
    assert_eq!(layout.lines[0].glyphs[1].glyph, Glyph { glyph: 2, advance: 502 });
    // A character that the font lacks takes the first glyph.
    assert_eq!(layout.lines[1].glyphs[0].glyph, Glyph { glyph: 0, advance: 500 });
}

/// A font whose header has the descender `flat`, and whose metrics table stores the
/// typographic descender `typographic` and the Windows descent `windows`.
fn metrics_font(flat: i16, version: u16, selection: u16, typographic: i16, windows: u16) -> Vec<u8> {
    let mut header = hhea();
    header[6..8].copy_from_slice(&flat.to_be_bytes());
    let mut metrics = vec![0u8; 100];
    metrics[0..2].copy_from_slice(&version.to_be_bytes());
    metrics[62..64].copy_from_slice(&selection.to_be_bytes());
    metrics[70..72].copy_from_slice(&typographic.to_be_bytes());
    metrics[76..78].copy_from_slice(&windows.to_be_bytes());
    assembled(vec![
        (b"OS/2", metrics),
        (b"cmap", cmap()),
        (b"head", head()),
        (b"hhea", header),
        (b"hmtx", hmtx()),
        (b"maxp", maxp()),
    ])
}

#[test]
fn a_descent_that_cannot_be_negated_is_left_out() {
    let height = |data: Vec<u8>| {
        shape_layout_from_bytes_checked(&data, "A", TextAlign::Left)
            .expect("the font parses")
            .map(|layout| layout.line_height)
    };
    // Ascender 800 and, with a header descender of zero, no line gap.
    assert_eq!(height(metrics_font(0, 3, 0, 0, 300)), Some(1100));
    assert_eq!(height(metrics_font(0, 3, 0, 0, 0x7fff)), Some(800 + 0x7fff));
    assert_eq!(height(metrics_font(0, 3, 0, 0, 0x8000)), None);
    assert_eq!(height(metrics_font(-200, 3, 0, 0, 0x8000)), Some(1090));
    assert_eq!(height(metrics_font(0, 3, 0, -150, 0x8000)), Some(950));
    assert_eq!(height(metrics_font(0, 4, 0x80, 0, 0x8000)), Some(0));
    assert_eq!(height(metrics_font(0, 3, 0x80, 0, 0x8000)), None);

    let font = FontRef::parse(&metrics_font(0, 3, 0, 0, 0x8000)).ok().expect("the font parses");
    assert!(!font.can_shape());
    assert!(shape_layout_checked(&font, "A", TextAlign::Left).is_none());
    let font = FontRef::default_font(&registry());
    assert!(font.can_shape());
    assert_eq!(
        shape_layout_checked(&font, "A", TextAlign::Left).expect("it descends").line_height,
        1090
    );
    assert!(matches!(
        shape_layout_from_bytes_checked(b"", "A", TextAlign::Left),
        Err(TextError::BadFont)
    ));
}

fn map_font(format: u16, count_at: usize, count: u32) -> Vec<u8> {
    let mut map = vec![0u8, 0, 0, 1, 0, 0, 0, 3, 0, 0, 0, 12];
    let mut list = vec![0u8; 40];
    list[0..2].copy_from_slice(&format.to_be_bytes());
    list[count_at..count_at + 4].copy_from_slice(&count.to_be_bytes());
    map.extend_from_slice(&list);
    assembled(vec![
        (b"cmap", map),
        (b"head", head()),
        (b"hhea", hhea()),
        (b"hmtx", hmtx()),
        (b"maxp", maxp()),
    ])
}

#[test]
fn lists_that_cannot_be_counted_are_kept_from_the_parser() {
    for (format, at, size, start) in [(10, 16, 2, 20), (12, 12, 12, 16), (13, 12, 12, 16), (14, 6, 11, 10)] {
        let most: u64 = (0xffff_ffff - start) / size;
        let last = FontRef::parse(&map_font(format, at, most as u32)).ok().expect("it parses");
        assert!(last.can_shape(), "format {format}");
        assert!(shape_layout_checked(&last, "A", TextAlign::Left).is_some());
        let beyond = FontRef::parse(&map_font(format, at, most as u32 + 1)).ok().expect("it parses");
        assert!(!beyond.can_shape(), "format {format}");
        assert!(shape_layout_checked(&beyond, "A", TextAlign::Left).is_none());
    }
}

#[test]
fn files_that_cannot_be_counted_are_refused() {
    let mut faces = b"ttcf".to_vec();
    be32(&mut faces, 0);
    be32(&mut faces, 0xffff_ffff);
    assert!(!is_countable(&faces));
    assert!(matches!(FontRef::parse(&faces), Err(TextError::BadFont)));
    assert_eq!(font_family_name(&faces), None);

    let mut tables = Vec::new();
    be32(&mut tables, 0x0001_0000);
    be16(&mut tables, 0xffff);
    tables.resize(12 + 16 * 0xffff, 0);
    assert!(!is_countable(&tables));
    assert!(matches!(FontRef::parse(&tables), Err(TextError::BadFont)));
    tables[5] = 0xfe;
    assert!(is_countable(&tables));
    assert!(matches!(FontRef::parse(&tables), Err(TextError::BadFont)));
}

#[test]
fn collections_open_their_first_face() {
    let single = default_font();
    let mut data = b"ttcf".to_vec();
    be32(&mut data, 0x0001_0000);
    be32(&mut data, 1);
    be32(&mut data, 16);
    data.extend_from_slice(&single);
    // The offsets in the directory count from the start of the file.
    for n in 0..8 {
        let at = 16 + 12 + 16 * n + 8;
        let offset = u32::from_be_bytes([data[at], data[at + 1], data[at + 2], data[at + 3]]);
        data[at..at + 4].copy_from_slice(&(offset + 16).to_be_bytes());
    }
    assert_eq!(font_family_name(&data), Some("Test Sans".to_string()));
    assert!(Face::parse(&data, 0).is_ok());
}

#[test]
fn the_last_entry_of_a_table_counts() {
    let other = name(&[(1, "Other")]);
    let twice = assembled(vec![
        (b"head", head()),
        (b"hhea", hhea()),
        (b"maxp", maxp()),
        (b"name", name(&[(1, "First")])),
        (b"name", other),
    ]);
    assert_eq!(font_family_name(&twice), Some("Other".to_string()));
    let mut lost = twice.clone();
    // The second entry now points beyond the file.
    let at = 12 + 16 * 4 + 8;
    lost[at..at + 4].copy_from_slice(&0x00ff_ffffu32.to_be_bytes());
    assert_eq!(font_family_name(&lost), None);
    assert!(FontRef::parse(&lost).is_ok());
    for data in [&twice, &lost] {
        let face = Face::parse(data, 0).expect("it parses");
        assert_eq!(
            face.names().into_iter().find_map(|n| n.to_string()),
            font_family_name(data)
        );
    }
    let headless = assembled(vec![(b"hhea", hhea()), (b"maxp", maxp())]);
    assert!(Face::parse(&headless, 0).is_err());
    assert!(matches!(FontRef::parse(&headless), Err(TextError::BadFont)));
}

#[test]
fn fonts_are_filed_under_the_family_they_report() {
    let mut registry = registry();
    register_font_data(&mut registry, font(&[(1, "Zeta")]));
    register_font_data(&mut registry, font(&[(1, "Plain"), (16, "Typographic")]));
    for family in registered_families(&registry) {
        let font = FontRef::for_family(&registry, Some(&family));
        assert_eq!(font_family_name(font.data()), Some(family));
    }
    assert!(registered_families(&registry).contains(&"Test Sans".to_string()));
}

#[test]
fn lines_are_split_at_every_break() {
    assert_eq!(split_lines(""), vec![Vec::<char>::new()]);
    assert_eq!(split_lines("a\n\nb\n"), vec![vec!['a'], vec![], vec!['b'], vec![]]);
}

#[test]
fn a_line_starts_by_its_alignment() {
    let glyphs = vec![Glyph { glyph: 3, advance: 7 }, Glyph { glyph: 4, advance: 4 }];
    assert_eq!(place_line(&glyphs, TextAlign::Left).start_doubled, 0);
    assert_eq!(place_line(&glyphs, TextAlign::Center).start_doubled, -11);
    assert_eq!(place_line(&glyphs, TextAlign::Right).start_doubled, -22);
    assert_eq!(place_line(&glyphs, TextAlign::default()).glyphs[1].offset, 7);
}
