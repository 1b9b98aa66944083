//! Export sizes, against the floating point computation.
use renamite::exports::clamp_export_size;

fn by_floats(artboard: (u32, u32)) -> (u32, u32) {
    let w = artboard.0.max(1) as f64;
    let h = artboard.1.max(1) as f64;
    let scale = (4096.0 / w).min(4096.0 / h).min(1.0);
    ((w * scale).round() as u32, (h * scale).round() as u32)
}

#[test]
fn small_artboards_keep_their_size() {
    assert_eq!(clamp_export_size((1920, 1080)), (1920, 1080));
    assert_eq!(clamp_export_size((4096, 4096)), (4096, 4096));
    assert_eq!(clamp_export_size((0, 0)), (1, 1));
    assert_eq!(clamp_export_size((0, 7)), (1, 7));
}

#[test]
fn large_artboards_are_scaled_down() {
    assert_eq!(clamp_export_size((8192, 4096)), (4096, 2048));
    assert_eq!(clamp_export_size((8192, 1)), (4096, 1));
    assert_eq!(clamp_export_size((100000, 1)), (4096, 0));
    assert_eq!(clamp_export_size((5000, 10000)), (2048, 4096));
    assert_eq!(clamp_export_size((u32::MAX, u32::MAX)), (4096, 4096));
}

#[test]
fn exports_keep_the_proportion_and_turn_with_the_artboard() {
    for (w, h) in [(8192u32, 3u32), (5000, 4097), (u32::MAX, 12345), (4096, 1), (100000, 1)] {
        let (a, b) = clamp_export_size((w, h));
        assert_eq!(clamp_export_size((h, w)), (b, a));
        assert!(a <= w && b <= h);
        let off = a as i128 * h as i128 - b as i128 * w as i128;
        assert!(2 * off.abs() <= w as i128 + h as i128);
    }
}

#[test]
fn sizes_agree_with_double_precision() {
    let mut seed: u64 = 0x9e37_79b9_7f4a_7c15;
    let mut i = 0;
    while i < 200_000 {
        seed ^= seed << 13;
        seed ^= seed >> 7;
        seed ^= seed << 17;
        let shift_w = (seed >> 50) % 21;
        let shift_h = (seed >> 56) % 21;
        let w = (seed as u32) >> shift_w;
        let h = ((seed >> 32) as u32) >> shift_h;
        assert_eq!(clamp_export_size((w, h)), by_floats((w, h)), "{w} x {h}");
        i += 1;
    }
}

#[test]
fn halves_agree_with_double_precision() {
    let mut q: u32 = 1;
    while q < 2000 {
        let mut k: u32 = 1;
        while k < 8192 {
            let artboard = (8192 * q, k * q);
            assert_eq!(clamp_export_size(artboard), by_floats(artboard), "{artboard:?}");
            k += 16;
        }
        q += 1;
    }
}
