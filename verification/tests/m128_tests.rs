use safe_arch::m128;
use safe_arch::render::{numeral, render_debug, render_display, render_wrapped};

#[test]
fn test_m128_size_align() {
    assert_eq!(core::mem::size_of::<m128>(), 16);
    assert_eq!(core::mem::align_of::<m128>(), 16);
}

fn bits_of(a: [f32; 4]) -> [u32; 4] {
    [a[0].to_bits(), a[1].to_bits(), a[2].to_bits(), a[3].to_bits()]
}

#[test]
fn round_trip_is_bit_exact() {
    // A quiet NaN with a nonzero payload, a signaling-style NaN pattern,
    // negative zero, and a subnormal: patterns that a numeric conversion
    // path would not preserve.
    let patterns: [u32; 4] = [0x7FC0_0001, 0x7F80_0001, 0x8000_0000, 0x0000_0001];
    let m = m128::from_array(patterns);
    assert_eq!(m.to_array(), patterns);

    let infinities = bits_of([f32::INFINITY, f32::NEG_INFINITY, f32::MIN, f32::MAX]);
    assert_eq!(m128::from_array(infinities).to_array(), infinities);

    let ordinary = bits_of([1.0, -1.0, 0.5, 2.0]);
    assert_eq!(m128::from_array(ordinary).to_array(), ordinary);
}

#[test]
fn default_is_all_zero_bits() {
    let m = m128::default();
    assert_eq!(m.to_array(), [0u32, 0, 0, 0]);
    for lane in m.to_array() {
        assert_eq!(f32::from_bits(lane), 0.0f32);
        assert!(f32::from_bits(lane).is_sign_positive());
    }
}

#[test]
fn clone_is_independent() {
    let mut a = m128::from_array(bits_of([1.0, 2.0, 3.0, 4.0]));
    let b = a.clone();
    a.set_lane(0, 5.0f32.to_bits());
    a.set_lane(3, 6.0f32.to_bits());
    assert_eq!(b.to_array(), bits_of([1.0, 2.0, 3.0, 4.0]));
    assert_eq!(a.to_array(), bits_of([5.0, 2.0, 3.0, 6.0]));
}

#[test]
fn lane_reads_what_set_lane_wrote() {
    let mut m = m128::default();
    m.set_lane(2, 0xDEAD_BEEF);
    assert_eq!(m.lane(2), 0xDEAD_BEEF);
    assert_eq!(m.lane(0), 0);
    assert_eq!(m.lane(1), 0);
    assert_eq!(m.lane(3), 0);
}

#[test]
fn debug_rendering_of_default() {
    let lanes = m128::default().to_array();
    let parts: Vec<String> =
        lanes.iter().map(|b| format!("{:?}", f32::from_bits(*b))).collect();
    let s = render_debug(&parts[0], &parts[1], &parts[2], &parts[3]);
    assert_eq!(&s, "m128(0.0, 0.0, 0.0, 0.0)");
}

#[test]
fn display_rendering_of_default() {
    let lanes = m128::default().to_array();
    let parts: Vec<String> =
        lanes.iter().map(|b| format!("{}", f32::from_bits(*b))).collect();
    let s = render_display(&parts[0], &parts[1], &parts[2], &parts[3]);
    assert_eq!(&s, "(0, 0, 0, 0)");
}

#[test]
fn scientific_rendering_of_default() {
    let lanes = m128::default().to_array();
    let lower: Vec<String> =
        lanes.iter().map(|b| format!("{:e}", f32::from_bits(*b))).collect();
    let s = render_display(&lower[0], &lower[1], &lower[2], &lower[3]);
    assert_eq!(&s, "(0e0, 0e0, 0e0, 0e0)");

    let upper: Vec<String> =
        lanes.iter().map(|b| format!("{:E}", f32::from_bits(*b))).collect();
    let s = render_display(&upper[0], &upper[1], &upper[2], &upper[3]);
    assert_eq!(&s, "(0E0, 0E0, 0E0, 0E0)");
}

#[test]
fn pattern_renderings_show_bits_not_values() {
    let m = m128::from_array(bits_of([1.0, -1.0, 0.5, 2.0]));

    // Lane 1.0 has the pattern 0x3F80_0000; the renderings must show that
    // pattern, not the numeral of the numeric value 1.
    assert_eq!(&m.format_lower_hex(), "(3f800000, bf800000, 3f000000, 40000000)");
    assert_eq!(&m.format_upper_hex(), "(3F800000, BF800000, 3F000000, 40000000)");

    let b: [u32; 4] = bits_of([1.0, -1.0, 0.5, 2.0]);
    assert_eq!(
        m.format_binary(),
        format!("({:b}, {:b}, {:b}, {:b})", b[0], b[1], b[2], b[3])
    );
    assert_eq!(
        m.format_octal(),
        format!("({:o}, {:o}, {:o}, {:o})", b[0], b[1], b[2], b[3])
    );
    assert_ne!(&m.format_lower_hex(), "(1, -1, 0, 2)");
}

#[test]
fn zero_renders_as_zero_in_every_base() {
    let m = m128::default();
    assert_eq!(&m.format_binary(), "(0, 0, 0, 0)");
    assert_eq!(&m.format_lower_hex(), "(0, 0, 0, 0)");
    assert_eq!(&m.format_upper_hex(), "(0, 0, 0, 0)");
    assert_eq!(&m.format_octal(), "(0, 0, 0, 0)");
}

#[test]
fn numeral_matches_standard_rendering() {
    let samples: [u32; 8] = [
        0,
        1,
        7,
        8,
        255,
        0x3F80_0000,
        0xDEAD_BEEF,
        u32::MAX,
    ];
    for n in samples {
        assert_eq!(numeral(n, 2, false), format!("{:b}", n));
        assert_eq!(numeral(n, 8, false), format!("{:o}", n));
        assert_eq!(numeral(n, 16, false), format!("{:x}", n));
        assert_eq!(numeral(n, 16, true), format!("{:X}", n));
        assert_eq!(numeral(n, 10, false), format!("{}", n));
    }
    assert_eq!(&numeral(5, 2, false), "101");
    assert_eq!(&numeral(8, 8, false), "10");
    assert_eq!(&numeral(255, 16, false), "ff");
    assert_eq!(&numeral(255, 16, true), "FF");
}

#[test]
fn wrapped_template_is_exact() {
    let s = render_wrapped("name", "a", "b", "c", "d");
    assert_eq!(&s, "name(a, b, c, d)");
    let s = render_wrapped("", "", "", "", "");
    assert_eq!(&s, "(, , , )");
}
