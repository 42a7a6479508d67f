use edid::cp437::forward;
use edid::cursor::Cursor;
use edid::descriptor::parse_descriptor;
use edid::header::{parse_display, parse_header};
use edid::text::{decode_text, is_space};
use edid::timing::parse_detailed_timing;
use edid::{parse_vendor, DetailedTiming, Descriptor, Display, ParseError};

fn pack_vendor(l: [char; 3]) -> u16 {
    let code = |c: char| (c as u16) - 64;
    (code(l[0]) << 10) | (code(l[1]) << 5) | code(l[2])
}

#[test]
fn vendor_known_codes() {
    assert_eq!(parse_vendor(0x4C2D), ['S', 'A', 'M']);
    assert_eq!(parse_vendor(0x4D10), ['S', 'H', 'P']);
    assert_eq!(parse_vendor(0x0421), ['A', 'A', 'A']);
    assert_eq!(parse_vendor(0x6B5A), ['Z', 'Z', 'Z']);
}

#[test]
fn vendor_round_trip_for_all_letters() {
    for a in 'A'..='Z' {
        for b in 'A'..='Z' {
            for c in 'A'..='Z' {
                assert_eq!(parse_vendor(pack_vendor([a, b, c])), [a, b, c]);
            }
        }
    }
}

fn timing_record(b: [u8; 18]) -> DetailedTiming {
    let mut c = Cursor::new(&b);
    let t = parse_detailed_timing(&mut c).unwrap();
    assert_eq!(c.remaining(), 0);
    t
}

#[test]
fn timing_fields_from_known_bytes() {
    let t = timing_record([
        0x21, 0x39, 0x90, 0x30, 0x62, 0x1A, 0x27, 0x40, 0x68, 0xB0, 0x36, 0x00, 0xDA, 0x28, 0x11,
        0x02, 0x03, 0x1C,
    ]);
    assert_eq!(t.pixel_clock, 146250);
    assert_eq!(t.horizontal_active_pixels, 1680);
    assert_eq!(t.horizontal_blanking_pixels, 560);
    assert_eq!(t.vertical_active_lines, 1050);
    assert_eq!(t.vertical_blanking_lines, 39);
    assert_eq!(t.horizontal_front_porch, 104);
    assert_eq!(t.horizontal_sync_width, 176);
    assert_eq!(t.vertical_front_porch, 3);
    assert_eq!(t.vertical_sync_width, 6);
    assert_eq!(t.horizontal_size, 474);
    assert_eq!(t.vertical_size, 296);
    assert_eq!(t.horizontal_border_pixels, 2);
    assert_eq!(t.vertical_border_pixels, 3);
    assert_eq!(t.features, 28);
}

#[test]
fn timing_largest_values() {
    let t = timing_record([0xFF; 18]);
    assert_eq!(t.pixel_clock, 655350);
    assert_eq!(t.horizontal_active_pixels, 4095);
    assert_eq!(t.horizontal_blanking_pixels, 4095);
    assert_eq!(t.vertical_active_lines, 4095);
    assert_eq!(t.vertical_blanking_lines, 4095);
    assert_eq!(t.horizontal_front_porch, 1023);
    assert_eq!(t.horizontal_sync_width, 1023);
    assert_eq!(t.vertical_front_porch, 783);
    assert_eq!(t.vertical_sync_width, 783);
    assert_eq!(t.horizontal_size, 4095);
    assert_eq!(t.vertical_size, 4095);
}

#[test]
fn timing_split_fields_for_all_byte_pairs() {
    for lo in 0..=255u8 {
        for hi in 0..=255u8 {
            let mut b = [0x01u8; 18];
            b[2] = lo;
            b[3] = lo;
            b[4] = hi;
            b[8] = lo;
            b[9] = lo;
            b[10] = lo;
            b[11] = hi;
            let t = timing_record(b);
            let (lo16, hi16) = (lo as u16, hi as u16);
            assert_eq!(t.horizontal_active_pixels, lo16 | ((hi16 >> 4) << 8));
            assert_eq!(t.horizontal_blanking_pixels, lo16 | ((hi16 & 0xF) << 8));
            assert_eq!(t.horizontal_front_porch, lo16 | ((hi16 >> 6) << 8));
            assert_eq!(t.horizontal_sync_width, lo16 | (((hi16 >> 4) & 0x3) << 8));
            assert_eq!(t.vertical_front_porch, (lo16 >> 4) | (((hi16 >> 2) & 0x3) << 8));
            assert_eq!(t.vertical_sync_width, (lo16 & 0xF) | ((hi16 & 0x3) << 8));
        }
    }
}

#[test]
fn timing_short_input_is_incomplete() {
    let b = [0x01u8; 17];
    let mut c = Cursor::new(&b);
    assert_eq!(parse_detailed_timing(&mut c), Err(ParseError::Incomplete));
}

fn slot(kind: u8, payload: &[u8; 13]) -> [u8; 18] {
    let mut s = [0u8; 18];
    s[3] = kind;
    s[5..].copy_from_slice(payload);
    s
}

fn descriptor(s: &[u8]) -> Result<Descriptor, ParseError> {
    let mut c = Cursor::new(s);
    parse_descriptor(&mut c)
}

#[test]
fn descriptor_kinds() {
    let p: [u8; 13] = [1, 2, 3, 4, 5, 6, 7, 8, 9, 10, 11, 12, 13];
    assert_eq!(descriptor(&slot(0xFD, &p)), Ok(Descriptor::RangeLimits(p)));
    assert_eq!(descriptor(&slot(0xFB, &p)), Ok(Descriptor::WhitePoint(p)));
    assert_eq!(descriptor(&slot(0xFA, &p)), Ok(Descriptor::StandardTiming(p)));
    assert_eq!(descriptor(&slot(0xF9, &p)), Ok(Descriptor::ColorManagement(p)));
    assert_eq!(descriptor(&slot(0xF8, &p)), Ok(Descriptor::TimingCodes(p)));
    assert_eq!(descriptor(&slot(0xF7, &p)), Ok(Descriptor::EstablishedTimings(p)));
    assert_eq!(descriptor(&slot(0x10, &p)), Ok(Descriptor::Dummy));
    assert_eq!(descriptor(&slot(0xF6, &p)), Ok(Descriptor::Unknown(p)));
    assert_eq!(descriptor(&slot(0x00, &p)), Ok(Descriptor::Unknown(p)));
}

#[test]
fn descriptor_text_kinds() {
    let p = *b"  Name \n 42\n ";
    assert_eq!(descriptor(&slot(0xFF, &p)), Ok(Descriptor::SerialNumber("Name  42".to_string())));
    assert_eq!(descriptor(&slot(0xFE, &p)), Ok(Descriptor::UnspecifiedText("Name  42".to_string())));
    assert_eq!(descriptor(&slot(0xFC, &p)), Ok(Descriptor::ProductName("Name  42".to_string())));
}

#[test]
fn descriptor_with_nonzero_start_is_timing() {
    let mut s = slot(0xFC, b"SyncMaster\n  ");
    s[1] = 0x01;
    match descriptor(&s) {
        Ok(Descriptor::DetailedTiming(t)) => assert_eq!(t.pixel_clock, 2560),
        other => panic!("{:?}", other),
    }
}

#[test]
fn descriptor_consumes_eighteen_bytes() {
    let mut b = slot(0x10, &[0; 13]).to_vec();
    b.extend_from_slice(&[5, 6]);
    let mut c = Cursor::new(&b);
    assert_eq!(parse_descriptor(&mut c), Ok(Descriptor::Dummy));
    assert_eq!(c.remaining(), 2);
}

#[test]
fn descriptor_short_input_is_incomplete() {
    assert_eq!(descriptor(&slot(0xFF, &[0x41; 13])[..17]), Err(ParseError::Incomplete));
    assert_eq!(descriptor(&[0x00]), Err(ParseError::Incomplete));
    assert_eq!(descriptor(&[]), Err(ParseError::Incomplete));
}

#[test]
fn text_drops_line_feeds_and_trims() {
    assert_eq!(decode_text(b"SyncMaster\n  "), "SyncMaster");
    assert_eq!(decode_text(b"\t A\nB \r"), "AB");
    assert_eq!(decode_text(b"             "), "");
    assert_eq!(decode_text(b""), "");
    assert_eq!(decode_text(&[0xFF, 0x41, 0xFF]), "A");
    assert_eq!(decode_text(&[0x80, 0x81, 0xE1]), "\u{00C7}\u{00FC}\u{00DF}");
}

#[test]
fn cp437_characters() {
    assert_eq!(forward(0x41), 'A');
    assert_eq!(forward(0x20), ' ');
    assert_eq!(forward(0x80), '\u{00C7}');
    assert_eq!(forward(0xB0), '\u{2591}');
    assert_eq!(forward(0xE3), '\u{03C0}');
    assert_eq!(forward(0xFF), '\u{00A0}');
}

#[test]
fn whitespace_set() {
    for c in [' ', '\t', '\r', '\u{000B}', '\u{000C}', '\u{0085}', '\u{00A0}', '\u{3000}'] {
        assert!(is_space(c));
        assert!(c.is_whitespace());
    }
    for c in ['A', '\u{00C7}', '\u{2591}', '_'] {
        assert!(!is_space(c));
    }
    for b in 0..=255u8 {
        let c = forward(b);
        assert_eq!(is_space(c), c.is_whitespace(), "byte {}", b);
    }
}

#[test]
fn cursor_reads() {
    let b = [0x34u8, 0x12, 0x78, 0x56, 0x34, 0x12, 0xAA];
    let mut c = Cursor::new(&b);
    assert_eq!(c.peek_u16_le(), Ok(0x1234));
    assert_eq!(c.read_u16_be(), Ok(0x3412));
    assert_eq!(c.read_u32_le(), Ok(0x12345678));
    assert_eq!(c.remaining(), 1);
    assert_eq!(c.read_u16_le(), Err(ParseError::Incomplete));
    assert_eq!(c.read_u32_le(), Err(ParseError::Incomplete));
    assert_eq!(c.read_u8(), Ok(0xAA));
    assert_eq!(c.read_u8(), Err(ParseError::Incomplete));
    assert_eq!(c.skip(1), Err(ParseError::Incomplete));
    assert_eq!(c.skip(0), Ok(()));
}

#[test]
fn cursor_take_and_skip() {
    let b = [1u8, 2, 3, 4, 5];
    let mut c = Cursor::new(&b);
    assert_eq!(c.skip(1), Ok(()));
    assert_eq!(c.take_array::<3>(), Ok([2, 3, 4]));
    assert_eq!(c.take_array::<2>(), Err(ParseError::Incomplete));
    assert_eq!(c.remaining(), 1);
}

#[test]
fn cursor_tag() {
    let b = [1u8, 2, 3];
    let mut c = Cursor::new(&b);
    assert_eq!(c.expect_tag(&[1, 2, 3, 4]), Err(ParseError::Incomplete));
    assert_eq!(c.expect_tag(&[1, 9]), Err(ParseError::MagicMismatch));
    assert_eq!(c.remaining(), 3);
    assert_eq!(c.expect_tag(&[1, 2]), Ok(()));
    assert_eq!(c.remaining(), 1);
}

#[test]
fn header_and_display_parts() {
    let b = [
        0x00, 0xFF, 0xFF, 0xFF, 0xFF, 0xFF, 0xFF, 0x00, 0x4C, 0x2D, 0x54, 0x02, 0x32, 0x32, 0x50,
        0x44, 0x1B, 0x11, 0x01, 0x03, 0x0E, 0x2F, 0x1E, 0x78, 0x2A,
    ];
    let mut c = Cursor::new(&b);
    let h = parse_header(&mut c).unwrap();
    assert_eq!(h.vendor, ['S', 'A', 'M']);
    assert_eq!(h.product, 596);
    assert_eq!(h.serial, 1146106418);
    assert_eq!((h.week, h.year, h.version, h.revision), (27, 17, 1, 3));
    assert_eq!(
        parse_display(&mut c),
        Ok(Display { video_input: 14, width: 47, height: 30, gamma: 120, features: 42 })
    );
    assert_eq!(c.remaining(), 0);
    let mut short = Cursor::new(&b[..19]);
    assert_eq!(parse_header(&mut short), Err(ParseError::Incomplete));
    let mut shorter = Cursor::new(&b[..20]);
    parse_header(&mut shorter).unwrap();
    assert_eq!(parse_display(&mut shorter), Err(ParseError::Incomplete));
}
