use ilda_idtf::layout::{
    Color, ColorPalette, Coords2d, Coords2dIndexedColor, Coords2dTrueColor, Coords3d,
    Coords3dIndexedColor, Coords3dTrueColor, Format, Header, Name, Status,
};
use ilda_idtf::LayoutBuffer;

fn sample_header_bytes() -> [u8; 32] {
    [
        0x49, 0x4c, 0x44, 0x41, // "ILDA"
        0x00, 0x00, 0x00, // reserved
        0x04, // format
        b'c', b'u', b'b', b'e', 0x00, b'x', b'y', b'z', // data name
        b'a', b'c', b'm', b'e', b'c', b'o', b'r', b'p', // company name
        0x01, 0x02, // records
        0x00, 0x07, // data number
        0xff, 0xff, // total frames
        0x03, // projector
        0x00, // reserved
    ]
}

#[test]
fn sizes_are_the_sums_of_the_fields() {
    assert_eq!(Header::size(), 32);
    assert_eq!(Coords3dIndexedColor::size(), 8);
    assert_eq!(Coords2dIndexedColor::size(), 6);
    assert_eq!(ColorPalette::size(), 3);
    assert_eq!(Coords3dTrueColor::size(), 10);
    assert_eq!(Coords2dTrueColor::size(), 8);
}

#[test]
fn header_overlay_reads_every_field() {
    let header = Header::overlay(&sample_header_bytes()).unwrap();
    assert_eq!(
        header,
        Header {
            ilda: [0x49, 0x4c, 0x44, 0x41],
            reserved: [0, 0, 0],
            format: Format(4),
            data_name: Name([b'c', b'u', b'b', b'e', 0, b'x', b'y', b'z']),
            company_name: Name(*b"acmecorp"),
            num_records: 258,
            data_number: 7,
            color_or_total_frames: 65535,
            projector_number: 3,
            reserved2: 0,
        }
    );
    assert_eq!(header.ilda, Header::ILDA);
    assert!(header.has_magic());
}

#[test]
fn header_overlay_is_big_endian() {
    let mut bytes = sample_header_bytes();
    bytes[24] = 0x12;
    bytes[25] = 0x34;
    let header = Header::overlay(&bytes).unwrap();
    assert_eq!(header.num_records, 0x1234);
    assert_ne!(header.num_records, 0x3412);
}

#[test]
fn header_overlay_does_not_judge_contents() {
    let header = Header::overlay(&[0xaa; 32]).unwrap();
    assert!(!header.has_magic());
    assert_eq!(header.format, Format(0xaa));
    assert_eq!(header.num_records, 0xaaaa);
    assert_eq!(header.reserved, [0xaa, 0xaa, 0xaa]);
}

#[test]
fn has_magic_needs_all_four_letters() {
    for i in 0..4 {
        let mut bytes = sample_header_bytes();
        bytes[i] ^= 0x20;
        assert!(!Header::overlay(&bytes).unwrap().has_magic());
    }
}

#[test]
fn overlay_refuses_any_other_length() {
    assert_eq!(Header::overlay(&[0u8; 31]), None);
    assert_eq!(Header::overlay(&[0u8; 33]), None);
    assert_eq!(Header::overlay(&[]), None);
    assert_eq!(Coords3dIndexedColor::overlay(&[0u8; 7]), None);
    assert_eq!(Coords3dIndexedColor::overlay(&[0u8; 9]), None);
    assert_eq!(Coords2dIndexedColor::overlay(&[0u8; 5]), None);
    assert_eq!(Coords2dIndexedColor::overlay(&[0u8; 7]), None);
    assert_eq!(ColorPalette::overlay(&[0u8; 2]), None);
    assert_eq!(ColorPalette::overlay(&[0u8; 4]), None);
    assert_eq!(Coords3dTrueColor::overlay(&[0u8; 9]), None);
    assert_eq!(Coords3dTrueColor::overlay(&[0u8; 11]), None);
    assert_eq!(Coords2dTrueColor::overlay(&[0u8; 7]), None);
    assert_eq!(Coords2dTrueColor::overlay(&[0u8; 9]), None);
}

#[test]
fn coords_3d_indexed_color_overlay() {
    let record = Coords3dIndexedColor::overlay(&[0x00, 0x01, 0xff, 0xff, 0x80, 0x00, 0x40, 0x2a]);
    assert_eq!(
        record,
        Some(Coords3dIndexedColor {
            coords: Coords3d { x: 1, y: -1, z: -32768 },
            status: Status { bits: 0x40 },
            color_index: 42,
        })
    );
}

#[test]
fn coords_2d_indexed_color_overlay() {
    let record = Coords2dIndexedColor::overlay(&[0x7f, 0xff, 0xff, 0xfe, 0x80, 0xff]);
    assert_eq!(
        record,
        Some(Coords2dIndexedColor {
            coords: Coords2d { x: 32767, y: -2 },
            status: Status { bits: 0x80 },
            color_index: 255,
        })
    );
}

#[test]
fn color_palette_overlay() {
    assert_eq!(
        ColorPalette::overlay(&[1, 2, 3]),
        Some(ColorPalette { color: Color { red: 1, green: 2, blue: 3 } })
    );
}

#[test]
fn coords_3d_true_color_overlay() {
    let record =
        Coords3dTrueColor::overlay(&[0x01, 0x00, 0x00, 0x10, 0xfe, 0x0c, 0xc0, 10, 20, 30]);
    assert_eq!(
        record,
        Some(Coords3dTrueColor {
            coords: Coords3d { x: 256, y: 16, z: -500 },
            status: Status { bits: 0xc0 },
            color: Color { red: 10, green: 20, blue: 30 },
        })
    );
}

#[test]
fn coords_2d_true_color_overlay() {
    let record = Coords2dTrueColor::overlay(&[0x80, 0x01, 0x00, 0x00, 0x00, 255, 0, 128]);
    assert_eq!(
        record,
        Some(Coords2dTrueColor {
            coords: Coords2d { x: -32767, y: 0 },
            status: Status { bits: 0 },
            color: Color { red: 255, green: 0, blue: 128 },
        })
    );
}

#[test]
fn status_flags() {
    assert_eq!(Status::LAST_POINT, 0b1000_0000);
    assert_eq!(Status::BLANKING, 0b0100_0000);
    let none = Status { bits: 0 };
    assert!(!none.is_blanking());
    assert!(!none.is_last_point());
    let blank = Status { bits: 0b0100_0000 };
    assert!(blank.is_blanking());
    assert!(!blank.is_last_point());
    let last = Status { bits: 0b1000_0000 };
    assert!(!last.is_blanking());
    assert!(last.is_last_point());
    let both = Status { bits: 0b1100_0000 };
    assert!(both.is_blanking());
    assert!(both.is_last_point());
}

#[test]
fn status_ignores_reserved_bits() {
    let reserved = Status { bits: 0b0011_1111 };
    assert!(!reserved.is_blanking());
    assert!(!reserved.is_last_point());
    let all = Status { bits: 0xff };
    assert!(all.is_blanking());
    assert!(all.is_last_point());
    assert_eq!(all.bits, 0xff);
}

#[test]
fn status_contains_asks_for_every_flag() {
    let blank = Status { bits: Status::BLANKING };
    assert!(blank.contains(Status::BLANKING));
    assert!(!blank.contains(Status::LAST_POINT));
    assert!(!blank.contains(Status::BLANKING | Status::LAST_POINT));
    assert!(blank.contains(0));
    let both = Status { bits: Status::BLANKING | Status::LAST_POINT };
    assert!(both.contains(Status::BLANKING | Status::LAST_POINT));
}

#[test]
fn status_on_every_byte() {
    for bits in 0..=255u8 {
        let status = Status { bits };
        assert_eq!(status.is_blanking(), bits & 0x40 != 0);
        assert_eq!(status.is_last_point(), bits & 0x80 != 0);
    }
}

#[test]
fn format_codes() {
    assert_eq!(Format::COORDS_3D_INDEXED_COLOR, 0);
    assert_eq!(Format::COORDS_2D_INDEXED_COLOR, 1);
    assert_eq!(Format::COLOR_PALETTE, 2);
    assert_eq!(Format::COORDS_3D_TRUE_COLOR, 4);
    assert_eq!(Format::COORDS_2D_TRUE_COLOR, 5);
}

#[test]
fn format_record_sizes() {
    assert_eq!(Format(0).record_size(), Some(8));
    assert_eq!(Format(1).record_size(), Some(6));
    assert_eq!(Format(2).record_size(), Some(3));
    assert_eq!(Format(3).record_size(), None);
    assert_eq!(Format(4).record_size(), Some(10));
    assert_eq!(Format(5).record_size(), Some(8));
    for code in 6..=255u8 {
        assert_eq!(Format(code).record_size(), None);
    }
}

#[test]
fn name_ends_at_the_first_zero() {
    assert_eq!(Name(*b"ab\0cd\0ef").as_str(), Ok("ab"));
    assert_eq!(Name(*b"frame\0\0\0").as_str(), Ok("frame"));
    assert_eq!(Name([0; 8]).as_str(), Ok(""));
    assert_eq!(Name(*b"\0bcdefgh").as_str(), Ok(""));
}

#[test]
fn name_without_zero_is_eight_bytes_long() {
    assert_eq!(Name(*b"abcdefgh").as_str(), Ok("abcdefgh"));
    assert_eq!(Name(*b"abcdefg\0").as_str(), Ok("abcdefg"));
}

#[test]
fn name_may_be_utf8() {
    // "é" is 0xc3 0xa9.
    assert_eq!(Name([b'c', b'a', b'f', 0xc3, 0xa9, 0, 0, 0]).as_str(), Ok("café"));
}

#[test]
fn name_that_is_not_utf8_is_refused() {
    assert!(Name([0xff, b'a', 0, 0, 0, 0, 0, 0]).as_str().is_err());
    // A two-byte sequence cut in half by the zero byte.
    assert!(Name([b'a', 0xc3, 0, 0xa9, 0, 0, 0, 0]).as_str().is_err());
    // The bytes behind the zero byte do not count.
    assert_eq!(Name([b'a', 0, 0xff, 0xff, 0xff, 0xff, 0xff, 0xff]).as_str(), Ok("a"));
}

#[test]
fn name_to_string() {
    assert_eq!(Name(*b"ILDATEST").to_string(), "ILDATEST");
    assert_eq!(Name(*b"ab\0cd\0ef").to_string(), "ab");
    assert_eq!(Name([0; 8]).to_string(), "");
    assert_eq!(Name([0x80, 0, 0, 0, 0, 0, 0, 0]).to_string(), "[128, 0, 0, 0, 0, 0, 0, 0]");
    assert_eq!(Name([0xff, 0, 0, 0, 0, 0, 0, 0]).to_string(), "[255, 0, 0, 0, 0, 0, 0, 0]");
    assert_eq!(
        Name([b'a', 0xc3, 0, 0xa9, 7, 42, 100, 255]).to_string(),
        "[97, 195, 0, 169, 7, 42, 100, 255]"
    );
}

#[test]
fn name_debug_string() {
    assert_eq!(Name(*b"ILDATEST").debug_string(), "\"ILDATEST\"");
    assert_eq!(Name(*b"ab\0cd\0ef").debug_string(), "\"ab\"");
    assert_eq!(Name(*b"a\"b\n\0\0\0\0").debug_string(), "\"a\\\"b\\n\"");
    assert_eq!(Name([0; 8]).debug_string(), "\"\"");
}

#[test]
fn name_debug_string_dumps_what_is_not_text() {
    let bytes = [0xff, b'a', 0, 1, 10, 99, 100, 255];
    assert_eq!(Name(bytes).debug_string(), "[255, 97, 0, 1, 10, 99, 100, 255]");
    assert_eq!(Name(bytes).debug_string(), format!("{:?}", bytes));
}
