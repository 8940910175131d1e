//! An ILDA file consists of sections which either contain a frame or a color palette. Each
//! section consists of a fixed length header followed by a variable number of data records,
//! which are either frame points or color palette colors.
//!
//! Every type here is a byte-exact layout: its size is the sum of its fields, there is no
//! padding, and multi-byte fields are big-endian. [`LayoutBuffer::overlay`] turns a buffer of
//! exactly that size into the typed value and refuses any other buffer.

use crate::core_specs::{debug_str, spec_debug_str};
use crate::text::{dump, spec_dump};
use crate::wire::{be_i16, be_u16, spec_be_i16, spec_be_u16, verify_layout};
use core::str::Utf8Error;
use vstd::prelude::*;
use vstd::slice::slice_subrange;
use vstd::std_specs::cmp::PartialEqSpecImpl;
use vstd::string::StringSliceAdditionalSpecFns;
use vstd::utf8::{decode_utf8, encode_utf8_decode_utf8, valid_utf8};

verus! {

/// The endianness of bytes read from and written to the format.
pub type Endianness = byteorder::BigEndian;

/// The type and data format of the section is defined by the format code.
///
/// There are five different formats currently defined.
///
/// Format 3 was proposed within the ILDA Technical Committee but was never approved. Therefore,
/// format 3 is omitted in the ILDA standard.
///
/// Formats 0, 1, 4 and 5 define point data. Each point includes X and Y coordinates, and color
/// information. The 3D formats 0 and 4 also include Z (depth) information.
///
/// The indexed color formats 0 and 1 use a data format where each point has a Color Index
/// between 0 and 255 used as an index into a color palette. Format 2 specifies the color
/// palette for use with indexed color frames. The true color formats 4 and 5 use a red, green
/// and blue color component of 8 bits for each point. ILDA files may contain a mix of frames
/// with several different format codes.
#[derive(Copy, Clone, Debug, Eq, Hash, PartialEq)]
pub struct Format(pub u8);

#[derive(Copy, Clone, Debug, Eq, Hash, PartialEq)]
pub struct Name(pub [u8; 8]);

/// Describes the layout of a section of IDTF.
#[derive(Copy, Clone, Debug, Eq, Hash, PartialEq)]
pub struct Header {
    /// The ASCII letters ILDA, identifying an ILDA format header.
    pub ilda: [u8; 4],
    /// Reserved for future use. Must be zeroed.
    pub reserved: [u8; 3],
    /// One of the format codes defined in the Format Codes section.
    pub format: Format,
    /// Eight ASCII characters with the name of this frame or color palette. If a binary zero is
    /// encountered, than any characters following the zero SHALL be ignored.
    pub data_name: Name,
    /// Eight ASCII characters with the name of the company who created the frame. If a binary
    /// zero is encountered, than any characters following the zero SHALL be ignored.
    pub company_name: Name,
    /// Total number of data records (points or colors) that will follow this header expressed
    /// as an unsigned integer (0 – 65535). If the number of records is 0, then this is to be
    /// taken as the end of file header and no more data will follow this header. For color
    /// palettes, the number of records SHALL be between 2 and 256.
    pub num_records: u16,
    /// Frame or color palette number. If the frame is part of a group such as an animation
    /// sequence, this represents the frame number. Counting begins with frame 0. Range is 0 –
    /// 65534.
    pub data_number: u16,
    /// Total frames in this group or sequence. Range is 1 – 65535.
    ///
    /// For color palettes this SHALL be 0.
    pub color_or_total_frames: u16,
    /// The projector number that this frame is to be displayed on. Range is 0 – 255. For single
    /// projector files this SHOULD be set 0.
    pub projector_number: u8,
    /// Reserved for future use. Must be zeroed.
    pub reserved2: u8,
}

#[derive(Copy, Clone, Debug, Eq, Hash, PartialEq)]
pub struct Coords3d {
    /// left negative, right positive.
    pub x: i16,
    /// down negative, up positive.
    pub y: i16,
    /// far negative, near positive.
    pub z: i16,
}

#[derive(Copy, Clone, Debug, Eq, Hash, PartialEq)]
pub struct Coords2d {
    /// left negative, right positive.
    pub x: i16,
    /// down negative, up positive.
    pub y: i16,
}

/// The status byte of a point. Two of its bits carry meaning, [`Status::LAST_POINT`] and
/// [`Status::BLANKING`]; the others are reserved and are kept as they were read.
#[derive(Copy, Clone, Debug, Eq, Hash, PartialEq)]
pub struct Status {
    pub bits: u8,
}

#[derive(Copy, Clone, Debug, Eq, Hash, PartialEq)]
pub struct Color {
    pub red: u8,
    pub green: u8,
    pub blue: u8,
}

#[derive(Copy, Clone, Debug, Eq, Hash, PartialEq)]
pub struct Coords3dIndexedColor {
    pub coords: Coords3d,
    pub status: Status,
    pub color_index: u8,
}

#[derive(Copy, Clone, Debug, Eq, Hash, PartialEq)]
pub struct Coords2dIndexedColor {
    pub coords: Coords2d,
    pub status: Status,
    pub color_index: u8,
}

#[derive(Copy, Clone, Debug, Eq, Hash, PartialEq)]
pub struct ColorPalette {
    pub color: Color,
}

#[derive(Copy, Clone, Debug, Eq, Hash, PartialEq)]
pub struct Coords3dTrueColor {
    pub coords: Coords3d,
    pub status: Status,
    pub color: Color,
}

#[derive(Copy, Clone, Debug, Eq, Hash, PartialEq)]
pub struct Coords2dTrueColor {
    pub coords: Coords2d,
    pub status: Status,
    pub color: Color,
}

/// A layout of fixed size that a byte buffer can be read as.
pub trait LayoutBuffer: Sized {
    /// The exact number of bytes that one value occupies.
    spec fn spec_size() -> nat;

    /// The value that a buffer of `spec_size()` bytes holds, field by field.
    spec fn spec_overlay(bytes: Seq<u8>) -> Self;

    /// The exact number of bytes that one value occupies.
    fn size() -> (size: usize)
        ensures
            size == Self::spec_size(),
    ;

    /// Reads `bytes` as a value of this layout. The buffer is accepted exactly when its length
    /// is the size of the layout; its contents are never a reason to refuse it.
    fn overlay(bytes: &[u8]) -> (value: Option<Self>)
        ensures
            value is Some <==> bytes@.len() == Self::spec_size(),
            value matches Some(v) ==> v == Self::spec_overlay(bytes@),
    ;
}

/// A format code can be compared with one of the constants of [`Format`], which are plain
/// bytes: `format == Format::COLOR_PALETTE`.
impl PartialEq<u8> for Format {
    fn eq(&self, other: &u8) -> (equal: bool) {
        self.0 == *other
    }
}

impl PartialEqSpecImpl<u8> for Format {
    open spec fn obeys_eq_spec() -> bool {
        true
    }

    open spec fn eq_spec(&self, other: &u8) -> bool {
        self.0 == *other
    }
}

impl Format {
    pub const COORDS_3D_INDEXED_COLOR: u8 = 0;

    pub const COORDS_2D_INDEXED_COLOR: u8 = 1;

    pub const COLOR_PALETTE: u8 = 2;

    pub const COORDS_3D_TRUE_COLOR: u8 = 4;

    pub const COORDS_2D_TRUE_COLOR: u8 = 5;

    /// The size in bytes of one record of a section with this format code, for the five codes
    /// that are defined; `None` for every other code.
    pub open spec fn spec_record_size(self) -> Option<nat> {
        if self.0 == Format::COORDS_3D_INDEXED_COLOR {
            Some(Coords3dIndexedColor::spec_size())
        } else if self.0 == Format::COORDS_2D_INDEXED_COLOR {
            Some(Coords2dIndexedColor::spec_size())
        } else if self.0 == Format::COLOR_PALETTE {
            Some(ColorPalette::spec_size())
        } else if self.0 == Format::COORDS_3D_TRUE_COLOR {
            Some(Coords3dTrueColor::spec_size())
        } else if self.0 == Format::COORDS_2D_TRUE_COLOR {
            Some(Coords2dTrueColor::spec_size())
        } else {
            None
        }
    }

    /// The size in bytes of one record of a section with this format code, or `None` where the
    /// code is not one of the five that are defined.
    pub fn record_size(&self) -> (size: Option<usize>)
        ensures
            size is Some <==> self.spec_record_size() is Some,
            size matches Some(n) ==> self.spec_record_size() == Some(n as nat),
    {
        if self.0 == Format::COORDS_3D_INDEXED_COLOR {
            Some(Coords3dIndexedColor::size())
        } else if self.0 == Format::COORDS_2D_INDEXED_COLOR {
            Some(Coords2dIndexedColor::size())
        } else if self.0 == Format::COLOR_PALETTE {
            Some(ColorPalette::size())
        } else if self.0 == Format::COORDS_3D_TRUE_COLOR {
            Some(Coords3dTrueColor::size())
        } else if self.0 == Format::COORDS_2D_TRUE_COLOR {
            Some(Coords2dTrueColor::size())
        } else {
            None
        }
    }
}

/// The index of the first zero byte of `bytes` at or after `from`, or the length of `bytes`
/// where there is none.
pub open spec fn spec_nul_index(bytes: Seq<u8>, from: nat) -> nat
    decreases bytes.len() - from,
{
    if from >= bytes.len() {
        bytes.len()
    } else if bytes[from as int] == 0 {
        from
    } else {
        spec_nul_index(bytes, from + 1)
    }
}

/// `spec_nul_index` finds the first zero byte: every byte before the index it gives is not
/// zero, and the byte at that index is zero unless the index is the end of `bytes`.
pub proof fn lemma_nul_index(bytes: Seq<u8>, from: nat)
    requires
        from <= bytes.len(),
    ensures
        from <= spec_nul_index(bytes, from) <= bytes.len(),
        forall|i: int| from <= i < spec_nul_index(bytes, from) ==> bytes[i] != 0,
        spec_nul_index(bytes, from) < bytes.len() ==> bytes[spec_nul_index(bytes, from) as int]
            == 0,
    decreases bytes.len() - from,
{
    if from < bytes.len() && bytes[from as int] != 0 {
        lemma_nul_index(bytes, from + 1);
    }
}

impl Name {
    /// The number of bytes of text: those before the first zero byte, all eight where no byte
    /// is zero.
    pub open spec fn spec_len(self) -> nat {
        spec_nul_index(self.0@, 0)
    }

    /// The bytes of text: whatever follows the first zero byte is ignored.
    pub open spec fn spec_text(self) -> Seq<u8> {
        self.0@.take(self.spec_len() as int)
    }

    /// What [`Name::to_string`] shows: the text where it is valid UTF-8, a dump of all eight
    /// bytes, as they are, where it is not.
    pub open spec fn spec_display(self) -> Seq<char> {
        if valid_utf8(self.spec_text()) {
            decode_utf8(self.spec_text())
        } else {
            spec_dump(self.0@)
        }
    }

    /// What [`Name::debug_string`] shows: the text as `{:?}` shows a string where it is valid
    /// UTF-8, a dump of all eight bytes where it is not.
    pub open spec fn spec_debug(self) -> Seq<char> {
        if valid_utf8(self.spec_text()) {
            spec_debug_str(decode_utf8(self.spec_text()))
        } else {
            spec_dump(self.0@)
        }
    }

    /// Read the ascii bytes as a UTF8 str.
    ///
    /// The text ends before the first zero byte. It is returned exactly when it is valid
    /// UTF-8, and the string is then made of the very bytes of the text.
    pub fn as_str(&self) -> (text: Result<&str, Utf8Error>)
        ensures
            self.spec_len() <= 8,
            text is Ok <==> valid_utf8(self.spec_text()),
            text matches Ok(s) ==> s.spec_bytes() == self.spec_text() && s@ == decode_utf8(
                self.spec_text(),
            ),
    {
        proof {
            lemma_nul_index(self.0@, 0);
        }
        let mut len: usize = 0;
        while len < 8 && self.0[len] != 0
            invariant
                len <= 8,
                spec_nul_index(self.0@, 0) == spec_nul_index(self.0@, len as nat),
            decreases 8 - len,
        {
            len += 1;
        }
        let text = core::str::from_utf8(slice_subrange(self.0.as_slice(), 0, len));
        proof {
            if let Ok(s) = text {
                encode_utf8_decode_utf8(s@);
            }
        }
        text
    }

    /// The name as text, for display: the string that [`Name::as_str`] gives, or, where the
    /// bytes are not valid UTF-8, a dump of the eight bytes in which each can be read.
    pub fn to_string(&self) -> (shown: String)
        ensures
            shown@ == self.spec_display(),
    {
        match self.as_str() {
            Ok(s) => s.to_owned(),
            Err(_) => dump(self.0.as_slice()),
        }
    }

    /// The name as text, for inspection: the string that [`Name::as_str`] gives, shown as
    /// `{:?}` shows a string, or a dump of the eight bytes where they are not valid UTF-8.
    pub fn debug_string(&self) -> (shown: String)
        ensures
            shown@ == self.spec_debug(),
    {
        match self.as_str() {
            Ok(s) => debug_str(s),
            Err(_) => dump(self.0.as_slice()),
        }
    }
}

impl Status {
    /// This bit SHALL be set to 0 for all points except the last point of the image.
    pub const LAST_POINT: u8 = 0b1000_0000;

    /// If this is a 1, then the laser is off (blank). If this is a 0, then the laser is on
    /// (draw). Note that all systems SHALL write this bit, even if a particular system uses the
    /// color index for blanking/color information.
    ///
    /// When reading files, the blanking bit takes precedence over the color from the color
    /// palette or the points RGB values. If the blanking bit is set, all RGB values SHOULD be
    /// treated as zero.
    pub const BLANKING: u8 = 0b0100_0000;

    /// Whether every bit of `flags` is set in this status.
    pub open spec fn spec_contains(self, flags: u8) -> bool {
        self.bits & flags == flags
    }

    /// Whether bit 6, the blanking bit, is set.
    pub open spec fn spec_is_blanking(self) -> bool {
        (self.bits as int / 64) % 2 == 1
    }

    /// Whether bit 7, the last-point bit, is set.
    pub open spec fn spec_is_last_point(self) -> bool {
        self.bits >= 128
    }

    /// Whether every bit of `flags` is set in this status.
    pub fn contains(&self, flags: u8) -> (yes: bool)
        ensures
            yes == self.spec_contains(flags),
    {
        (self.bits & flags) == flags
    }

    pub fn is_blanking(&self) -> (yes: bool)
        ensures
            yes == self.spec_is_blanking(),
    {
        let bits = self.bits;
        assert((bits & 0b0100_0000 == 0b0100_0000) <==> (bits as int / 64) % 2 == 1)
            by (bit_vector);
        self.contains(Status::BLANKING)
    }

    pub fn is_last_point(&self) -> (yes: bool)
        ensures
            yes == self.spec_is_last_point(),
    {
        let bits = self.bits;
        assert((bits & 0b1000_0000 == 0b1000_0000) <==> bits >= 128) by (bit_vector);
        self.contains(Status::LAST_POINT)
    }
}

impl Header {
    pub const ILDA: [u8; 4] = [0x49, 0x4c, 0x44, 0x41];

    /// Whether the first four bytes are the ASCII letters "ILDA".
    pub open spec fn spec_has_magic(self) -> bool {
        &&& self.ilda[0] == 0x49
        &&& self.ilda[1] == 0x4c
        &&& self.ilda[2] == 0x44
        &&& self.ilda[3] == 0x41
    }

    /// Whether the first four bytes are the ASCII letters "ILDA".
    pub fn has_magic(&self) -> (yes: bool)
        ensures
            yes == self.spec_has_magic(),
    {
        self.ilda[0] == Header::ILDA[0] && self.ilda[1] == Header::ILDA[1] && self.ilda[2]
            == Header::ILDA[2] && self.ilda[3] == Header::ILDA[3]
    }
}

impl Coords3d {
    /// The coordinate held by the six bytes of `bytes` that start at `at`.
    pub open spec fn spec_at(bytes: Seq<u8>, at: int) -> Coords3d {
        Coords3d {
            x: spec_be_i16(bytes[at], bytes[at + 1]),
            y: spec_be_i16(bytes[at + 2], bytes[at + 3]),
            z: spec_be_i16(bytes[at + 4], bytes[at + 5]),
        }
    }
}

impl Coords2d {
    /// The coordinate held by the four bytes of `bytes` that start at `at`.
    pub open spec fn spec_at(bytes: Seq<u8>, at: int) -> Coords2d {
        Coords2d {
            x: spec_be_i16(bytes[at], bytes[at + 1]),
            y: spec_be_i16(bytes[at + 2], bytes[at + 3]),
        }
    }
}

impl Color {
    /// The color held by the three bytes of `bytes` that start at `at`.
    pub open spec fn spec_at(bytes: Seq<u8>, at: int) -> Color {
        Color { red: bytes[at], green: bytes[at + 1], blue: bytes[at + 2] }
    }
}

impl LayoutBuffer for Header {
    open spec fn spec_size() -> nat {
        32
    }

    open spec fn spec_overlay(bytes: Seq<u8>) -> Self {
        Header {
            ilda: [bytes[0], bytes[1], bytes[2], bytes[3]],
            reserved: [bytes[4], bytes[5], bytes[6]],
            format: Format(bytes[7]),
            data_name: Name(
                [
                    bytes[8],
                    bytes[9],
                    bytes[10],
                    bytes[11],
                    bytes[12],
                    bytes[13],
                    bytes[14],
                    bytes[15],
                ],
            ),
            company_name: Name(
                [
                    bytes[16],
                    bytes[17],
                    bytes[18],
                    bytes[19],
                    bytes[20],
                    bytes[21],
                    bytes[22],
                    bytes[23],
                ],
            ),
            num_records: spec_be_u16(bytes[24], bytes[25]),
            data_number: spec_be_u16(bytes[26], bytes[27]),
            color_or_total_frames: spec_be_u16(bytes[28], bytes[29]),
            projector_number: bytes[30],
            reserved2: bytes[31],
        }
    }

    fn size() -> (size: usize) {
        32
    }

    fn overlay(bytes: &[u8]) -> (value: Option<Self>) {
        match verify_layout::<32>(bytes) {
            Some(b) => Some(
                Header {
                    ilda: [b[0], b[1], b[2], b[3]],
                    reserved: [b[4], b[5], b[6]],
                    format: Format(b[7]),
                    data_name: Name([b[8], b[9], b[10], b[11], b[12], b[13], b[14], b[15]]),
                    company_name: Name(
                        [b[16], b[17], b[18], b[19], b[20], b[21], b[22], b[23]],
                    ),
                    num_records: be_u16([b[24], b[25]]),
                    data_number: be_u16([b[26], b[27]]),
                    color_or_total_frames: be_u16([b[28], b[29]]),
                    projector_number: b[30],
                    reserved2: b[31],
                },
            ),
            None => None,
        }
    }
}

impl LayoutBuffer for Coords3dIndexedColor {
    open spec fn spec_size() -> nat {
        8
    }

    open spec fn spec_overlay(bytes: Seq<u8>) -> Self {
        Coords3dIndexedColor {
            coords: Coords3d::spec_at(bytes, 0),
            status: Status { bits: bytes[6] },
            color_index: bytes[7],
        }
    }

    fn size() -> (size: usize) {
        8
    }

    fn overlay(bytes: &[u8]) -> (value: Option<Self>) {
        match verify_layout::<8>(bytes) {
            Some(b) => Some(
                Coords3dIndexedColor {
                    coords: Coords3d {
                        x: be_i16([b[0], b[1]]),
                        y: be_i16([b[2], b[3]]),
                        z: be_i16([b[4], b[5]]),
                    },
                    status: Status { bits: b[6] },
                    color_index: b[7],
                },
            ),
            None => None,
        }
    }
}

impl LayoutBuffer for Coords2dIndexedColor {
    open spec fn spec_size() -> nat {
        6
    }

    open spec fn spec_overlay(bytes: Seq<u8>) -> Self {
        Coords2dIndexedColor {
            coords: Coords2d::spec_at(bytes, 0),
            status: Status { bits: bytes[4] },
            color_index: bytes[5],
        }
    }

    fn size() -> (size: usize) {
        6
    }

    fn overlay(bytes: &[u8]) -> (value: Option<Self>) {
        match verify_layout::<6>(bytes) {
            Some(b) => Some(
                Coords2dIndexedColor {
                    coords: Coords2d { x: be_i16([b[0], b[1]]), y: be_i16([b[2], b[3]]) },
                    status: Status { bits: b[4] },
                    color_index: b[5],
                },
            ),
            None => None,
        }
    }
}

impl LayoutBuffer for ColorPalette {
    open spec fn spec_size() -> nat {
        3
    }

    open spec fn spec_overlay(bytes: Seq<u8>) -> Self {
        ColorPalette { color: Color::spec_at(bytes, 0) }
    }

    fn size() -> (size: usize) {
        3
    }

    fn overlay(bytes: &[u8]) -> (value: Option<Self>) {
        match verify_layout::<3>(bytes) {
            Some(b) => Some(ColorPalette { color: Color { red: b[0], green: b[1], blue: b[2] } }),
            None => None,
        }
    }
}

impl LayoutBuffer for Coords3dTrueColor {
    open spec fn spec_size() -> nat {
        10
    }

    open spec fn spec_overlay(bytes: Seq<u8>) -> Self {
        Coords3dTrueColor {
            coords: Coords3d::spec_at(bytes, 0),
            status: Status { bits: bytes[6] },
            color: Color::spec_at(bytes, 7),
        }
    }

    fn size() -> (size: usize) {
        10
    }

    fn overlay(bytes: &[u8]) -> (value: Option<Self>) {
        match verify_layout::<10>(bytes) {
            Some(b) => Some(
                Coords3dTrueColor {
                    coords: Coords3d {
                        x: be_i16([b[0], b[1]]),
                        y: be_i16([b[2], b[3]]),
                        z: be_i16([b[4], b[5]]),
                    },
                    status: Status { bits: b[6] },
                    color: Color { red: b[7], green: b[8], blue: b[9] },
                },
            ),
            None => None,
        }
    }
}

impl LayoutBuffer for Coords2dTrueColor {
    open spec fn spec_size() -> nat {
        8
    }

    open spec fn spec_overlay(bytes: Seq<u8>) -> Self {
        Coords2dTrueColor {
            coords: Coords2d::spec_at(bytes, 0),
            status: Status { bits: bytes[4] },
            color: Color::spec_at(bytes, 5),
        }
    }

    fn size() -> (size: usize) {
        8
    }

    fn overlay(bytes: &[u8]) -> (value: Option<Self>) {
        match verify_layout::<8>(bytes) {
            Some(b) => Some(
                Coords2dTrueColor {
                    coords: Coords2d { x: be_i16([b[0], b[1]]), y: be_i16([b[2], b[3]]) },
                    status: Status { bits: b[4] },
                    color: Color { red: b[5], green: b[6], blue: b[7] },
                },
            ),
            None => None,
        }
    }
}

} // verus!
