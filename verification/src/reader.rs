//! Readers of sections and of the records inside a section.

use crate::error::ReadError;
use crate::layout::{
    ColorPalette, Coords2dIndexedColor, Coords2dTrueColor, Coords3dIndexedColor,
    Coords3dTrueColor, Format, Header, LayoutBuffer,
};
use crate::source::{ByteSource, SourceState};
use crate::stream::{spec_frame_at, Frame};
use core::marker::PhantomData;
use vstd::prelude::*;
use vstd::std_specs::convert::FromSpecImpl;

verus! {

/// What asking a source in state `s` for the next record, as a `T`, gives: nothing where no
/// record is owed, else the record that the next `s.record_size` bytes hold, or the reason why
/// there is none.
pub open spec fn spec_read_record<T: LayoutBuffer>(s: SourceState) -> Result<Option<T>, ReadError> {
    if s.owed_records == 0 {
        Ok(None)
    } else if s.remaining() < s.record_size {
        Err(ReadError::TruncatedRecord)
    } else if s.record_size != T::spec_size() {
        Err(ReadError::LayoutMismatch)
    } else {
        Ok(Some(T::spec_overlay(s.next_record())))
    }
}

/// `value` as a `usize`, or the largest `usize` where it does not fit.
fn clamp(value: u128) -> (clamped: usize)
    ensures
        clamped == if value <= usize::MAX {
            value as nat
        } else {
            usize::MAX as nat
        },
{
    if value > usize::MAX as u128 {
        usize::MAX
    } else {
        value as usize
    }
}

/// Reads `len` consecutive subsections of type `T`.
pub struct SubsectionReader<'a, T: LayoutBuffer> {
    pub reader: &'a mut ByteSource,
    pub subsection_layout: PhantomData<T>,
}

impl<'a, T: LayoutBuffer> View for SubsectionReader<'a, T> {
    type V = SourceState;

    open spec fn view(&self) -> SourceState {
        self.reader@
    }
}

impl<'a, T: LayoutBuffer> SubsectionReader<'a, T> {
    /// The reader and its source agree on the size of a record: the records that the source
    /// keeps account of have the size of a `T`. Every reader that a [`SectionReader`] hands
    /// out fits, and reading keeps it so.
    pub open spec fn fits(&self) -> bool {
        self@.record_size == T::spec_size()
    }

    pub(crate) fn new(reader: &'a mut ByteSource, len: u16) -> (sub: Self)
        ensures
            sub@ == old(reader)@.owing(len as nat, T::spec_size()),
            sub.fits(),
            final(sub.reader)@ == final(reader)@,
    {
        reader.owe(len, T::size());
        SubsectionReader { reader, subsection_layout: PhantomData }
    }

    /// The number of remaining subsections expected.
    pub fn len(&self) -> (len: u16)
        ensures
            len == self@.owed_records,
            self@.wf(),
    {
        self.reader.owed_records()
    }

    /// Read the next subsection.
    ///
    /// Where no record is left, this is `Ok(None)` and nothing changes. Otherwise one record
    /// less is left, whatever comes of the read, and the bytes of one record are consumed; a
    /// source that ends before the record is complete is consumed to its end and reported as
    /// [`ReadError::TruncatedRecord`].
    ///
    /// For a reader that fits, this means: where a record is left and the source holds as
    /// many bytes as a `T` takes, the record is what these bytes hold, exactly these bytes
    /// are consumed, and one record less is left.
    pub fn read_next(&mut self) -> (record: Result<Option<T>, ReadError>)
        ensures
            final(final(self).reader)@ == final(old(self).reader)@,
            old(self)@.wf(),
            final(self)@ == old(self)@.after_read(),
            final(self).fits() == old(self).fits(),
            record == spec_read_record::<T>(old(self)@),
            old(self).fits() && old(self)@.owed_records > 0 && T::spec_size() <= old(
                self
            )@.remaining() ==> {
                &&& record == Ok::<Option<T>, ReadError>(
                    Some(
                        T::spec_overlay(
                            old(self)@.bytes.subrange(
                                old(self)@.pos as int,
                                (old(self)@.pos + T::spec_size()) as int,
                            ),
                        ),
                    ),
                )
                &&& final(self)@.pos == old(self)@.pos + T::spec_size()
                &&& final(self)@.owed_records == old(self)@.owed_records - 1
            },
            old(self).fits() ==> !(record matches Err(ReadError::LayoutMismatch)),
    {
        if self.reader.owed_records() == 0 {
            return Ok(None);
        }
        self.reader.settle_record();
        let size = self.reader.record_size();
        let record = match self.reader.peek(size) {
            None => {
                self.reader.exhaust();
                return Err(ReadError::TruncatedRecord);
            },
            Some(bytes) => T::overlay(bytes),
        };
        self.reader.advance(size);
        match record {
            Some(record) => Ok(Some(record)),
            None => Err(ReadError::LayoutMismatch),
        }
    }

    /// Gives the reader up and says what became of the records that were left: the source is
    /// moved past them, to where the next header starts, and where it ends before that it is
    /// consumed to its end and [`ReadError::TruncatedRecord`] is reported.
    ///
    /// A reader that is simply dropped is settled in the same way by whoever uses the source
    /// next, only that nobody is told of a truncation then.
    pub fn discard(self) -> (outcome: Result<(), ReadError>)
        ensures
            final(self.reader)@ == self@.released(),
            self@.wf(),
            outcome == if self@.owed() <= self@.remaining() {
                Ok::<(), ReadError>(())
            } else {
                Err(ReadError::TruncatedRecord)
            },
    {
        if self.reader.release() {
            Ok(())
        } else {
            Err(ReadError::TruncatedRecord)
        }
    }
}

pub type Coords3dIndexedColorReader<'a> = SubsectionReader<'a, Coords3dIndexedColor>;

pub type Coords2dIndexedColorReader<'a> = SubsectionReader<'a, Coords2dIndexedColor>;

pub type ColorPaletteReader<'a> = SubsectionReader<'a, ColorPalette>;

pub type Coords3dTrueColorReader<'a> = SubsectionReader<'a, Coords3dTrueColor>;

pub type Coords2dTrueColorReader<'a> = SubsectionReader<'a, Coords2dTrueColor>;

/// The subsection reader kind determined via the header's `format` field.
pub enum SubsectionReaderKind<'a> {
    Coords3dIndexedColor(Coords3dIndexedColorReader<'a>),
    Coords2dIndexedColor(Coords2dIndexedColorReader<'a>),
    ColorPalette(ColorPaletteReader<'a>),
    Coords3dTrueColor(Coords3dTrueColorReader<'a>),
    Coords2dTrueColor(Coords2dTrueColorReader<'a>),
}

impl<'a> View for SubsectionReaderKind<'a> {
    type V = SourceState;

    open spec fn view(&self) -> SourceState {
        match self {
            SubsectionReaderKind::Coords3dIndexedColor(r) => r@,
            SubsectionReaderKind::Coords2dIndexedColor(r) => r@,
            SubsectionReaderKind::ColorPalette(r) => r@,
            SubsectionReaderKind::Coords3dTrueColor(r) => r@,
            SubsectionReaderKind::Coords2dTrueColor(r) => r@,
        }
    }
}

impl<'a> SubsectionReaderKind<'a> {
    /// The reader of this kind fits its source, as [`SubsectionReader::fits`] says.
    pub open spec fn fits(&self) -> bool {
        match self {
            SubsectionReaderKind::Coords3dIndexedColor(r) => r.fits(),
            SubsectionReaderKind::Coords2dIndexedColor(r) => r.fits(),
            SubsectionReaderKind::ColorPalette(r) => r.fits(),
            SubsectionReaderKind::Coords3dTrueColor(r) => r.fits(),
            SubsectionReaderKind::Coords2dTrueColor(r) => r.fits(),
        }
    }

    /// The format code that stands for this kind of reader.
    pub open spec fn spec_format(&self) -> Format {
        match self {
            SubsectionReaderKind::Coords3dIndexedColor(_) => Format(
                Format::COORDS_3D_INDEXED_COLOR,
            ),
            SubsectionReaderKind::Coords2dIndexedColor(_) => Format(
                Format::COORDS_2D_INDEXED_COLOR,
            ),
            SubsectionReaderKind::ColorPalette(_) => Format(Format::COLOR_PALETTE),
            SubsectionReaderKind::Coords3dTrueColor(_) => Format(Format::COORDS_3D_TRUE_COLOR),
            SubsectionReaderKind::Coords2dTrueColor(_) => Format(Format::COORDS_2D_TRUE_COLOR),
        }
    }
}

impl<'a> From<Coords3dIndexedColorReader<'a>> for SubsectionReaderKind<'a> {
    fn from(r: Coords3dIndexedColorReader<'a>) -> (kind: Self) {
        Self::Coords3dIndexedColor(r)
    }
}

impl<'a> FromSpecImpl<Coords3dIndexedColorReader<'a>> for SubsectionReaderKind<'a> {
    open spec fn obeys_from_spec() -> bool {
        true
    }

    open spec fn from_spec(r: Coords3dIndexedColorReader<'a>) -> Self {
        SubsectionReaderKind::Coords3dIndexedColor(r)
    }
}

impl<'a> From<Coords2dIndexedColorReader<'a>> for SubsectionReaderKind<'a> {
    fn from(r: Coords2dIndexedColorReader<'a>) -> (kind: Self) {
        Self::Coords2dIndexedColor(r)
    }
}

impl<'a> FromSpecImpl<Coords2dIndexedColorReader<'a>> for SubsectionReaderKind<'a> {
    open spec fn obeys_from_spec() -> bool {
        true
    }

    open spec fn from_spec(r: Coords2dIndexedColorReader<'a>) -> Self {
        SubsectionReaderKind::Coords2dIndexedColor(r)
    }
}

impl<'a> From<ColorPaletteReader<'a>> for SubsectionReaderKind<'a> {
    fn from(r: ColorPaletteReader<'a>) -> (kind: Self) {
        Self::ColorPalette(r)
    }
}

impl<'a> FromSpecImpl<ColorPaletteReader<'a>> for SubsectionReaderKind<'a> {
    open spec fn obeys_from_spec() -> bool {
        true
    }

    open spec fn from_spec(r: ColorPaletteReader<'a>) -> Self {
        SubsectionReaderKind::ColorPalette(r)
    }
}

impl<'a> From<Coords3dTrueColorReader<'a>> for SubsectionReaderKind<'a> {
    fn from(r: Coords3dTrueColorReader<'a>) -> (kind: Self) {
        Self::Coords3dTrueColor(r)
    }
}

impl<'a> FromSpecImpl<Coords3dTrueColorReader<'a>> for SubsectionReaderKind<'a> {
    open spec fn obeys_from_spec() -> bool {
        true
    }

    open spec fn from_spec(r: Coords3dTrueColorReader<'a>) -> Self {
        SubsectionReaderKind::Coords3dTrueColor(r)
    }
}

impl<'a> From<Coords2dTrueColorReader<'a>> for SubsectionReaderKind<'a> {
    fn from(r: Coords2dTrueColorReader<'a>) -> (kind: Self) {
        Self::Coords2dTrueColor(r)
    }
}

impl<'a> FromSpecImpl<Coords2dTrueColorReader<'a>> for SubsectionReaderKind<'a> {
    open spec fn obeys_from_spec() -> bool {
        true
    }

    open spec fn from_spec(r: Coords2dTrueColorReader<'a>) -> Self {
        SubsectionReaderKind::Coords2dTrueColor(r)
    }
}

/// Contains a verified **Header** and a reader for the section contents.
pub struct Section<'a> {
    pub header: Header,
    pub reader: SubsectionReaderKind<'a>,
}

/// Reads a sequence of frames of ILDA IDTF from a stream of bytes.
///
/// Reads `Section`s.
pub struct SectionReader {
    reader: ByteSource,
}

impl View for SectionReader {
    type V = SourceState;

    closed spec fn view(&self) -> SourceState {
        self.reader@
    }
}

impl SectionReader {
    /// Read ILDA IDTF sections from the given bytes.
    pub fn new(bytes: Vec<u8>) -> (reader: Self)
        ensures
            reader@ == (SourceState { bytes: bytes@, pos: 0, owed_records: 0, record_size: 0 }),
    {
        SectionReader { reader: ByteSource::new(bytes) }
    }

    /// The number of bytes consumed so far: the offset at which the next section is looked
    /// for. What a record reader left unread when it was dropped counts as consumed from the
    /// moment of the drop.
    pub fn position(&self) -> (pos: usize)
        ensures
            pos == self@.next_section_start(),
            self@.wf(),
    {
        self.reader.next_section_start()
    }

    /// How many bytes a source in state `s` lacks before the next section can be read from it
    /// without regard to what may come behind the bytes it holds: first the bytes up to the
    /// end of the next header, and, once the header is there and opens a section, the bytes up
    /// to the end of its last record. Nothing is lacking where the header is there and is
    /// refused.
    pub open spec fn spec_shortfall(s: SourceState) -> nat {
        let start = s.pos + s.owed();
        let held = s.bytes.len();
        if start + Header::spec_size() > held {
            (start + Header::spec_size() - held) as nat
        } else {
            match spec_frame_at(s.bytes, start) {
                Frame::Section(header) => {
                    let end = start + Header::spec_size() + header.num_records as nat
                        * header.format.spec_record_size()->0;
                    if end > held {
                        (end - held) as nat
                    } else {
                        0
                    }
                },
                _ => 0,
            }
        }
    }

    /// How many bytes are lacking before the next section can be read, as
    /// [`SectionReader::spec_shortfall`] says; the largest `usize` where the number does not
    /// fit.
    ///
    /// A reader over a stream that arrives piece by piece is driven with this: as long as
    /// bytes are lacking and the stream has not ended, read that many and hand them to
    /// [`SectionReader::feed`]; then call [`SectionReader::read_next`].
    pub fn shortfall(&self) -> (missing: usize)
        ensures
            self@.wf(),
            missing == if Self::spec_shortfall(self@) <= usize::MAX {
                Self::spec_shortfall(self@)
            } else {
                usize::MAX as nat
            },
    {
        let left: u128 = self.reader.remaining() as u128;
        let count: u128 = self.reader.owed_records() as u128;
        let size: u128 = self.reader.record_size() as u128;
        assert(count * size <= 0xffff * 0xffff_ffff_ffff_ffff) by (nonlinear_arith)
            requires
                0 <= count <= 0xffff,
                0 <= size <= 0xffff_ffff_ffff_ffff,
        ;
        let owed: u128 = count * size;
        let header_size: u128 = 32;
        if owed + header_size > left {
            return clamp(owed + header_size - left);
        }
        let header = match self.reader.window(owed as usize, Header::size()) {
            Some(bytes) => Header::overlay(bytes),
            None => None,
        };
        let header = match header {
            Some(header) => header,
            None => {
                return 0;
            },
        };
        if !header.has_magic() {
            return 0;
        }
        match header.format.record_size() {
            None => 0,
            Some(record) => {
                let records: u128 = header.num_records as u128;
                let record: u128 = record as u128;
                assert(records * record <= 0xffff * 32) by (nonlinear_arith)
                    requires
                        0 <= records <= 0xffff,
                        0 <= record <= 32,
                ;
                let whole: u128 = header_size + records * record;
                let there: u128 = left - owed;
                if whole > there {
                    clamp(whole - there)
                } else {
                    0
                }
            },
        }
    }

    /// Puts `more` behind the bytes that the reader holds: the next piece of a stream that
    /// arrives piece by piece. Nothing is consumed and nothing is decided by this.
    pub fn feed(&mut self, more: &[u8])
        ensures
            final(self)@ == old(self)@.fed(more@),
    {
        self.reader.feed(more);
    }

    /// Forgets what has been consumed: gives up the section in progress and drops every byte
    /// before the place where the next section is looked for. That place is offset zero
    /// afterwards.
    pub fn compact(&mut self)
        ensures
            final(self)@ == old(self)@.released().compacted(),
            old(self)@.wf(),
    {
        self.reader.release();
        self.reader.compact();
    }

    /// The state in which [`SectionReader::read_next`] leaves the source of a reader that was
    /// in state `s`, before any record of the section it gives is read.
    pub open spec fn spec_after_header(s: SourceState) -> SourceState {
        match spec_frame_at(s.bytes, s.next_section_start()) {
            Frame::End => s.released(),
            Frame::TruncatedHeader => s.released().exhausted(),
            Frame::InvalidMagic => s.released().advanced(Header::spec_size()),
            Frame::UnknownFormat(_) => s.released().advanced(Header::spec_size()),
            Frame::Section(header) => s.released().advanced(Header::spec_size()).owing(
                header.num_records as nat,
                header.format.spec_record_size()->0,
            ),
        }
    }

    /// Begin reading the next **Section**.
    ///
    /// A successfully read **Section** contains a verified **Header** and a reader for the
    /// section contents.
    ///
    /// Whatever the section read before still has a claim to is passed over first. `Ok(None)`
    /// is returned where the stream ends exactly there. A stream that ends inside the header
    /// is an error, as is a header without the letters "ILDA" or with a format code that is
    /// not defined; after the latter two the header has been consumed and nothing more.
    pub fn read_next(&mut self) -> (result: Result<Option<Section<'_>>, ReadError>)
        ensures
            old(self)@.wf(),
            match spec_frame_at(old(self)@.bytes, old(self)@.next_section_start()) {
                Frame::End => result matches Ok(None),
                Frame::TruncatedHeader => result matches Err(ReadError::TruncatedHeader),
                Frame::InvalidMagic => result matches Err(ReadError::InvalidMagic),
                Frame::UnknownFormat(code) => result matches Err(ReadError::UnknownFormat(c))
                    && c == code,
                Frame::Section(header) => {
                    &&& result matches Ok(Some(section))
                    &&& section.header == header
                    &&& section.reader.spec_format() == header.format
                    &&& section.reader.fits()
                    &&& section.reader@ == Self::spec_after_header(old(self)@)
                },
            },
            !(result matches Ok(Some(_))) ==> final(self)@ == Self::spec_after_header(
                old(self)@,
            ),
            result matches Ok(Some(section)) ==> match section.reader {
                SubsectionReaderKind::Coords3dIndexedColor(r) => final(self)@ == final(r.reader)@,
                SubsectionReaderKind::Coords2dIndexedColor(r) => final(self)@ == final(r.reader)@,
                SubsectionReaderKind::ColorPalette(r) => final(self)@ == final(r.reader)@,
                SubsectionReaderKind::Coords3dTrueColor(r) => final(self)@ == final(r.reader)@,
                SubsectionReaderKind::Coords2dTrueColor(r) => final(self)@ == final(r.reader)@,
            },
    {
        self.reader.release();
        let header = match self.reader.peek(Header::size()) {
            None => {
                if self.reader.remaining() == 0 {
                    return Ok(None);
                }
                self.reader.exhaust();
                return Err(ReadError::TruncatedHeader);
            },
            Some(bytes) => Header::overlay(bytes),
        };
        self.reader.advance(Header::size());
        let header = match header {
            Some(header) => header,
            None => {
                return Err(ReadError::LayoutMismatch);
            },
        };
        if !header.has_magic() {
            return Err(ReadError::InvalidMagic);
        }
        let len = header.num_records;
        let format = header.format;
        let reader: SubsectionReaderKind<'_> = if format == Format::COORDS_3D_INDEXED_COLOR {
            Coords3dIndexedColorReader::new(&mut self.reader, len).into()
        } else if format == Format::COORDS_2D_INDEXED_COLOR {
            Coords2dIndexedColorReader::new(&mut self.reader, len).into()
        } else if format == Format::COLOR_PALETTE {
            ColorPaletteReader::new(&mut self.reader, len).into()
        } else if format == Format::COORDS_3D_TRUE_COLOR {
            Coords3dTrueColorReader::new(&mut self.reader, len).into()
        } else if format == Format::COORDS_2D_TRUE_COLOR {
            Coords2dTrueColorReader::new(&mut self.reader, len).into()
        } else {
            return Err(ReadError::UnknownFormat(format.0));
        };
        Ok(Some(Section { header, reader }))
    }
}

} // verus!
