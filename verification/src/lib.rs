//! A reader of the ILDA Image Data Transfer Format, revision 011 (2014-11-16).
//!
//! A stream is a run of sections. Each section is a header of fixed size followed by the
//! number of records that the header announces, all of one fixed-size layout that the header's
//! format code selects. [`SectionReader`] walks the sections; for each it hands out a
//! [`SubsectionReader`] of the matching record type, wrapped in [`SubsectionReaderKind`]. A
//! record reader may be dropped at any time: the records it did not read are passed over
//! before the next header is looked for.
//!
//! The library reads from bytes that it holds and performs no input itself. Where a stream
//! arrives piece by piece, [`SectionReader::shortfall`] says how many bytes are lacking
//! before the next section can be read, [`SectionReader::feed`] takes them, and
//! [`SectionReader::compact`] forgets what has been consumed.

pub mod core_specs;
pub mod error;
pub mod framing;
pub mod layout;
pub mod reader;
pub mod source;
pub mod stream;
pub mod text;
pub mod wire;

pub use error::ReadError;
pub use layout::LayoutBuffer;
pub use reader::{
    ColorPaletteReader, Coords2dIndexedColorReader, Coords2dTrueColorReader,
    Coords3dIndexedColorReader, Coords3dTrueColorReader, Section, SectionReader,
    SubsectionReader, SubsectionReaderKind,
};
pub use source::{ByteSource, SourceState};
