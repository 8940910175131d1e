//! A stream of sections as plain mathematics: what stands at an offset where a header is
//! expected, and where the section that starts there ends.

use crate::layout::{Header, LayoutBuffer};
use vstd::prelude::*;

verus! {

/// What a stream holds at an offset where the header of a section is expected.
pub enum Frame {
    /// Nothing: the stream ends exactly there.
    End,
    /// The beginning of a header, cut off by the end of the stream.
    TruncatedHeader,
    /// Thirty-two bytes that do not start with the letters "ILDA".
    InvalidMagic,
    /// A header with the given format code, which is none of the five that are defined.
    UnknownFormat(u8),
    /// A header that opens a section.
    Section(Header),
}

/// What `bytes` holds at offset `start`, where a header is expected.
pub open spec fn spec_frame_at(bytes: Seq<u8>, start: nat) -> Frame {
    if start >= bytes.len() {
        Frame::End
    } else if bytes.len() - start < Header::spec_size() {
        Frame::TruncatedHeader
    } else {
        let header = Header::spec_overlay(
            bytes.subrange(start as int, (start + Header::spec_size()) as int),
        );
        if !header.spec_has_magic() {
            Frame::InvalidMagic
        } else if header.format.spec_record_size() is None {
            Frame::UnknownFormat(header.format.0)
        } else {
            Frame::Section(header)
        }
    }
}

/// Where the section ends whose header stands at `start`: where the header of the next
/// section is expected, or at the end of the stream where the stream ends before the last
/// record that the header announces.
pub open spec fn spec_section_end(bytes: Seq<u8>, start: nat) -> nat {
    match spec_frame_at(bytes, start) {
        Frame::Section(header) => {
            let data = start + Header::spec_size();
            let owed = header.num_records as nat * header.format.spec_record_size()->0;
            if data + owed <= bytes.len() {
                data + owed
            } else {
                bytes.len()
            }
        },
        _ => start,
    }
}

/// Whether the section whose header stands at `start` is all there, header and records.
pub open spec fn spec_section_complete(bytes: Seq<u8>, start: nat) -> bool {
    match spec_frame_at(bytes, start) {
        Frame::Section(header) => start + Header::spec_size() + header.num_records as nat
            * header.format.spec_record_size()->0 <= bytes.len(),
        _ => false,
    }
}

/// The headers of the sections of `bytes` from offset `start` on, in the order in which they
/// stand: each is looked for where the section before it ends, and the walk stops at the first
/// offset that does not hold a header that opens a section.
pub open spec fn spec_headers(bytes: Seq<u8>, start: nat) -> Seq<Header>
    decreases bytes.len() - start,
{
    match spec_frame_at(bytes, start) {
        Frame::Section(header) => seq![header] + spec_headers(
            bytes,
            spec_section_end(bytes, start),
        ),
        _ => Seq::empty(),
    }
}

/// How the walk over the sections of `bytes` from offset `start` on ends: what stands at the
/// first offset that does not hold a header that opens a section.
pub open spec fn spec_ending(bytes: Seq<u8>, start: nat) -> Frame
    decreases bytes.len() - start,
{
    match spec_frame_at(bytes, start) {
        Frame::Section(_) => spec_ending(bytes, spec_section_end(bytes, start)),
        frame => frame,
    }
}

/// Whether offset `at` is a boundary between sections for a walk that starts at `start`:
/// `start` itself, or a boundary of the walk that goes on behind the section at `start`,
/// which must then be complete.
pub open spec fn spec_boundary(bytes: Seq<u8>, start: nat, at: nat) -> bool
    decreases bytes.len() - start,
{
    start == at || (spec_section_complete(bytes, start) && spec_boundary(
        bytes,
        spec_section_end(bytes, start),
        at,
    ))
}

/// What stands at an offset depends on the thirty-two bytes from that offset on and on
/// nothing else: cutting a stream off behind them changes nothing about it.
pub proof fn lemma_frame_of_prefix(bytes: Seq<u8>, start: nat, cut: nat)
    requires
        start + Header::spec_size() <= cut <= bytes.len(),
    ensures
        spec_frame_at(bytes.take(cut as int), start) == spec_frame_at(bytes, start),
{
    let end = (start + Header::spec_size()) as int;
    assert(bytes.take(cut as int).subrange(start as int, end) =~= bytes.subrange(
        start as int,
        end,
    ));
}

/// A stream that is cut off exactly at a boundary between two sections ends cleanly: the
/// sections before the cut are found as before, and behind them the end of the stream, no
/// error.
pub proof fn lemma_cut_at_boundary_ends_cleanly(bytes: Seq<u8>, start: nat, cut: nat)
    requires
        start <= cut <= bytes.len(),
        spec_boundary(bytes, start, cut),
    ensures
        spec_ending(bytes.take(cut as int), start) == Frame::End,
        spec_boundary(bytes.take(cut as int), start, cut),
    decreases bytes.len() - start,
{
    let prefix = bytes.take(cut as int);
    if start == cut {
    } else {
        let end = spec_section_end(bytes, start);
        lemma_boundary_is_ahead(bytes, end, cut);
        lemma_frame_of_prefix(bytes, start, cut);
        assert(spec_section_end(prefix, start) == end);
        lemma_cut_at_boundary_ends_cleanly(bytes, end, cut);
    }
}

/// A boundary of a walk is never before the offset at which the walk starts.
pub proof fn lemma_boundary_is_ahead(bytes: Seq<u8>, start: nat, at: nat)
    requires
        spec_boundary(bytes, start, at),
    ensures
        start <= at,
    decreases bytes.len() - start,
{
    if start != at {
        lemma_boundary_is_ahead(bytes, spec_section_end(bytes, start), at);
    }
}

/// What stands at an offset does not depend on what comes before it in the stream.
pub proof fn lemma_frame_behind_prefix(prefix: Seq<u8>, bytes: Seq<u8>, start: nat)
    ensures
        spec_frame_at(prefix + bytes, prefix.len() + start) == spec_frame_at(bytes, start),
        spec_section_end(prefix + bytes, prefix.len() + start) == prefix.len() + spec_section_end(
            bytes,
            start,
        ),
{
    let whole = prefix + bytes;
    if start + Header::spec_size() <= bytes.len() {
        assert(whole.subrange(
            (prefix.len() + start) as int,
            (prefix.len() + start + Header::spec_size()) as int,
        ) =~= bytes.subrange(start as int, (start + Header::spec_size()) as int));
    }
}

/// The sections behind a prefix are the sections of the stream without the prefix, and the
/// walk over them ends in the same way.
pub proof fn lemma_walk_behind_prefix(prefix: Seq<u8>, bytes: Seq<u8>, start: nat)
    ensures
        spec_headers(prefix + bytes, prefix.len() + start) == spec_headers(bytes, start),
        spec_ending(prefix + bytes, prefix.len() + start) == spec_ending(bytes, start),
    decreases bytes.len() - start,
{
    lemma_frame_behind_prefix(prefix, bytes, start);
    if spec_frame_at(bytes, start) is Section {
        lemma_walk_behind_prefix(prefix, bytes, spec_section_end(bytes, start));
    }
}

/// A stream made of a complete section and of more stream behind it reads as that section
/// followed by what the rest reads as: sections put one behind the other are found again, one
/// by one and in their order.
pub proof fn lemma_section_then_stream(section: Seq<u8>, rest: Seq<u8>)
    requires
        spec_section_complete(section, 0),
        spec_section_end(section, 0) == section.len(),
    ensures
        spec_headers(section + rest, 0) == seq![spec_frame_at(section, 0)->Section_0]
            + spec_headers(rest, 0),
        spec_ending(section + rest, 0) == spec_ending(rest, 0),
{
    let whole = section + rest;
    assert(whole.take(section.len() as int) =~= section);
    lemma_frame_of_prefix(whole, 0, section.len());
    assert(spec_section_end(whole, 0) == section.len());
    lemma_walk_behind_prefix(section, rest, 0);
}

} // verus!
