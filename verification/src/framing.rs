//! What the contracts of the readers add up to: how a reader frames a stream into sections
//! and records, whatever the caller does in between.

use crate::error::ReadError;
use crate::layout::{Header, LayoutBuffer};
use crate::reader::{spec_read_record, SectionReader};
use crate::source::{lemma_reads_keep_next_section, SourceState};
use crate::stream::{
    lemma_frame_behind_prefix, lemma_frame_of_prefix, lemma_walk_behind_prefix, spec_ending,
    spec_frame_at, spec_headers, spec_section_complete, spec_section_end, Frame,
};
use vstd::prelude::*;

verus! {

/// The sections come out in the order in which the stream holds them, none twice and none
/// left out, whether the caller reads every record of a section, some of them or none.
///
/// Let a reader in state `s` hand out a section, and let the caller ask that section's reader
/// for a record `k` times, for any `k`. Then the next section is looked for exactly where the
/// section that was handed out ends, so that the headers of the stream from here on are the
/// header that was handed out, followed by the headers from there on, and the walk over the
/// sections ends as it would have ended from there.
pub proof fn lemma_sections_in_order(s: SourceState, k: nat)
    requires
        s.wf(),
        spec_frame_at(s.bytes, s.next_section_start()) is Section,
    ensures
        ({
            let start = s.next_section_start();
            let after = SectionReader::spec_after_header(s).after_reads(k);
            &&& after.wf()
            &&& after.bytes == s.bytes
            &&& after.next_section_start() == spec_section_end(s.bytes, start)
            &&& spec_headers(s.bytes, start) == seq![
                spec_frame_at(s.bytes, start)->Section_0,
            ] + spec_headers(s.bytes, after.next_section_start())
            &&& spec_ending(s.bytes, start) == spec_ending(s.bytes, after.next_section_start())
        }),
{
    lemma_reads_keep_next_section(SectionReader::spec_after_header(s), k);
}

/// The records of a section come out in the order in which the stream holds them, each once:
/// for a reader that fits its source, as every reader does that a section reader hands out,
/// and a source that holds the first `i + 1` records that are owed, the read that follows `i`
/// reads gives the record that the bytes from `i * record_size` on hold, counted from where
/// the first read started.
pub proof fn lemma_records_in_order<T: LayoutBuffer>(s: SourceState, i: nat)
    requires
        s.wf(),
        i < s.owed_records,
        (i + 1) * s.record_size <= s.remaining(),
        s.record_size == T::spec_size(),
    ensures
        s.after_reads(i).pos == s.pos + i * s.record_size,
        s.after_reads(i).owed_records == s.owed_records - i,
        spec_read_record::<T>(s.after_reads(i)) == Ok::<Option<T>, ReadError>(
            Some(
                T::spec_overlay(
                    s.bytes.subrange(
                        (s.pos + i * s.record_size) as int,
                        (s.pos + (i + 1) * s.record_size) as int,
                    ),
                ),
            ),
        ),
    decreases i,
{
    let size = s.record_size;
    assert((i + 1) * size == i * size + size) by (nonlinear_arith);
    assert(i * size >= 0) by (nonlinear_arith)
        requires
            i >= 0,
            size >= 0,
    ;
    if i > 0 {
        let t = s.after_read();
        assert(((i - 1) + 1) * size == i * size);
        assert((i - 1) * size + size == i * size) by (nonlinear_arith);
        lemma_records_in_order::<T>(t, (i - 1) as nat);
        assert(s.after_reads(i) == t.after_reads((i - 1) as nat));
    }
}

/// A header that announces no record is accepted like any other: it opens a section, the
/// reader of that section has nothing to give from the first read on, and the next header is
/// looked for right behind it.
pub proof fn lemma_empty_section<T: LayoutBuffer>(s: SourceState, header: Header)
    requires
        s.wf(),
        s.next_section_start() + Header::spec_size() <= s.bytes.len(),
        header == Header::spec_overlay(
            s.bytes.subrange(
                s.next_section_start() as int,
                (s.next_section_start() + Header::spec_size()) as int,
            ),
        ),
        header.spec_has_magic(),
        header.format.spec_record_size() is Some,
        header.num_records == 0,
    ensures
        spec_frame_at(s.bytes, s.next_section_start()) == Frame::Section(header),
        spec_read_record::<T>(SectionReader::spec_after_header(s)) == Ok::<
            Option<T>,
            ReadError,
        >(None),
        SectionReader::spec_after_header(s).next_section_start() == s.next_section_start()
            + Header::spec_size(),
{
    assert(0 * SectionReader::spec_after_header(s).record_size == 0);
}

/// A stream that ends inside a header or inside a record is never taken for one that ends
/// well: what the read gives is an error, not the end of the stream and not the end of the
/// section.
pub proof fn lemma_truncation_is_an_error<T: LayoutBuffer>(s: SourceState)
    requires
        s.wf(),
    ensures
        0 < s.bytes.len() - s.next_section_start() < Header::spec_size() ==> spec_frame_at(
            s.bytes,
            s.next_section_start(),
        ) == Frame::TruncatedHeader,
        s.owed_records > 0 && s.remaining() < s.record_size ==> spec_read_record::<T>(s) == Err::<
            Option<T>,
            ReadError,
        >(ReadError::TruncatedRecord),
{
}

/// A header with a format code that is not defined is refused, and none of the bytes behind
/// it is taken for a record: the header is consumed, nothing is owed, and the next header is
/// looked for right behind it.
pub proof fn lemma_unknown_format_owes_nothing(s: SourceState)
    requires
        s.wf(),
        spec_frame_at(s.bytes, s.next_section_start()) is UnknownFormat,
    ensures
        ({
            let after = SectionReader::spec_after_header(s);
            &&& after.pos == s.next_section_start() + Header::spec_size()
            &&& after.owed() == 0
            &&& after.next_section_start() == after.pos
            &&& after.wf()
        }),
{
    assert(0 * SectionReader::spec_after_header(s).record_size == 0);
}

/// Which format codes are refused: every code but 0, 1, 2, 4 and 5, on a header that is all
/// there and starts with the letters "ILDA".
pub proof fn lemma_unknown_format_codes(bytes: Seq<u8>, start: nat)
    requires
        start + Header::spec_size() <= bytes.len(),
    ensures
        ({
            let header = Header::spec_overlay(
                bytes.subrange(start as int, (start + Header::spec_size()) as int),
            );
            let code = header.format.0;
            &&& spec_frame_at(bytes, start) == Frame::UnknownFormat(code) <==> header.spec_has_magic()
                && code != 0 && code != 1 && code != 2 && code != 4 && code != 5
            &&& code == bytes[(start + 7) as int]
        }),
{
}

/// Once nothing is lacking, what the reader gives next no longer depends on what the stream
/// brings later: the next section is looked for past all that is owed, the header found there
/// and the end of its section are the same whatever is fed behind them, and a header that
/// opens a section has all its records there.
pub proof fn lemma_nothing_lacking_is_final(s: SourceState, more: Seq<u8>)
    requires
        s.wf(),
        SectionReader::spec_shortfall(s) == 0,
    ensures
        ({
            let start = s.next_section_start();
            let fed = s.fed(more);
            &&& start == s.pos + s.owed()
            &&& fed.next_section_start() == start
            &&& spec_frame_at(fed.bytes, start) == spec_frame_at(s.bytes, start)
            &&& !(spec_frame_at(s.bytes, start) is End)
            &&& !(spec_frame_at(s.bytes, start) is TruncatedHeader)
            &&& SectionReader::spec_after_header(fed) == SectionReader::spec_after_header(s).fed(
                more,
            )
            &&& spec_frame_at(s.bytes, start) is Section ==> spec_section_complete(s.bytes, start)
                && spec_section_end(fed.bytes, start) == spec_section_end(s.bytes, start)
        }),
{
    let start = s.pos + s.owed();
    let fed = s.fed(more);
    assert(fed.bytes.take(s.bytes.len() as int) =~= s.bytes);
    lemma_frame_of_prefix(fed.bytes, start, s.bytes.len());
}

/// Forgetting what has been consumed changes nothing about what is read afterwards: the
/// sections from offset zero of what is kept are the sections that were ahead, and the walk
/// over them ends in the same way.
pub proof fn lemma_compact_keeps_sections(s: SourceState)
    requires
        s.wf(),
    ensures
        ({
            let kept = s.released().compacted();
            let start = s.next_section_start();
            &&& kept.wf()
            &&& kept.next_section_start() == 0
            &&& kept.bytes == s.bytes.skip(start as int)
            &&& spec_frame_at(kept.bytes, 0) == spec_frame_at(s.bytes, start)
            &&& spec_headers(kept.bytes, 0) == spec_headers(s.bytes, start)
            &&& spec_ending(kept.bytes, 0) == spec_ending(s.bytes, start)
        }),
{
    let start = s.next_section_start();
    let kept = s.released().compacted();
    let prefix = s.bytes.take(start as int);
    assert(prefix + kept.bytes =~= s.bytes);
    assert(0 * kept.record_size == 0);
    lemma_walk_behind_prefix(prefix, kept.bytes, 0);
    lemma_frame_behind_prefix(prefix, kept.bytes, 0);
}

} // verus!
