//! Laws about reassembling a resource from a sequence of reads.
//!
//! A successful drain returns a segment of the delivered byte stream at the
//! requested absolute position (see
//! [`crate::http_reader::lemma_drained_bytes_are_stream_bytes`]). These laws
//! close the argument: a run of contiguous ascending reads, each a segment of
//! the resource, concatenates back to the resource exactly.

use vstd::prelude::*;

verus! {

/// Every read in `reads`, in order, is the next contiguous segment of
/// `resource` starting at position `pos`.
pub open spec fn reads_cover(resource: Seq<u8>, reads: Seq<Seq<u8>>, pos: int) -> bool
    decreases reads.len(),
{
    if reads.len() == 0 {
        true
    } else {
        &&& 0 <= pos
        &&& pos + reads[0].len() <= resource.len()
        &&& reads[0] == resource.subrange(pos, pos + reads[0].len())
        &&& reads_cover(resource, reads.drop_first(), pos + reads[0].len())
    }
}

/// Total number of bytes over all reads.
pub open spec fn total_len(reads: Seq<Seq<u8>>) -> int
    decreases reads.len(),
{
    if reads.len() == 0 {
        0
    } else {
        reads[0].len() + total_len(reads.drop_first())
    }
}

/// Contiguous reads starting at `pos` concatenate to exactly the segment of
/// the resource they cover.
pub proof fn lemma_reads_flatten(resource: Seq<u8>, reads: Seq<Seq<u8>>, pos: int)
    requires
        0 <= pos <= resource.len(),
        reads_cover(resource, reads, pos),
    ensures
        total_len(reads) >= 0,
        pos + total_len(reads) <= resource.len(),
        reads.flatten() == resource.subrange(pos, pos + total_len(reads)),
    decreases reads.len(),
{
    if reads.len() == 0 {
        assert(reads.flatten() =~= resource.subrange(pos, pos));
    } else {
        lemma_reads_flatten(resource, reads.drop_first(), pos + reads[0].len());
        assert(reads.flatten() =~= resource.subrange(pos, pos + total_len(reads)));
    }
}

/// Read prefix equivalence: for a sequence of non-overlapping ascending reads
/// covering the resource from its start to its end, concatenating the
/// returned bytes yields the resource exactly.
pub proof fn lemma_read_prefix_equivalence(resource: Seq<u8>, reads: Seq<Seq<u8>>)
    requires
        reads_cover(resource, reads, 0),
        total_len(reads) == resource.len(),
    ensures
        reads.flatten() == resource,
{
    lemma_reads_flatten(resource, reads, 0);
    assert(resource.subrange(0, resource.len() as int) =~= resource);
}

} // verus!
