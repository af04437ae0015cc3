//! One HTTP range-GET stream with its sliding byte buffer.
//!
//! A reader models a single `Range: bytes=<start>-` transfer: a producer
//! appends arriving chunks at the back of `data`, a consumer drains requested
//! ranges from the front and advances `offset` (the absolute resource position
//! of byte 0 of `data`). The ghost field `delivered` records every byte the
//! transport has handed over since the transfer began, so contracts can state
//! exactly which segment of the stream a drain returns.
//!
//! The drain policy keeps no reserve of consumed bytes: a drain drops the
//! whole prefix before the request, so a backward read — however small —
//! falls outside the window and is answered by a fresh reader.
//!
//! The surrounding process owns the clock: it runs the producer's
//! backpressure pauses and the consumer's bounded wait, re-checking every
//! [`BUFFER_FILL_RECHECK_MS`] and giving up after [`MAX_RESPONSE_AWAIT_MS`].
//! The decisions those loops take between sleeps are the verified functions
//! here ([`HttpReader::producer_step`], [`HttpReader::required_data_available`],
//! [`HttpReader::try_drain_data`]).

use vstd::prelude::*;

verus! {

/// Ceiling on the buffered bytes a producer may see before it must pause.
pub const MAX_BUFFER_SIZE: usize = 1024 * 1024;

/// Hard timeout on a consumer waiting for its range to arrive.
pub const MAX_RESPONSE_AWAIT_MS: u64 = 10000;

/// How often the producer and the consumer re-check the buffer.
pub const BUFFER_FILL_RECHECK_MS: u64 = 10;

/// Largest chunk the transport hands to the producer in one callback.
pub const HTTP_CHUNK_SIZE: usize = 16384;

/// A block request in absolute resource coordinates.
#[derive(PartialEq, Eq, Structural, Debug, Clone, Copy)]
pub struct DataAddr {
    pub offset: usize,
    pub size: usize,
}

impl DataAddr {
    /// The end position fits the machine word.
    pub open spec fn wf(self) -> bool {
        self.offset + self.size <= usize::MAX
    }

    /// One past the last requested byte.
    pub open spec fn end(self) -> int {
        self.offset + self.size
    }

    pub fn new(offset: usize, size: usize) -> (r: DataAddr)
        requires
            offset + size <= usize::MAX,
        ensures
            r.offset == offset,
            r.size == size,
            r.wf(),
    {
        DataAddr { offset, size }
    }

    pub fn get_data_end_position(&self) -> (r: usize)
        requires
            self.wf(),
        ensures
            r == self.end(),
    {
        self.size + self.offset
    }
}

/// What the producer's transport callback must do next, given the state it
/// observed: append the chunk, pause because the buffer is at its ceiling, or
/// abort the transfer because a stop was requested during a pause.
#[derive(PartialEq, Eq, Structural, Debug, Clone, Copy)]
pub enum ProducerAction {
    Append,
    Pause,
    Abort,
}

/// One HTTP range stream and its buffered, not-yet-consumed bytes.
#[verifier::ext_equal]
pub struct HttpReader {
    /// Bytes `[offset, offset + data.len())` of the resource, as delivered.
    pub data: Vec<u8>,
    /// Absolute resource position of `data[0]`. Non-decreasing for life.
    pub offset: usize,
    /// Total size of the remote resource.
    pub resource_size: usize,
    pub resource_url: String,
    /// Once set, the producer aborts the transfer at its next pause.
    pub stop_requested: bool,
    pub additional_headers: Vec<String>,
    /// Identity handed out by the pool, so a detached producer can find its
    /// reader again.
    pub ordinal_number: usize,
    /// Where the range transfer began.
    pub start_offset: Ghost<int>,
    /// Every byte the transport has delivered since the transfer began;
    /// position `start_offset + i` of the resource holds `delivered[i]`,
    /// provided the server honoured the range request.
    pub delivered: Ghost<Seq<u8>>,
}

impl HttpReader {
    /// Internal consistency: the buffer is the undrained suffix of the
    /// delivered stream, stays inside the resource, and respects the memory
    /// ceiling (one chunk of slack, since a chunk is appended whole).
    pub open spec fn wf(self) -> bool {
        &&& self.resource_size + MAX_BUFFER_SIZE <= usize::MAX
        &&& self.offset + self.data@.len() <= self.resource_size
        &&& self.data@.len() <= MAX_BUFFER_SIZE + HTTP_CHUNK_SIZE
        &&& 0 <= self.start_offset@ <= self.offset
        &&& self.start_offset@ + self.delivered@.len() == self.offset + self.data@.len()
        &&& self.data@ == self.delivered@.subrange(
            self.offset - self.start_offset@,
            self.delivered@.len() as int,
        )
    }

    /// One past the last buffered byte, in absolute coordinates.
    pub open spec fn buf_end(self) -> int {
        self.offset + self.data@.len()
    }

    /// The furthest absolute position this reader could ever hold without
    /// advancing, at a full buffer.
    pub open spec fn window_end(self) -> int {
        self.offset + MAX_BUFFER_SIZE
    }

    /// The request lies in this reader's window: not before the already
    /// drained prefix, and not past what a full buffer could hold.
    pub open spec fn translates(self, abs_addr: DataAddr) -> bool {
        self.offset <= abs_addr.offset && abs_addr.end() <= self.window_end()
    }

    /// The absolute position the buffer must reach before the request can be
    /// answered in full (clamped at end of resource).
    pub open spec fn required_end(self, abs_addr: DataAddr) -> int {
        vstd::math::min(abs_addr.end(), self.resource_size as int)
    }

    /// Enough of the stream has arrived to answer the request.
    pub open spec fn data_available(self, abs_addr: DataAddr) -> bool {
        self.buf_end() >= self.required_end(abs_addr)
    }

    /// A drain of `abs_addr` succeeds on this reader as it stands.
    pub open spec fn can_serve(self, abs_addr: DataAddr) -> bool {
        self.translates(abs_addr) && self.data_available(abs_addr)
    }

    /// Start of the drained range, relative to the buffer (clamped to its
    /// length: a request at or past the buffered end yields nothing).
    pub open spec fn rel_start(self, abs_addr: DataAddr) -> int {
        vstd::math::min(abs_addr.offset - self.offset, self.data@.len() as int)
    }

    /// End of the drained range, relative to the buffer.
    pub open spec fn rel_end(self, abs_addr: DataAddr) -> int {
        vstd::math::min(self.data@.len() as int, abs_addr.offset - self.offset + abs_addr.size)
    }

    /// Exactly the bytes a successful drain of `abs_addr` returns.
    pub open spec fn drained_bytes(self, abs_addr: DataAddr) -> Seq<u8> {
        self.data@.subrange(self.rel_start(abs_addr), self.rel_end(abs_addr))
    }

    /// How a successful drain of `abs_addr` moves the reader: the prefix
    /// before the request is dropped, the base offset advances onto it, and
    /// everything else is untouched.
    pub open spec fn drain_transition(pre: HttpReader, post: HttpReader, abs_addr: DataAddr) -> bool {
        &&& post.offset == pre.offset + pre.rel_start(abs_addr)
        &&& post.data@ == pre.data@.subrange(pre.rel_start(abs_addr), pre.data@.len() as int)
        &&& post.resource_size == pre.resource_size
        &&& post.resource_url == pre.resource_url
        &&& post.stop_requested == pre.stop_requested
        &&& post.additional_headers == pre.additional_headers
        &&& post.ordinal_number == pre.ordinal_number
        &&& post.start_offset == pre.start_offset
        &&& post.delivered == pre.delivered
    }

    /// How `stop` moves the reader: the flag is set, nothing else changes.
    pub open spec fn stop_transition(pre: HttpReader, post: HttpReader) -> bool {
        &&& post.stop_requested == true
        &&& post.data == pre.data
        &&& post.offset == pre.offset
        &&& post.resource_size == pre.resource_size
        &&& post.resource_url == pre.resource_url
        &&& post.additional_headers == pre.additional_headers
        &&& post.ordinal_number == pre.ordinal_number
        &&& post.start_offset == pre.start_offset
        &&& post.delivered == pre.delivered
    }

    /// Construction performs no I/O; the caller launches the producer once.
    pub fn new(
        url: &str,
        start_offset: usize,
        resource_size: usize,
        additional_headers: Vec<String>,
        ordinal_number: usize,
    ) -> (r: HttpReader)
        requires
            start_offset <= resource_size,
            resource_size + MAX_BUFFER_SIZE <= usize::MAX,
        ensures
            r.wf(),
            r.offset == start_offset,
            r.data@ == Seq::<u8>::empty(),
            r.resource_size == resource_size,
            r.resource_url@ == url@,
            r.stop_requested == false,
            r.additional_headers == additional_headers,
            r.ordinal_number == ordinal_number,
            r.start_offset@ == start_offset,
            r.delivered@ == Seq::<u8>::empty(),
    {
        let r = HttpReader {
            data: Vec::new(),
            offset: start_offset,
            resource_size,
            resource_url: url.to_string(),
            stop_requested: false,
            additional_headers,
            ordinal_number,
            start_offset: Ghost(start_offset as int),
            delivered: Ghost(Seq::empty()),
        };
        proof {
            assert(r.data@ =~= r.delivered@.subrange(
                r.offset - r.start_offset@,
                r.delivered@.len() as int,
            ));
        }
        r
    }

    pub fn get_offset(&self) -> (r: usize)
        ensures
            r == self.offset,
    {
        self.offset
    }

    pub fn get_data_len(&self) -> (r: usize)
        ensures
            r == self.data@.len(),
    {
        self.data.len()
    }

    pub fn should_stop(&self) -> (r: bool)
        ensures
            r == self.stop_requested,
    {
        self.stop_requested
    }

    /// Request the producer to abort at its next pause. Idempotent:
    /// see [`lemma_stop_idempotent`].
    pub fn stop(&mut self)
        ensures
            HttpReader::stop_transition(*old(self), *final(self)),
            old(self).wf() ==> final(self).wf(),
            final(self).offset >= old(self).offset,
    {
        self.stop_requested = true;
    }

    /// Validates the requested absolute position against this reader's window
    /// and translates it into buffer coordinates.
    pub fn abs_to_rel_addr(&self, abs_addr: DataAddr) -> (r: Option<DataAddr>)
        requires
            self.wf(),
            abs_addr.wf(),
        ensures
            r is Some <==> self.translates(abs_addr),
            r is Some ==> {
                &&& r->Some_0.offset == abs_addr.offset - self.offset
                &&& r->Some_0.size == abs_addr.size
                &&& r->Some_0.wf()
            },
    {
        if abs_addr.offset < self.offset {
            return None;
        }
        let reader_possibly_data_reach: usize = self.offset + MAX_BUFFER_SIZE;
        if abs_addr.get_data_end_position() > reader_possibly_data_reach {
            return None;
        }
        Some(DataAddr { offset: abs_addr.offset - self.offset, size: abs_addr.size })
    }

    /// The condition the consumer's bounded wait polls: true once enough of
    /// the stream has arrived to answer `abs_addr` in full.
    pub fn required_data_available(&self, abs_addr: DataAddr) -> (r: bool)
        requires
            self.wf(),
            abs_addr.wf(),
        ensures
            r == self.data_available(abs_addr),
    {
        let end: usize = abs_addr.get_data_end_position();
        let required: usize = if end < self.resource_size {
            end
        } else {
            self.resource_size
        };
        self.offset + self.data.len() >= required
    }

    /// What the producer must do with an arriving chunk, given the state it
    /// observed: append while the buffer is under its ceiling; at the ceiling,
    /// pause, or abort once a stop was requested.
    pub fn producer_step(&self) -> (r: ProducerAction)
        ensures
            r == ProducerAction::Append <==> self.data@.len() < MAX_BUFFER_SIZE,
            r == ProducerAction::Abort <==> self.data@.len() >= MAX_BUFFER_SIZE
                && self.stop_requested,
            r == ProducerAction::Pause <==> self.data@.len() >= MAX_BUFFER_SIZE
                && !self.stop_requested,
    {
        if self.data.len() < MAX_BUFFER_SIZE {
            ProducerAction::Append
        } else if self.stop_requested {
            ProducerAction::Abort
        } else {
            ProducerAction::Pause
        }
    }

    /// Append one delivered chunk whole. Only legal below the ceiling
    /// ([`Self::producer_step`] returned `Append`) and within the resource:
    /// a range-honouring server never delivers past the end.
    pub fn append_chunk(&mut self, chunk: &[u8])
        requires
            old(self).wf(),
            old(self).data@.len() < MAX_BUFFER_SIZE,
            chunk@.len() <= HTTP_CHUNK_SIZE,
            old(self).buf_end() + chunk@.len() <= old(self).resource_size,
        ensures
            final(self).wf(),
            final(self).data@ == old(self).data@ + chunk@,
            final(self).data@.len() <= MAX_BUFFER_SIZE + HTTP_CHUNK_SIZE,
            final(self).delivered@ == old(self).delivered@ + chunk@,
            final(self).offset == old(self).offset,
            final(self).resource_size == old(self).resource_size,
            final(self).resource_url == old(self).resource_url,
            final(self).stop_requested == old(self).stop_requested,
            final(self).additional_headers == old(self).additional_headers,
            final(self).ordinal_number == old(self).ordinal_number,
            final(self).start_offset == old(self).start_offset,
            final(self).offset >= old(self).offset,
    {
        let mut k: usize = 0;
        while k < chunk.len()
            invariant
                k <= chunk@.len(),
                self.data@ == old(self).data@ + chunk@.subrange(0, k as int),
                self.offset == old(self).offset,
                self.resource_size == old(self).resource_size,
                self.resource_url == old(self).resource_url,
                self.stop_requested == old(self).stop_requested,
                self.additional_headers == old(self).additional_headers,
                self.ordinal_number == old(self).ordinal_number,
                self.start_offset == old(self).start_offset,
                self.delivered == old(self).delivered,
                old(self).data@.len() + chunk@.len() <= MAX_BUFFER_SIZE + HTTP_CHUNK_SIZE,
            decreases chunk@.len() - k,
        {
            self.data.push(chunk[k]);
            proof {
                assert(self.data@ =~= old(self).data@ + chunk@.subrange(0, k + 1));
            }
            k = k + 1;
        }
        proof {
            assert(self.data@ =~= old(self).data@ + chunk@);
            self.delivered@ = self.delivered@ + chunk@;
            assert(self.data@ == self.delivered@.subrange(
                self.offset - self.start_offset@,
                self.delivered@.len() as int,
            )) by {
                assert(self.data@ =~= self.delivered@.subrange(
                    self.offset - self.start_offset@,
                    self.delivered@.len() as int,
                ));
            }
        }
    }

    /// Returns the requested bytes from the buffer, or `None` if the request
    /// is outside this reader's window or the stream has not reached it yet.
    /// On success the consumed prefix is dropped and the base offset advances
    /// onto the request. The result may be shorter than `abs_addr.size` near
    /// the end of the resource.
    pub fn try_drain_data(&mut self, abs_addr: DataAddr) -> (r: Option<Vec<u8>>)
        requires
            old(self).wf(),
            abs_addr.wf(),
        ensures
            final(self).wf(),
            r is Some <==> old(self).can_serve(abs_addr),
            r is None ==> *final(self) == *old(self),
            r is Some ==> r->Some_0@ == old(self).drained_bytes(abs_addr),
            r is Some ==> HttpReader::drain_transition(*old(self), *final(self), abs_addr),
            final(self).offset >= old(self).offset,
    {
        match self.abs_to_rel_addr(abs_addr) {
            None => {
                return None;
            },
            Some(_) => {},
        };
        if !self.required_data_available(abs_addr) {
            return None;
        }
        Some(self.drain_core(abs_addr))
    }

    /// Drain whatever of the request is buffered right now, without waiting
    /// for the stream: the consumer's fallback once its wait has timed out.
    /// `None` only when the request is outside this reader's window; a
    /// translatable request always yields bytes, possibly none at all.
    pub fn drain_available_data(&mut self, abs_addr: DataAddr) -> (r: Option<Vec<u8>>)
        requires
            old(self).wf(),
            abs_addr.wf(),
        ensures
            final(self).wf(),
            r is Some <==> old(self).translates(abs_addr),
            r is None ==> *final(self) == *old(self),
            r is Some ==> r->Some_0@ == old(self).drained_bytes(abs_addr),
            r is Some ==> HttpReader::drain_transition(*old(self), *final(self), abs_addr),
            final(self).offset >= old(self).offset,
    {
        match self.abs_to_rel_addr(abs_addr) {
            None => {
                return None;
            },
            Some(_) => {},
        };
        Some(self.drain_core(abs_addr))
    }

    /// Copy the buffered part of the request out and drop the prefix that
    /// precedes it, advancing the base offset onto the request.
    fn drain_core(&mut self, abs_addr: DataAddr) -> (r: Vec<u8>)
        requires
            old(self).wf(),
            abs_addr.wf(),
            old(self).translates(abs_addr),
        ensures
            final(self).wf(),
            r@ == old(self).drained_bytes(abs_addr),
            HttpReader::drain_transition(*old(self), *final(self), abs_addr),
            final(self).offset >= old(self).offset,
    {
        let rel_addr = DataAddr { offset: abs_addr.offset - self.offset, size: abs_addr.size };
        let len: usize = self.data.len();
        let rel_start: usize = if rel_addr.offset < len {
            rel_addr.offset
        } else {
            len
        };
        let requested_end: usize = rel_addr.get_data_end_position();
        let rel_end: usize = if requested_end < len {
            requested_end
        } else {
            len
        };

        let requested_data: Vec<u8> = copy_range(&self.data, rel_start, rel_end);
        let kept: Vec<u8> = copy_range(&self.data, rel_start, len);
        self.data = kept;
        self.offset = self.offset + rel_start;
        proof {
            assert(self.data@ == self.delivered@.subrange(
                self.offset - self.start_offset@,
                self.delivered@.len() as int,
            )) by {
                assert(self.data@ =~= self.delivered@.subrange(
                    self.offset - self.start_offset@,
                    self.delivered@.len() as int,
                ));
            }
        }
        requested_data
    }
}

/// Copy `v[from..to]` into a fresh vector.
fn copy_range(v: &Vec<u8>, from: usize, to: usize) -> (r: Vec<u8>)
    requires
        from <= to <= v@.len(),
    ensures
        r@ == v@.subrange(from as int, to as int),
{
    let mut r: Vec<u8> = Vec::new();
    let mut k: usize = from;
    while k < to
        invariant
            from <= k <= to <= v@.len(),
            r@ == v@.subrange(from as int, k as int),
        decreases to - k,
    {
        r.push(v[k]);
        proof {
            assert(r@ =~= v@.subrange(from as int, k + 1));
        }
        k = k + 1;
    }
    r
}

/// Stopping a reader twice is indistinguishable from stopping it once: the
/// second stop leaves the reader exactly where the first left it.
pub proof fn lemma_stop_idempotent(a: HttpReader, b: HttpReader, c: HttpReader)
    requires
        HttpReader::stop_transition(a, b),
        HttpReader::stop_transition(b, c),
    ensures
        c == b,
        HttpReader::stop_transition(a, c),
{
}

/// A successful drain of a request starting inside the resource returns
/// exactly the requested number of bytes, shortened only by the end of the
/// resource: `min(abs_addr.size, resource_size - abs_addr.offset)`.
pub proof fn lemma_drained_len(r: HttpReader, abs_addr: DataAddr)
    requires
        r.wf(),
        abs_addr.wf(),
        r.can_serve(abs_addr),
        abs_addr.offset <= r.resource_size,
    ensures
        r.drained_bytes(abs_addr).len() == vstd::math::min(
            abs_addr.size as int,
            r.resource_size - abs_addr.offset,
        ),
{
}

/// A successful drain of a request lying inside the resource returns exactly
/// a segment of the delivered stream, read at the requested absolute
/// position. With a range-honouring server the stream is the resource itself
/// from `start_offset` on, so the drain returns resource bytes
/// `[abs_addr.offset, abs_addr.offset + result.len())`. (A request starting
/// past the end of the resource drains no bytes at all.)
pub proof fn lemma_drained_bytes_are_stream_bytes(r: HttpReader, abs_addr: DataAddr)
    requires
        r.wf(),
        abs_addr.wf(),
        r.can_serve(abs_addr),
        abs_addr.end() <= r.resource_size,
    ensures
        r.drained_bytes(abs_addr) == r.delivered@.subrange(
            abs_addr.offset - r.start_offset@,
            abs_addr.offset - r.start_offset@ + r.drained_bytes(abs_addr).len(),
        ),
{
    let lo = abs_addr.offset - r.start_offset@;
    assert(r.drained_bytes(abs_addr) =~= r.delivered@.subrange(
        lo,
        lo + r.drained_bytes(abs_addr).len(),
    ));
}

} // verus!
