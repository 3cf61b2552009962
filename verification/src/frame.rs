//! The `Frame` buffer: capacity and retention bookkeeping for a streaming
//! byte source, with the decision rule of the read loop.

use vstd::prelude::*;

use crate::backing::bm_as_slice;
use crate::backing::bm_extend_from_slice;
use crate::backing::bm_len;
use crate::backing::bm_reserve;
use crate::backing::bm_split_to;
use crate::backing::bm_with_capacity;
use crate::backing::contents;

verus! {

/// What the read loop should do after one chunk from the source was handed
/// to [`Frame::accept_chunk`].
#[derive(Clone, Copy, Debug, PartialEq, Eq, Structural)]
pub enum ReadStep {
    /// The source returned no bytes: end-of-stream, stop reading.
    Eof,
    /// The chunk was too small to be worth waking the caller: read again.
    Again,
    /// Enough new data arrived: stop reading and report data available.
    Ready,
}

/// A read buffer that retains the trailing `preserved` bytes across a
/// [`Frame::consume`], so context spanning a read boundary is never lost.
///
/// Resident bytes never exceed `capacity`; appends are silently truncated to
/// the spare room. `written` counts every byte ever accepted and doubles as
/// the absolute position for positional (file) sources.
pub struct Frame {
    preserved: usize,
    capacity: usize,
    written: u64,
    buf: bytes::BytesMut,
    consumed: Ghost<bool>,
}

impl View for Frame {
    type V = Seq<u8>;

    /// The resident bytes: retained tail plus unconsumed new data.
    closed spec fn view(&self) -> Seq<u8> {
        contents(self.buf)
    }
}

impl Frame {
    /// The fixed upper bound on resident bytes, chosen at construction.
    pub closed spec fn capacity_spec(self) -> nat {
        self.capacity as nat
    }

    /// How many trailing bytes a consume leaves resident.
    pub closed spec fn preserved_spec(self) -> nat {
        self.preserved as nat
    }

    /// Total bytes ever accepted into the frame.
    pub closed spec fn written_spec(self) -> nat {
        self.written as nat
    }

    /// Whether `consume` has ever been called on this frame.
    pub closed spec fn consumed_once(self) -> bool {
        self.consumed@
    }

    /// Room left for new bytes before the frame is full.
    pub open spec fn spare_spec(self) -> nat {
        if self@.len() <= self.capacity_spec() {
            (self.capacity_spec() - self@.len()) as nat
        } else {
            0
        }
    }

    /// How many bytes of a slice of length `n` an append accepts: all of
    /// them, or as many as fit in the spare room.
    pub open spec fn accepted_len(self, n: nat) -> nat {
        if self.spare_spec() < n {
            self.spare_spec()
        } else {
            n
        }
    }

    /// The frame's invariant, established by `new` and kept by every method.
    ///
    /// The first three clauses are the configuration: the retained window is
    /// at least a quarter of the capacity (anything smaller would leave too
    /// little headroom for read progress) and no larger than the capacity,
    /// and reserving `capacity - preserved` ahead of a full frame cannot
    /// overflow `usize`. The rest tie the resident bytes to the counters:
    /// they never exceed the capacity nor the total ever written, and once
    /// some bytes have left through `consume` at least the retained window
    /// is resident.
    pub open spec fn wf(self) -> bool {
        &&& self.capacity_spec() / 4 <= self.preserved_spec()
        &&& self.preserved_spec() <= self.capacity_spec()
        &&& self.capacity_spec() + self.capacity_spec() - self.preserved_spec() <= usize::MAX
        &&& self@.len() <= self.capacity_spec()
        &&& self@.len() <= self.written_spec()
        &&& self.written_spec() > self@.len() ==> self.preserved_spec() <= self@.len()
        &&& !self.consumed_once() ==> self.written_spec() == self@.len()
    }

    /// Creates an empty frame for the given `(capacity, preserved)` pair.
    ///
    /// A pair with `preserved < capacity / 4` is a fatal configuration error
    /// and is excluded here, as are pairs whose bookkeeping could not fit in
    /// the machine's integers.
    pub fn new(capacity: usize, preserved: usize) -> (f: Frame)
        requires
            capacity / 4 <= preserved,
            preserved <= capacity,
            capacity + capacity - preserved <= usize::MAX,
        ensures
            f.wf(),
            f@ == Seq::<u8>::empty(),
            f.capacity_spec() == capacity,
            f.preserved_spec() == preserved,
            f.written_spec() == 0,
            !f.consumed_once(),
    {
        Frame {
            preserved,
            capacity,
            written: 0,
            buf: bm_with_capacity(capacity),
            consumed: Ghost(false),
        }
    }

    /// Pre-sizes the backing region so that `capacity - preserved` more
    /// bytes fit without reallocating; the resident bytes do not change.
    fn reserve(&mut self)
        requires
            old(self).wf(),
        ensures
            final(self)@ == old(self)@,
            final(self).capacity == old(self).capacity,
            final(self).preserved == old(self).preserved,
            final(self).written == old(self).written,
            final(self).consumed == old(self).consumed,
    {
        bm_reserve(&mut self.buf, self.capacity - self.preserved);
    }

    /// Copies as many bytes of `slice` as fit into the spare room and
    /// returns how many were accepted: `min(spare, slice.len())`. Truncation
    /// is silent; the caller checks the count and retries after a `consume`.
    pub fn extend_from_slice(&mut self, slice: &[u8]) -> (n: usize)
        requires
            old(self).wf(),
            old(self).written_spec() + old(self).accepted_len(slice@.len()) <= u64::MAX,
        ensures
            final(self).wf(),
            n == old(self).accepted_len(slice@.len()),
            final(self)@ == old(self)@ + slice@.subrange(0, n as int),
            final(self).written_spec() == old(self).written_spec() + n,
            final(self).capacity_spec() == old(self).capacity_spec(),
            final(self).preserved_spec() == old(self).preserved_spec(),
            final(self).consumed_once() == old(self).consumed_once(),
    {
        self.reserve();
        let len = bm_len(&self.buf);
        let spare = self.capacity - len;
        let n = if spare < slice.len() {
            spare
        } else {
            slice.len()
        };
        let part = vstd::slice::slice_subrange(slice, 0, n);
        bm_extend_from_slice(&mut self.buf, part);
        self.written = self.written + n as u64;
        n
    }

    /// Hands one chunk that the source produced to the frame and says what
    /// the read loop should do next: stop at end-of-stream (empty chunk),
    /// read again while progress is small (fewer than `2 * preserved` new
    /// bytes), or report data available. The chunk must fit in the spare
    /// room, which is what [`Frame::spare`] told the reader to ask for.
    pub fn accept_chunk(&mut self, chunk: &[u8]) -> (step: ReadStep)
        requires
            old(self).wf(),
            chunk@.len() <= old(self).spare_spec(),
            old(self).written_spec() + chunk@.len() <= u64::MAX,
        ensures
            final(self).wf(),
            final(self)@ == old(self)@ + chunk@,
            final(self).written_spec() == old(self).written_spec() + chunk@.len(),
            final(self).capacity_spec() == old(self).capacity_spec(),
            final(self).preserved_spec() == old(self).preserved_spec(),
            final(self).consumed_once() == old(self).consumed_once(),
            (step == ReadStep::Eof) <==> chunk@.len() == 0,
            (step == ReadStep::Again) <==> 0 < chunk@.len() < 2 * old(self).preserved_spec(),
            (step == ReadStep::Ready) <==> 0 < chunk@.len()
                && chunk@.len() >= 2 * old(self).preserved_spec(),
    {
        if chunk.len() == 0 {
            proof {
                assert(old(self)@ + chunk@ =~= old(self)@);
            }
            ReadStep::Eof
        } else {
            self.reserve();
            bm_extend_from_slice(&mut self.buf, chunk);
            self.written = self.written + chunk.len() as u64;
            if chunk.len() / 2 < self.preserved {
                ReadStep::Again
            } else {
                ReadStep::Ready
            }
        }
    }

    /// Detaches and returns all resident bytes except the trailing
    /// `preserved` ones, which stay resident (bit-identical, now at the
    /// front) as context for the next read cycle.
    pub fn consume(&mut self) -> (out: bytes::BytesMut)
        requires
            old(self).wf(),
            old(self).preserved_spec() <= old(self)@.len(),
        ensures
            final(self).wf(),
            contents(out) == old(self)@.subrange(
                0,
                old(self)@.len() - old(self).preserved_spec(),
            ),
            final(self)@ == old(self)@.subrange(
                old(self)@.len() - old(self).preserved_spec(),
                old(self)@.len() as int,
            ),
            final(self)@.len() == old(self).preserved_spec(),
            final(self).written_spec() == old(self).written_spec(),
            final(self).capacity_spec() == old(self).capacity_spec(),
            final(self).preserved_spec() == old(self).preserved_spec(),
            final(self).consumed_once(),
    {
        let len = bm_len(&self.buf);
        let out = bm_split_to(&mut self.buf, len - self.preserved);
        self.consumed = Ghost(true);
        out
    }

    /// Terminal flush: takes the frame apart and returns the residual bytes.
    /// When more was written than is resident, some consume already took
    /// bytes out, so the leading `preserved` bytes are the retained window
    /// and are stripped; otherwise (in particular, when `consume` was never
    /// called) the full resident content is returned unmodified.
    pub fn finish(self) -> (out: bytes::BytesMut)
        requires
            self.wf(),
        ensures
            self.written_spec() > self@.len() ==> contents(out) == self@.subrange(
                self.preserved_spec() as int,
                self@.len() as int,
            ),
            self.written_spec() == self@.len() ==> contents(out) == self@,
            !self.consumed_once() ==> contents(out) == self@,
    {
        let len = bm_len(&self.buf);
        if self.written > len as u64 {
            let mut buf = self.buf;
            let _front = bm_split_to(&mut buf, self.preserved);
            buf
        } else {
            self.buf
        }
    }

    /// Room left for new bytes; a read loop offers the source at most this
    /// much at a time.
    pub fn spare(&self) -> (n: usize)
        requires
            self.wf(),
        ensures
            n == self.spare_spec(),
    {
        let len = bm_len(&self.buf);
        self.capacity - len
    }

    /// Total bytes ever accepted; positional (file) sources use this as the
    /// absolute offset of the next read.
    pub fn written(&self) -> (w: u64)
        ensures
            w == self.written_spec(),
    {
        self.written
    }

    /// The resident bytes (retained tail plus unconsumed new data) as a
    /// read-only view.
    pub fn as_slice(&self) -> (s: &[u8])
        ensures
            s@ == self@,
    {
        bm_as_slice(&self.buf)
    }
}

} // verus!
