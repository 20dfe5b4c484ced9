//! The retained history of one tab's stdout.

use crate::chunk::{index_after, ChunkView, OutputChunk};
use std::collections::VecDeque;
use vstd::prelude::*;

verus! {

/// The number of bytes that a buffer retains unless told otherwise: 256 KiB.
pub const DEFAULT_CAPACITY: usize = 262144;

/// Why a chunk was not taken into the scrollback.
#[derive(Debug, Clone, Copy, PartialEq, Eq, Structural)]
pub enum ScrollbackError {
    /// The chunk starts after the end of what the buffer has seen: bytes
    /// are missing between the two.
    NonContiguous,
}

/// The last `count` bytes of `bytes`, or all of them where there are fewer.
pub open spec fn last_bytes(bytes: Seq<u8>, count: nat) -> Seq<u8> {
    if bytes.len() <= count {
        bytes
    } else {
        bytes.skip(bytes.len() - count)
    }
}

/// The mathematical content of a scrollback buffer: the bytes it retains,
/// the stream offset just past the last of them, and the cap on how many it
/// keeps.
#[verifier::ext_equal]
pub struct ScrollbackView {
    pub next_index: nat,
    pub data: Seq<u8>,
    pub capacity: nat,
}

impl ScrollbackView {
    /// No more bytes are retained than the capacity allows, nor more than
    /// the stream has had; and both bounds are such as a machine can hold.
    pub open spec fn valid(self) -> bool {
        &&& self.data.len() <= self.capacity <= usize::MAX
        &&& self.data.len() <= self.next_index <= u64::MAX
    }

    /// The stream offset of the oldest retained byte.
    pub open spec fn start(self) -> int {
        self.next_index - self.data.len()
    }

    /// The bytes of `chunk` that the buffer has not seen yet.
    pub open spec fn fresh(self, chunk: ChunkView) -> Seq<u8> {
        chunk.truncate_before(self.next_index).data
    }

    /// The buffer after it has taken in a chunk that starts at or before
    /// `next_index`: the bytes it had not seen are appended, and the oldest
    /// bytes make room for them.
    pub open spec fn push(self, chunk: ChunkView) -> ScrollbackView {
        ScrollbackView {
            next_index: index_after(self.next_index, self.fresh(chunk).len()),
            data: last_bytes(self.data + self.fresh(chunk), self.capacity),
            capacity: self.capacity,
        }
    }

    /// The buffer cut down to its newest `cap_bytes` bytes.
    pub open spec fn trim_to(self, cap_bytes: nat) -> ScrollbackView {
        ScrollbackView {
            next_index: self.next_index,
            data: last_bytes(self.data, cap_bytes),
            capacity: self.capacity,
        }
    }
}

/// The bytes of a run of chunks, oldest first.
spec fn bytes_of(chunks: Seq<OutputChunk>) -> Seq<u8>
    decreases chunks.len(),
{
    if chunks.len() == 0 {
        Seq::empty()
    } else {
        chunks.first().data@ + bytes_of(chunks.drop_first())
    }
}

/// Whether a run of chunks lies back to back in the stream from `start` to
/// `end`, none of them empty: each starts where the one before it ends.
spec fn runs(chunks: Seq<OutputChunk>, start: nat, end: nat) -> bool
    decreases chunks.len(),
{
    if chunks.len() == 0 {
        start == end
    } else {
        &&& chunks.first().index == start
        &&& chunks.first().data@.len() > 0
        &&& runs(chunks.drop_first(), chunks.first()@.end(), end)
    }
}

proof fn lemma_bytes_of_push(chunks: Seq<OutputChunk>, chunk: OutputChunk)
    ensures
        bytes_of(chunks.push(chunk)) == bytes_of(chunks) + chunk.data@,
    decreases chunks.len(),
{
    if chunks.len() == 0 {
        assert(chunks.push(chunk).drop_first() =~= chunks);
    } else {
        assert(chunks.push(chunk).drop_first() =~= chunks.drop_first().push(chunk));
        lemma_bytes_of_push(chunks.drop_first(), chunk);
    }
}

proof fn lemma_runs_push(chunks: Seq<OutputChunk>, start: nat, end: nat, chunk: OutputChunk)
    requires
        runs(chunks, start, end),
        chunk.index == end,
        chunk.data@.len() > 0,
    ensures
        runs(chunks.push(chunk), start, chunk@.end()),
    decreases chunks.len(),
{
    let pushed = chunks.push(chunk);
    if chunks.len() == 0 {
        assert(pushed.drop_first() =~= chunks);
        assert(runs(pushed.drop_first(), chunk@.end(), chunk@.end()));
    } else {
        assert(pushed.drop_first() =~= chunks.drop_first().push(chunk));
        lemma_runs_push(chunks.drop_first(), chunks.first()@.end(), end, chunk);
    }
}

/// Removes the first `count` bytes of a chunk and moves its start past
/// them; the chunk ends where it ended. Where the chunk lies within the
/// index space this is what `truncate_before` does.
fn cut_front(chunk: &mut OutputChunk, count: usize)
    requires
        0 < count < old(chunk).data@.len(),
    ensures
        final(chunk).data@ == old(chunk).data@.skip(count as int),
        final(chunk).index == index_after(old(chunk).index as nat, count as nat),
        final(chunk)@.end() == old(chunk)@.end(),
        old(chunk)@.exact() ==> final(chunk)@ == old(chunk)@.truncate_before(
            (old(chunk).index + count) as nat,
        ),
{
    let kept = chunk.data.split_off(count);
    chunk.data = kept;
    chunk.index = chunk.index.saturating_add(count as u64);
}

/// The state of a buffer. It is kept apart from `ScrollbackBuffer` so that
/// it can be changed step by step while the buffer itself is always whole.
struct Ring {
    chunks: VecDeque<OutputChunk>,
    total_bytes: usize,
    next_index: u64,
    capacity: usize,
}

impl Ring {
    spec fn view(&self) -> ScrollbackView {
        ScrollbackView {
            next_index: self.next_index as nat,
            data: bytes_of(self.chunks@),
            capacity: self.capacity as nat,
        }
    }

    /// Chunks are contiguous and in ascending order, the last one ends at
    /// `next_index`, and the byte count is true and within the cap.
    spec fn wf(&self) -> bool {
        &&& self.total_bytes == bytes_of(self.chunks@).len()
        &&& self.total_bytes <= self.capacity
        &&& self.total_bytes <= self.next_index
        &&& self.chunks@.len() > 0 ==> runs(
            self.chunks@,
            self.chunks@.first().index as nat,
            self.next_index as nat,
        )
    }

    fn empty(next_index: u64, capacity: usize) -> (ring: Ring)
        ensures
            ring.wf(),
            ring.view() == (ScrollbackView {
                next_index: next_index as nat,
                data: Seq::empty(),
                capacity: capacity as nat,
            }),
    {
        Ring { chunks: VecDeque::new(), total_bytes: 0, next_index, capacity }
    }

    fn trim_to(&mut self, cap_bytes: usize)
        requires
            old(self).wf(),
        ensures
            final(self).wf(),
            final(self).view() == old(self).view().trim_to(cap_bytes as nat),
    {
        while self.total_bytes > cap_bytes
            invariant
                self.wf(),
                self.next_index == old(self).next_index,
                self.capacity == old(self).capacity,
                self.total_bytes <= old(self).total_bytes,
                old(self).total_bytes == bytes_of(old(self).chunks@).len(),
                bytes_of(self.chunks@) == bytes_of(old(self).chunks@).skip(
                    old(self).total_bytes - self.total_bytes,
                ),
                old(self).total_bytes > cap_bytes ==> self.total_bytes >= cap_bytes,
                old(self).total_bytes <= cap_bytes ==> self.total_bytes == old(self).total_bytes,
            decreases self.total_bytes,
        {
            let excess: usize = self.total_bytes - cap_bytes;
            let ghost before = self.chunks@;
            let popped = self.chunks.pop_front();
            assert(before.len() > 0);
            let mut head = popped.unwrap();
            let ghost rest = self.chunks@;
            assert(rest =~= before.drop_first());
            assert(runs(rest, head@.end(), self.next_index as nat));
            let head_len: usize = head.len();
            if head_len <= excess {
                self.total_bytes = self.total_bytes - head_len;
                assert(bytes_of(rest) =~= bytes_of(before).skip(head_len as int));
            } else {
                cut_front(&mut head, excess);
                self.chunks.push_front(head);
                self.total_bytes = self.total_bytes - excess;
                assert(self.chunks@.drop_first() =~= rest);
                assert(self.chunks@.first() == head);
                assert(bytes_of(self.chunks@) =~= bytes_of(before).skip(excess as int));
            }
        }
    }

    fn push(&mut self, chunk: OutputChunk) -> (outcome: Result<(), ScrollbackError>)
        requires
            old(self).wf(),
        ensures
            final(self).wf(),
            outcome is Err <==> chunk.index > old(self).next_index,
            outcome is Err ==> outcome == Err::<(), ScrollbackError>(ScrollbackError::NonContiguous)
                && final(self).view() == old(self).view(),
            outcome is Ok ==> final(self).view() == old(self).view().push(chunk@),
    {
        if chunk.index > self.next_index {
            return Err(ScrollbackError::NonContiguous);
        }
        let mut chunk = chunk;
        chunk.truncate_before(self.next_index);
        let fresh: usize = chunk.len();
        if fresh == 0 {
            return Ok(());
        }
        let end: u64 = chunk.end();
        if fresh >= self.capacity {
            let surplus: usize = fresh - self.capacity;
            self.chunks.clear();
            self.total_bytes = 0;
            self.next_index = end;
            if self.capacity > 0 {
                if surplus > 0 {
                    cut_front(&mut chunk, surplus);
                }
                self.total_bytes = self.capacity;
                proof {
                    lemma_bytes_of_push(self.chunks@, chunk);
                    lemma_runs_push(self.chunks@, chunk.index as nat, chunk.index as nat, chunk);
                }
                self.chunks.push_back(chunk);
            }
        } else {
            let room: usize = self.capacity - fresh;
            self.trim_to(room);
            proof {
                lemma_bytes_of_push(self.chunks@, chunk);
                if self.chunks@.len() > 0 {
                    lemma_runs_push(
                        self.chunks@,
                        self.chunks@.first().index as nat,
                        self.next_index as nat,
                        chunk,
                    );
                } else {
                    lemma_runs_push(self.chunks@, chunk.index as nat, chunk.index as nat, chunk);
                }
            }
            self.chunks.push_back(chunk);
            self.total_bytes = self.total_bytes + fresh;
            self.next_index = end;
        }
        Ok(())
    }

    fn snapshot(&self) -> (chunk: OutputChunk)
        requires
            self.wf(),
        ensures
            chunk@.index == self.view().start(),
            chunk@.data == self.view().data,
    {
        let mut data: Vec<u8> = Vec::new();
        let mut i: usize = 0;
        while i < self.chunks.len()
            invariant
                i <= self.chunks@.len(),
                data@ == bytes_of(self.chunks@.take(i as int)),
            decreases self.chunks@.len() - i,
        {
            proof {
                lemma_bytes_of_push(self.chunks@.take(i as int), self.chunks@[i as int]);
                assert(self.chunks@.take(i as int).push(self.chunks@[i as int])
                    =~= self.chunks@.take(i + 1));
            }
            data.extend_from_slice(self.chunks[i].data.as_slice());
            i = i + 1;
        }
        assert(self.chunks@.take(i as int) =~= self.chunks@);
        OutputChunk { index: self.next_index - self.total_bytes as u64, data }
    }
}

/// A bounded record of the newest bytes of one tab's stdout, kept as the
/// chunks in which they arrived. New subscribers are sent a snapshot of it.
pub struct ScrollbackBuffer {
    ring: Ring,
}

impl View for ScrollbackBuffer {
    type V = ScrollbackView;

    closed spec fn view(&self) -> ScrollbackView {
        self.ring.view()
    }
}

impl ScrollbackBuffer {
    #[verifier::type_invariant]
    spec fn well_formed(self) -> bool {
        self.ring.wf()
    }

    /// An empty buffer at the start of a stream, with the default capacity.
    pub fn new() -> (buffer: Self)
        ensures
            buffer@ == (ScrollbackView {
                next_index: 0,
                data: Seq::empty(),
                capacity: DEFAULT_CAPACITY as nat,
            }),
            buffer@.valid(),
    {
        ScrollbackBuffer { ring: Ring::empty(0, DEFAULT_CAPACITY) }
    }

    /// An empty buffer at the start of a stream that retains at most
    /// `capacity` bytes.
    pub fn with_capacity(capacity: usize) -> (buffer: Self)
        ensures
            buffer@ == (ScrollbackView {
                next_index: 0,
                data: Seq::empty(),
                capacity: capacity as nat,
            }),
            buffer@.valid(),
    {
        ScrollbackBuffer { ring: Ring::empty(0, capacity) }
    }

    /// An empty buffer for a stream that has reached `next_index`, which
    /// retains at most `capacity` bytes.
    pub fn starting_at(next_index: u64, capacity: usize) -> (buffer: Self)
        ensures
            buffer@ == (ScrollbackView {
                next_index: next_index as nat,
                data: Seq::empty(),
                capacity: capacity as nat,
            }),
            buffer@.valid(),
    {
        ScrollbackBuffer { ring: Ring::empty(next_index, capacity) }
    }

    /// The number of bytes retained.
    pub fn total_bytes(&self) -> (count: usize)
        ensures
            count == self@.data.len(),
            self@.valid(),
    {
        proof {
            use_type_invariant(self);
        }
        self.ring.total_bytes
    }

    /// The stream offset just past the newest byte seen; the index that the
    /// next chunk is expected to have.
    pub fn next_index(&self) -> (index: u64)
        ensures
            index == self@.next_index,
            self@.valid(),
    {
        proof {
            use_type_invariant(self);
        }
        self.ring.next_index
    }

    /// The most bytes that the buffer retains.
    pub fn capacity(&self) -> (count: usize)
        ensures
            count == self@.capacity,
    {
        self.ring.capacity
    }

    /// Takes a chunk into the buffer. A chunk that starts after `next_index`
    /// would leave a gap: it is rejected and the buffer stays as it was. Of
    /// any other chunk the bytes before `next_index` are already present and
    /// are dropped; the rest is appended, and the oldest bytes are evicted
    /// so that no more than the capacity remains.
    pub fn push(&mut self, chunk: OutputChunk) -> (outcome: Result<(), ScrollbackError>)
        ensures
            outcome is Err <==> chunk@.index > old(self)@.next_index,
            outcome is Err ==> outcome == Err::<(), ScrollbackError>(ScrollbackError::NonContiguous)
                && final(self)@ == old(self)@,
            outcome is Ok ==> final(self)@ == old(self)@.push(chunk@),
            old(self)@.valid() && final(self)@.valid(),
    {
        proof {
            use_type_invariant(&*self);
        }
        let mut ring = Ring::empty(0, 0);
        core::mem::swap(&mut self.ring, &mut ring);
        let outcome = ring.push(chunk);
        self.ring = ring;
        outcome
    }

    /// The retained history as one chunk: every retained byte, oldest
    /// first, indexed so that the chunk ends at `next_index`.
    pub fn snapshot(&self) -> (chunk: OutputChunk)
        ensures
            chunk@.index == self@.start(),
            chunk@.data == self@.data,
            chunk@.end() == self@.next_index,
            self@.valid(),
    {
        proof {
            use_type_invariant(self);
        }
        self.ring.snapshot()
    }

    /// Cuts the retained history down to its newest `cap_bytes` bytes:
    /// whole chunks are evicted from the old end, then the oldest remaining
    /// chunk is truncated. The capacity stays as it is.
    pub fn trim_to(&mut self, cap_bytes: usize)
        ensures
            final(self)@ == old(self)@.trim_to(cap_bytes as nat),
            old(self)@.valid() && final(self)@.valid(),
    {
        proof {
            use_type_invariant(&*self);
        }
        let mut ring = Ring::empty(0, 0);
        core::mem::swap(&mut self.ring, &mut ring);
        ring.trim_to(cap_bytes);
        self.ring = ring;
    }
}

/// Keeping the newest bytes, appending, and keeping the newest bytes again
/// comes to the same as appending first.
pub proof fn lemma_last_bytes_twice(old_bytes: Seq<u8>, new_bytes: Seq<u8>, count: nat)
    ensures
        last_bytes(last_bytes(old_bytes, count) + new_bytes, count) == last_bytes(
            old_bytes + new_bytes,
            count,
        ),
{
}

/// A chunk that starts where the buffer ends is taken in whole: the buffer
/// then holds the newest bytes of what it held and the chunk, and ends
/// where the chunk ends.
pub proof fn lemma_push_in_order(buffer: ScrollbackView, chunk: ChunkView)
    requires
        buffer.valid(),
        chunk.index == buffer.next_index,
    ensures
        buffer.push(chunk).valid(),
        buffer.push(chunk).next_index == chunk.end(),
        buffer.push(chunk).data == last_bytes(buffer.data + chunk.data, buffer.capacity),
{
}

/// A chunk that the buffer has seen in full changes nothing.
pub proof fn lemma_push_again(buffer: ScrollbackView, chunk: ChunkView)
    requires
        buffer.valid(),
        chunk.index <= u64::MAX,
        chunk.end() <= buffer.next_index,
        !chunk.stuck(),
    ensures
        buffer.push(chunk) == buffer,
{
    assert(buffer.fresh(chunk) =~= Seq::<u8>::empty());
    assert(buffer.data + buffer.fresh(chunk) =~= buffer.data);
}

} // verus!
