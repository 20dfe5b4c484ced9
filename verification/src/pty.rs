//! One tab's PTY session: it numbers the bytes that the PTY writes, keeps
//! their history, and decides what each message for the tabs means to it.

use crate::chunk::{index_after, ChunkView, InputChunk, OutputChunk};
use crate::message::{TabOutput, TabRecv, TabScrollback, TabSend};
use crate::scrollback::{
    last_bytes, lemma_last_bytes_twice, lemma_push_in_order, ScrollbackBuffer, ScrollbackView,
};
use crate::tab::TabId;
use std::sync::Arc;
use vstd::prelude::*;

verus! {

/// What a PTY session does in answer to a message for the tabs.
#[derive(Debug, PartialEq, Eq)]
pub enum PtyAction {
    /// Write these bytes to the PTY's stdin.
    Write(Arc<InputChunk>),
    /// Resize the PTY to these columns and rows.
    Resize((u16, u16)),
    /// Publish the scrollback of this tab.
    SendScrollback,
    /// Close the PTY.
    Close,
    /// The message is for another tab, or for the clients.
    Ignore,
}

/// The bytes of a run of reads, in order.
pub open spec fn stream_of(reads: Seq<Seq<u8>>) -> Seq<u8>
    decreases reads.len(),
{
    if reads.len() == 0 {
        Seq::empty()
    } else {
        stream_of(reads.drop_last()) + reads.last()
    }
}

/// The offset that a session reaches from `offset` by the given reads: as
/// many bytes further as were read, as far as offsets go.
pub open spec fn offset_after(offset: nat, reads: Seq<Seq<u8>>) -> nat {
    index_after(offset, stream_of(reads).len())
}

/// The chunks that a session at `offset` publishes for the given reads:
/// each read becomes a chunk that starts where the one before it ended.
pub open spec fn chunks_of(offset: nat, reads: Seq<Seq<u8>>) -> Seq<ChunkView>
    decreases reads.len(),
{
    if reads.len() == 0 {
        Seq::empty()
    } else {
        chunks_of(offset, reads.drop_last()).push(
            ChunkView { index: offset_after(offset, reads.drop_last()), data: reads.last() },
        )
    }
}

/// The bytes of a run of chunks, in order.
pub open spec fn joined(chunks: Seq<ChunkView>) -> Seq<u8>
    decreases chunks.len(),
{
    if chunks.len() == 0 {
        Seq::empty()
    } else {
        joined(chunks.drop_last()) + chunks.last().data
    }
}

/// The history that a session has after the given reads, each taken in as
/// a chunk at the offset that the session had reached.
pub open spec fn history_after(history: ScrollbackView, reads: Seq<Seq<u8>>) -> ScrollbackView
    decreases reads.len(),
{
    if reads.len() == 0 {
        history
    } else {
        let before = history_after(history, reads.drop_last());
        before.push(ChunkView { index: before.next_index, data: reads.last() })
    }
}

/// The state of one tab's PTY session.
pub struct PtySession {
    id: TabId,
    scrollback: ScrollbackBuffer,
}

impl PtySession {
    /// The tab that the session belongs to.
    pub closed spec fn tab(&self) -> TabId {
        self.id
    }

    /// The history that the session keeps.
    pub closed spec fn history(&self) -> ScrollbackView {
        self.scrollback@
    }

    /// The number of bytes that the PTY has written so far.
    pub open spec fn written(&self) -> nat {
        self.history().next_index
    }

    /// A session at the start of its tab's stdout, which retains at most
    /// `capacity` bytes of it.
    pub fn new(id: TabId, capacity: usize) -> (session: Self)
        ensures
            session.tab() == id,
            session.history() == (ScrollbackView {
                next_index: 0,
                data: Seq::empty(),
                capacity: capacity as nat,
            }),
            session.history().valid(),
    {
        PtySession { id, scrollback: ScrollbackBuffer::with_capacity(capacity) }
    }

    /// The tab that the session belongs to.
    pub fn id(&self) -> (id: TabId)
        ensures
            id == self.tab(),
    {
        self.id
    }

    /// The number of bytes that the PTY has written so far: the index of
    /// the next chunk.
    pub fn offset(&self) -> (offset: u64)
        ensures
            offset == self.written(),
            self.history().valid(),
    {
        self.scrollback.next_index()
    }

    /// Takes in bytes that the PTY wrote. They become a chunk that starts
    /// at the session's offset; the chunk goes into the history and is
    /// published as the tab's output, and the offset moves past it, as far
    /// as offsets go.
    pub fn stdout(&mut self, data: Vec<u8>) -> (published: TabSend)
        ensures
            final(self).tab() == old(self).tab(),
            old(self).history().valid() && final(self).history().valid(),
            final(self).written() == index_after(old(self).written(), data@.len()),
            final(self).history() == old(self).history().push(
                ChunkView { index: old(self).written(), data: data@ },
            ),
            published matches TabSend::Output(output) && output.id == old(self).tab()
                && output.stdout@ == (ChunkView { index: old(self).written(), data: data@ }),
    {
        let chunk = OutputChunk { index: self.scrollback.next_index(), data };
        // The chunk starts where the history ends, so it is taken in.
        let taken = self.scrollback.push(chunk.clone());
        assert(taken is Ok);
        TabSend::Output(TabOutput { id: self.id, stdout: Arc::new(chunk) })
    }

    /// The retained history as one chunk, for a client that has just
    /// joined. It ends at the session's offset.
    pub fn scrollback(&self) -> (published: TabSend)
        ensures
            published matches TabSend::Scrollback(reply) && reply.id == self.tab()
                && reply.scrollback@.index == self.history().start() && reply.scrollback@.data
                == self.history().data && reply.scrollback@.end() == self.written(),
    {
        TabSend::Scrollback(TabScrollback { id: self.id, scrollback: self.scrollback.snapshot() })
    }

    /// The announcement that the PTY has exited.
    pub fn exited(&self) -> (published: TabSend)
        ensures
            published == TabSend::Stopped(self.tab()),
    {
        TabSend::Stopped(self.id)
    }

    /// Whether a request to end the session of the tab `id` is a request
    /// to end this session.
    pub fn closes(&self, id: TabId) -> (yes: bool)
        ensures
            yes == (id == self.tab()),
    {
        id == self.id
    }

    /// Decides what a message for the tabs means to this session. Input,
    /// resizes and requests for scrollback count when they name this tab;
    /// a request to terminate counts always; retasks are for the clients.
    pub fn handle_tabrecv(&self, msg: TabRecv) -> (action: PtyAction)
        ensures
            action == match msg {
                TabRecv::Input(input) => if input.id == self.tab() {
                    PtyAction::Write(input.stdin)
                } else {
                    PtyAction::Ignore
                },
                TabRecv::Resize(id, dimensions) => if id == self.tab() {
                    PtyAction::Resize(dimensions)
                } else {
                    PtyAction::Ignore
                },
                TabRecv::Scrollback(id) => if id == self.tab() {
                    PtyAction::SendScrollback
                } else {
                    PtyAction::Ignore
                },
                TabRecv::Retask(_, _) => PtyAction::Ignore,
                TabRecv::TerminateAll => PtyAction::Close,
            },
    {
        match msg {
            TabRecv::Input(input) => {
                if input.id == self.id {
                    PtyAction::Write(input.stdin)
                } else {
                    PtyAction::Ignore
                }
            },
            TabRecv::Resize(id, dimensions) => {
                if id == self.id {
                    PtyAction::Resize(dimensions)
                } else {
                    PtyAction::Ignore
                }
            },
            TabRecv::Scrollback(id) => {
                if id == self.id {
                    PtyAction::SendScrollback
                } else {
                    PtyAction::Ignore
                }
            },
            TabRecv::Retask(_, _) => PtyAction::Ignore,
            TabRecv::TerminateAll => PtyAction::Close,
        }
    }
}

proof fn lemma_stream_grows(reads: Seq<Seq<u8>>, upto: int)
    requires
        0 <= upto <= reads.len(),
    ensures
        stream_of(reads.take(upto)).len() <= stream_of(reads).len(),
    decreases reads.len(),
{
    if upto < reads.len() {
        assert(reads.drop_last().take(upto) =~= reads.take(upto));
        lemma_stream_grows(reads.drop_last(), upto);
    } else {
        assert(reads.take(upto) =~= reads);
    }
}

/// The chunks that a session publishes carry the PTY's bytes in order,
/// and together they are the stream that was read. Each chunk starts where
/// the one before it ends, so that starts and ends never decrease and no
/// two chunks overlap. As long as the stream lies within the index space,
/// each chunk starts at the number of bytes written before it and ends at
/// that number with its own bytes added.
pub proof fn lemma_chunks_tile_the_stream(start: u64, reads: Seq<Seq<u8>>)
    ensures
        chunks_of(start as nat, reads).len() == reads.len(),
        joined(chunks_of(start as nat, reads)) == stream_of(reads),
        forall|i: int|
            0 <= i < reads.len() ==> {
                &&& (#[trigger] chunks_of(start as nat, reads)[i]).data == reads[i]
                &&& chunks_of(start as nat, reads)[i].start() == offset_after(
                    start as nat,
                    reads.take(i),
                )
                &&& chunks_of(start as nat, reads)[i].end() == offset_after(
                    start as nat,
                    reads.take(i + 1),
                )
            },
        forall|i: int|
            0 <= i < reads.len() ==> start <= (#[trigger] chunks_of(start as nat, reads)[i]).start(),
        forall|i: int, j: int|
            0 <= i < j < reads.len() ==> {
                &&& (#[trigger] chunks_of(start as nat, reads)[i]).start() <= (
                #[trigger] chunks_of(start as nat, reads)[j]).start()
                &&& chunks_of(start as nat, reads)[i].end() <= chunks_of(
                    start as nat,
                    reads,
                )[j].start()
                &&& chunks_of(start as nat, reads)[i].end() <= chunks_of(
                    start as nat,
                    reads,
                )[j].end()
            },
        forall|i: int|
            0 <= i < reads.len() && start + stream_of(reads.take(i + 1)).len() <= u64::MAX ==> {
                &&& (#[trigger] chunks_of(start as nat, reads)[i]).start() == start + stream_of(
                    reads.take(i),
                ).len()
                &&& chunks_of(start as nat, reads)[i].end() == start + stream_of(
                    reads.take(i + 1),
                ).len()
            },
    decreases reads.len(),
{
    let offset = start as nat;
    if reads.len() > 0 {
        let earlier = reads.drop_last();
        let chunks = chunks_of(offset, reads);
        let last = reads.len() - 1;
        lemma_chunks_tile_the_stream(start, earlier);
        assert(chunks.drop_last() =~= chunks_of(offset, earlier));
        assert(reads.take(last + 1) =~= reads);
        assert forall|i: int| 0 <= i < reads.len() implies {
            &&& (#[trigger] chunks[i]).data == reads[i]
            &&& chunks[i].start() == offset_after(offset, reads.take(i))
            &&& chunks[i].end() == offset_after(offset, reads.take(i + 1))
        } by {
            if i < last {
                assert(earlier.take(i) =~= reads.take(i));
                assert(earlier.take(i + 1) =~= reads.take(i + 1));
            }
        }
        assert forall|i: int, j: int| 0 <= i < j < reads.len() implies {
            &&& (#[trigger] chunks[i]).start() <= (#[trigger] chunks[j]).start()
            &&& chunks[i].end() <= chunks[j].start()
            &&& chunks[i].end() <= chunks[j].end()
        } by {
            lemma_stream_grows(reads, i);
            lemma_stream_grows(reads, i + 1);
            lemma_stream_grows(reads, j);
            lemma_stream_grows(reads, j + 1);
            lemma_stream_grows(reads.take(j), i + 1);
        }
        assert forall|i: int|
            0 <= i < reads.len() && start + stream_of(reads.take(i + 1)).len()
                <= u64::MAX implies {
            &&& (#[trigger] chunks[i]).start() == start + stream_of(reads.take(i)).len()
            &&& chunks[i].end() == start + stream_of(reads.take(i + 1)).len()
        } by {
            lemma_stream_grows(reads.take(i + 1), i);
            assert(reads.take(i + 1).take(i) =~= reads.take(i));
        }
    }
}

/// Whatever a session reads, its history is the newest part of all that
/// its tab has written, as much of it as the capacity allows, and ends at
/// the session's offset, where the next chunk will start.
pub proof fn lemma_history_is_the_tail(history: ScrollbackView, reads: Seq<Seq<u8>>)
    requires
        history.valid(),
    ensures
        history_after(history, reads).valid(),
        history_after(history, reads).capacity == history.capacity,
        history_after(history, reads).next_index == offset_after(history.next_index, reads),
        history_after(history, reads).data == last_bytes(
            history.data + stream_of(reads),
            history.capacity,
        ),
    decreases reads.len(),
{
    if reads.len() > 0 {
        let before = history_after(history, reads.drop_last());
        let chunk = ChunkView { index: before.next_index, data: reads.last() };
        lemma_history_is_the_tail(history, reads.drop_last());
        lemma_push_in_order(before, chunk);
        lemma_last_bytes_twice(
            history.data + stream_of(reads.drop_last()),
            reads.last(),
            history.capacity,
        );
    }
}

} // verus!
