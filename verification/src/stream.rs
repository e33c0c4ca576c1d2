//! The bounded set of data streams a runtime node keeps open: at most `capacity` of them, each
//! under its own stream identifier; which streams may be opened on a session; and polling the
//! inbound ones in turn.

use vstd::prelude::*;

use crate::bytes::bytes_eq;
use crate::text::str_eq;

verus! {

#[derive(Debug, Clone, Copy, PartialEq, Eq)]
pub enum StreamRegistryError<E> {
    StreamNotFound,
    DuplicateStream,
    ResourceLimit,
    /// The transport refused to open the stream.
    Open(E),
}

/// Why a chunk was not sent; the chunk comes back either way.
#[derive(Debug, Clone, PartialEq, Eq)]
pub enum SendFailure<C> {
    /// The stream is closed (or unknown); it no longer holds a slot.
    Closed(C),
    /// The stream's queue is full; try again later.
    Full(C),
}

pub struct StreamRegistryView<H> {
    pub capacity: usize,
    pub entries: Seq<([u8; 16], H)>,
}

impl<H> StreamRegistryView<H> {
    /// Within capacity, and no identifier twice.
    pub open spec fn wf(self) -> bool {
        &&& self.capacity > 0
        &&& self.entries.len() <= self.capacity
        &&& forall|i: int, j: int|
            0 <= i < self.entries.len() && 0 <= j < self.entries.len() && i != j
                ==> (#[trigger] self.entries[i]).0@ != (#[trigger] self.entries[j]).0@
    }

    pub open spec fn holds(self, id: [u8; 16]) -> bool {
        exists|i: int| 0 <= i < self.entries.len() && (#[trigger] self.entries[i]).0@ == id@
    }

    pub open spec fn index_of(self, id: [u8; 16]) -> int {
        choose|i: int| 0 <= i < self.entries.len() && (#[trigger] self.entries[i]).0@ == id@
    }
}

/// Why a stream may not be opened on the current session.
#[derive(Debug, Clone, Copy, PartialEq, Eq, Structural)]
pub enum OpenRefusal {
    /// The session has no context (it is not active).
    InvalidState,
    /// The stream names another session.
    InvalidSession,
    /// The stream's capability, at its version, was not negotiated on this session.
    CapabilityNotNegotiated,
}

pub open spec fn negotiated_has(negotiated: Seq<(String, u32)>, capability: Seq<char>, version: u32)
    -> bool {
    exists|i: int|
        0 <= i < negotiated.len() && (#[trigger] negotiated[i]).0@ == capability && negotiated[i].1
            == version
}

/// Checks that a stream opened on a session belongs to it: the session must have a context
/// (`context_session`, its session id), the stream must name that session, and the stream's
/// capability must be among those negotiated on it at the same version.
pub fn validate_open_for_session(
    context_session: Option<&[u8; 16]>,
    negotiated: &Vec<(String, u32)>,
    stream_session: &[u8; 16],
    capability: &str,
    version: u32,
) -> (r: Result<(), OpenRefusal>)
    ensures
        context_session is None ==> r == Err::<(), _>(OpenRefusal::InvalidState),
        context_session matches Some(id) && id@ != stream_session@ ==> r == Err::<(), _>(
            OpenRefusal::InvalidSession,
        ),
        context_session matches Some(id) && id@ == stream_session@ ==> r == if negotiated_has(
            negotiated@,
            capability@,
            version,
        ) {
            Ok::<(), OpenRefusal>(())
        } else {
            Err(OpenRefusal::CapabilityNotNegotiated)
        },
{
    let id = match context_session {
        Some(id) => id,
        None => return Err(OpenRefusal::InvalidState),
    };
    if !bytes_eq(id, stream_session) {
        return Err(OpenRefusal::InvalidSession);
    }
    let mut i: usize = 0;
    while i < negotiated.len()
        invariant
            i <= negotiated@.len(),
            context_session == Some(id),
            id@ == stream_session@,
            forall|j: int|
                0 <= j < i ==> !((#[trigger] negotiated@[j]).0@ == capability@ && negotiated@[j].1
                    == version),
        decreases negotiated@.len() - i,
    {
        if negotiated[i].1 == version && str_eq(negotiated[i].0.as_str(), capability) {
            assert(negotiated@[i as int].0@ == capability@);
            return Ok(());
        }
        i = i + 1;
    }
    Err(OpenRefusal::CapabilityNotNegotiated)
}

/// What polling one inbound stream gave.
#[derive(Debug, Clone, PartialEq, Eq)]
pub enum ChunkReceipt {
    Chunk(Vec<u8>),
    Empty,
    Finished,
    Cancelled,
}

/// Something that happened on an inbound stream.
#[derive(Debug, Clone, PartialEq, Eq)]
pub enum StreamEvent {
    Chunk([u8; 16], Vec<u8>),
    Finished([u8; 16]),
    Cancelled([u8; 16]),
}

/// The first `k` streams of `before` were polled and had nothing: `after` keeps them, under
/// the same identifiers, with the handles that polling gave back.
pub open spec fn polled_quiet<H, P: Fn(H) -> (H, ChunkReceipt)>(
    poll: P,
    before: Seq<([u8; 16], H)>,
    after: Seq<([u8; 16], H)>,
    k: int,
) -> bool {
    forall|i: int|
        0 <= i < k ==> (#[trigger] after[i]).0 == before[i].0 && poll.ensures(
            (before[i].1,),
            (after[i].1, ChunkReceipt::Empty),
        )
}

/// Open streams by identifier, never more than the capacity.
pub struct StreamRegistry<H> {
    capacity: usize,
    entries: Vec<([u8; 16], H)>,
}

impl<H> View for StreamRegistry<H> {
    type V = StreamRegistryView<H>;

    closed spec fn view(&self) -> StreamRegistryView<H> {
        StreamRegistryView { capacity: self.capacity, entries: self.entries@ }
    }
}

impl<H> StreamRegistry<H> {
    pub fn new(capacity: usize) -> (r: Self)
        requires
            capacity > 0,
        ensures
            r@.wf(),
            r@.capacity == capacity,
            r@.entries.len() == 0,
    {
        StreamRegistry { capacity, entries: Vec::new() }
    }

    pub fn len(&self) -> (r: usize)
        ensures
            r == self@.entries.len(),
    {
        self.entries.len()
    }

    pub fn is_full(&self) -> (r: bool)
        ensures
            r == (self@.entries.len() >= self@.capacity),
    {
        self.entries.len() >= self.capacity
    }

    /// Where the stream with the given identifier is kept, if it is.
    pub fn position(&self, id: &[u8; 16]) -> (r: Option<usize>)
        ensures
            match r {
                Some(p) => p < self@.entries.len() && self@.entries[p as int].0@ == id@,
                None => !self@.holds(*id),
            },
    {
        let mut i: usize = 0;
        while i < self.entries.len()
            invariant
                i <= self.entries@.len(),
                forall|j: int| 0 <= j < i ==> (#[trigger] self.entries@[j]).0@ != id@,
            decreases self.entries@.len() - i,
        {
            if bytes_eq(&self.entries[i].0, id) {
                return Some(i);
            }
            i = i + 1;
        }
        None
    }

    proof fn lemma_index_unique(v: StreamRegistryView<H>, p: int, id: [u8; 16])
        requires
            v.wf(),
            0 <= p < v.entries.len(),
            v.entries[p].0@ == id@,
        ensures
            v.holds(id),
            v.index_of(id) == p,
    {
        assert(v.entries[p].0@ == id@);
    }

    fn remove_at(&mut self, p: usize) -> (h: H)
        requires
            old(self)@.wf(),
            p < old(self)@.entries.len(),
        ensures
            final(self)@.wf(),
            final(self)@.capacity == old(self)@.capacity,
            final(self)@.entries == old(self)@.entries.remove(p as int),
            h == old(self)@.entries[p as int].1,
    {
        let (_, h) = self.entries.remove(p);
        assert forall|i: int, j: int|
            0 <= i < self@.entries.len() && 0 <= j < self@.entries.len() && i != j implies (
            #[trigger] self@.entries[i]).0@ != (#[trigger] self@.entries[j]).0@ by {
            let oi = if i < p {
                i
            } else {
                i + 1
            };
            let oj = if j < p {
                j
            } else {
                j + 1
            };
            assert(self@.entries[i] == old(self)@.entries[oi]);
            assert(self@.entries[j] == old(self)@.entries[oj]);
        }
        h
    }

    fn push_new(&mut self, id: [u8; 16], h: H)
        requires
            old(self)@.wf(),
            old(self)@.entries.len() < old(self)@.capacity,
            !old(self)@.holds(id),
        ensures
            final(self)@.wf(),
            final(self)@.capacity == old(self)@.capacity,
            final(self)@.entries == old(self)@.entries.push((id, h)),
    {
        self.entries.push((id, h));
        assert forall|i: int, j: int|
            0 <= i < self@.entries.len() && 0 <= j < self@.entries.len() && i != j implies (
            #[trigger] self@.entries[i]).0@ != (#[trigger] self@.entries[j]).0@ by {
            if i == old(self)@.entries.len() {
                assert(self@.entries[j] == old(self)@.entries[j]);
            } else if j == old(self)@.entries.len() {
                assert(self@.entries[i] == old(self)@.entries[i]);
            }
        }
    }

    /// Opens a stream under a new identifier: refused when the registry is full or already
    /// holds the identifier, in which cases `open` is not called; otherwise `open` opens it on
    /// the transport, and the stream is kept if that succeeded.
    pub fn open<E, Open>(&mut self, id: [u8; 16], open: Open) -> (r: Result<(), StreamRegistryError<E>>) where
        Open: FnOnce() -> Result<H, E>,

        requires
            old(self)@.wf(),
            open.requires(()),
        ensures
            final(self)@.wf(),
            final(self)@.capacity == old(self)@.capacity,
            old(self)@.entries.len() >= old(self)@.capacity ==> r == Err::<(), _>(
                StreamRegistryError::<E>::ResourceLimit,
            ) && final(self)@ == old(self)@,
            old(self)@.entries.len() < old(self)@.capacity && old(self)@.holds(id) ==> r == Err::<
                (),
                _,
            >(StreamRegistryError::<E>::DuplicateStream) && final(self)@ == old(self)@,
            old(self)@.entries.len() < old(self)@.capacity && !old(self)@.holds(id) ==> exists|
                out: Result<H, E>,
            |
                #![trigger open.ensures((), out)]
                open.ensures((), out) && match out {
                    Ok(h) => r is Ok && final(self)@.entries == old(self)@.entries.push((id, h)),
                    Err(e) => r == Err::<(), _>(StreamRegistryError::Open(e)) && final(self)@
                        == old(self)@,
                },
    {
        if self.entries.len() >= self.capacity {
            return Err(StreamRegistryError::ResourceLimit);
        }
        if self.position(&id).is_some() {
            return Err(StreamRegistryError::DuplicateStream);
        }
        let out = open();
        match out {
            Ok(h) => {
                let ghost kept = h;
                self.push_new(id, h);
                assert(open.ensures((), Ok::<H, E>(kept)));
                Ok(())
            },
            Err(e) => Err(StreamRegistryError::Open(e)),
        }
    }

    /// Keeps an admitted stream under its identifier, if there is room and the identifier is
    /// new; otherwise hands the stream back with the reason.
    pub fn insert(&mut self, id: [u8; 16], h: H) -> (r: Result<(), (H, StreamRegistryError<()>)>)
        requires
            old(self)@.wf(),
        ensures
            final(self)@.wf(),
            final(self)@.capacity == old(self)@.capacity,
            old(self)@.entries.len() >= old(self)@.capacity ==> r == Err::<(), _>(
                (h, StreamRegistryError::<()>::ResourceLimit),
            ) && final(self)@ == old(self)@,
            old(self)@.entries.len() < old(self)@.capacity && old(self)@.holds(id) ==> r == Err::<
                (),
                _,
            >((h, StreamRegistryError::<()>::DuplicateStream)) && final(self)@ == old(self)@,
            old(self)@.entries.len() < old(self)@.capacity && !old(self)@.holds(id) ==> r is Ok
                && final(self)@.entries == old(self)@.entries.push((id, h)),
    {
        if self.entries.len() >= self.capacity {
            return Err((h, StreamRegistryError::ResourceLimit));
        }
        if self.position(&id).is_some() {
            return Err((h, StreamRegistryError::DuplicateStream));
        }
        self.push_new(id, h);
        Ok(())
    }

    /// Sends a chunk on a stream with `send`. An unknown stream refuses it as closed; a stream
    /// that reports itself closed is dropped, which frees its slot.
    pub fn try_send<C, Send>(&mut self, id: &[u8; 16], chunk: C, send: Send) -> (r: Result<
        (),
        SendFailure<C>,
    >) where Send: FnOnce(H, C) -> (H, Result<(), SendFailure<C>>)
        requires
            old(self)@.wf(),
            forall|h: H, c: C| send.requires((h, c)),
        ensures
            final(self)@.wf(),
            final(self)@.capacity == old(self)@.capacity,
            !old(self)@.holds(*id) ==> r == Err::<(), _>(SendFailure::Closed(chunk))
                && final(self)@ == old(self)@,
            old(self)@.holds(*id) ==> {
                let p = old(self)@.index_of(*id);
                exists|h: H, out: Result<(), SendFailure<C>>|
                    #![trigger send.ensures((old(self)@.entries[p].1, chunk), (h, out))]
                    send.ensures((old(self)@.entries[p].1, chunk), (h, out)) && r == out && match out {
                        Err(SendFailure::Closed(_)) => final(self)@.entries == old(self)@.entries.remove(p),
                        _ => final(self)@.entries == old(self)@.entries.update(p, (*id, h)),
                    }
            },
    {
        let p = match self.position(id) {
            Some(p) => p,
            None => return Err(SendFailure::Closed(chunk)),
        };
        proof {
            Self::lemma_index_unique(self@, p as int, *id);
        }
        let stream_id = *id;
        let handle = self.remove_at(p);
        let (handle, out) = send(handle, chunk);
        let ghost kept = handle;
        match out {
            Err(SendFailure::Closed(c)) => Err(SendFailure::Closed(c)),
            other => {
                self.entries.insert(p, (stream_id, handle));
                assert(self@.entries =~= old(self)@.entries.update(p as int, (*id, kept)));
                proof {
                    let v = self@;
                    assert forall|i: int, j: int|
                        0 <= i < v.entries.len() && 0 <= j < v.entries.len() && i != j implies (
                        #[trigger] v.entries[i]).0@ != (#[trigger] v.entries[j]).0@ by {
                        assert(v.entries[i].0@ == old(self)@.entries[i].0@);
                        assert(v.entries[j].0@ == old(self)@.entries[j].0@);
                    }
                }
                other
            },
        }
    }

    /// Takes the stream with the given identifier out of the registry, to be finished or
    /// cancelled.
    pub fn take(&mut self, id: &[u8; 16]) -> (r: Result<H, StreamRegistryError<()>>)
        requires
            old(self)@.wf(),
        ensures
            final(self)@.wf(),
            final(self)@.capacity == old(self)@.capacity,
            !old(self)@.holds(*id) ==> r == Err::<H, _>(StreamRegistryError::<()>::StreamNotFound)
                && final(self)@ == old(self)@,
            old(self)@.holds(*id) ==> r == Ok::<H, StreamRegistryError<()>>(
                old(self)@.entries[old(self)@.index_of(*id)].1,
            ) && final(self)@.entries == old(self)@.entries.remove(old(self)@.index_of(*id)),
    {
        let p = match self.position(id) {
            Some(p) => p,
            None => return Err(StreamRegistryError::StreamNotFound),
        };
        proof {
            Self::lemma_index_unique(self@, p as int, *id);
        }
        Ok(self.remove_at(p))
    }

    proof fn lemma_same_ids(v: StreamRegistryView<H>, entries: Seq<([u8; 16], H)>)
        requires
            v.wf(),
            entries.len() == v.entries.len(),
            forall|i: int| 0 <= i < entries.len() ==> (#[trigger] entries[i]).0 == v.entries[i].0,
        ensures
            (StreamRegistryView { capacity: v.capacity, entries }).wf(),
    {
        assert forall|i: int, j: int|
            0 <= i < entries.len() && 0 <= j < entries.len() && i != j implies (
            #[trigger] entries[i]).0@ != (#[trigger] entries[j]).0@ by {
            assert(entries[i].0 == v.entries[i].0);
            assert(entries[j].0 == v.entries[j].0);
        }
    }

    proof fn lemma_remove_wf(v: StreamRegistryView<H>, k: int)
        requires
            v.wf(),
            0 <= k < v.entries.len(),
        ensures
            (StreamRegistryView { capacity: v.capacity, entries: v.entries.remove(k) }).wf(),
    {
        let e = v.entries.remove(k);
        assert forall|i: int, j: int|
            0 <= i < e.len() && 0 <= j < e.len() && i != j implies (#[trigger] e[i]).0@ != (
            #[trigger] e[j]).0@ by {
            let oi = if i < k {
                i
            } else {
                i + 1
            };
            let oj = if j < k {
                j
            } else {
                j + 1
            };
            assert(e[i] == v.entries[oi]);
            assert(e[j] == v.entries[oj]);
        }
    }

    /// Polls the streams in the order they were kept, with `poll`, until one has something:
    /// a chunk (the stream stays), or its end, finished or cancelled (the stream leaves and
    /// frees its slot). `None` when every stream had nothing. Every stream polled keeps its
    /// place, with the handle that polling gave back.
    pub fn receive_next<P>(&mut self, poll: P) -> (r: Option<StreamEvent>) where
        P: Fn(H) -> (H, ChunkReceipt),

        requires
            old(self)@.wf(),
            forall|h: H| poll.requires((h,)),
        ensures
            final(self)@.wf(),
            final(self)@.capacity == old(self)@.capacity,
            r is None ==> final(self)@.entries.len() == old(self)@.entries.len() && polled_quiet(
                poll,
                old(self)@.entries,
                final(self)@.entries,
                old(self)@.entries.len() as int,
            ),
            r is Some ==> exists|k: int, h: H, got: ChunkReceipt|
                #![trigger poll.ensures((old(self)@.entries[k].1,), (h, got))]
                {
                    let before = old(self)@.entries;
                    let after = final(self)@.entries;
                    &&& 0 <= k < before.len()
                    &&& polled_quiet(poll, before, after, k)
                    &&& poll.ensures((before[k].1,), (h, got))
                    &&& match got {
                        ChunkReceipt::Empty => false,
                        ChunkReceipt::Chunk(bytes) => {
                            &&& r == Some(StreamEvent::Chunk(before[k].0, bytes))
                            &&& after.len() == before.len()
                            &&& after[k] == (before[k].0, h)
                            &&& after.subrange(k + 1, after.len() as int) == before.subrange(
                                k + 1,
                                before.len() as int,
                            )
                        },
                        ChunkReceipt::Finished => {
                            &&& r == Some(StreamEvent::Finished(before[k].0))
                            &&& after == after.subrange(0, k) + before.subrange(
                                k + 1,
                                before.len() as int,
                            )
                        },
                        ChunkReceipt::Cancelled => {
                            &&& r == Some(StreamEvent::Cancelled(before[k].0))
                            &&& after == after.subrange(0, k) + before.subrange(
                                k + 1,
                                before.len() as int,
                            )
                        },
                    }
                },
    {
        let mut rest: Vec<([u8; 16], H)> = Vec::new();
        std::mem::swap(&mut rest, &mut self.entries);
        let ghost all = rest@;
        let ghost cap = self.capacity;
        let mut kept: Vec<([u8; 16], H)> = Vec::new();
        while rest.len() > 0
            invariant
                all == old(self)@.entries,
                cap == old(self)@.capacity,
                self.capacity == cap,
                old(self)@.wf(),
                forall|h: H| poll.requires((h,)),
                kept@.len() + rest@.len() == all.len(),
                forall|i: int| 0 <= i < rest@.len() ==> rest@[i] == all[kept@.len() + i],
                polled_quiet(poll, all, kept@, kept@.len() as int),
            decreases rest@.len(),
        {
            let ghost k = kept@.len() as int;
            let (id, handle) = rest.remove(0);
            let ghost before = handle;
            let (handle, got) = poll(handle);
            assert(all[k] == (id, before));
            match got {
                ChunkReceipt::Empty => {
                    kept.push((id, handle));
                },
                ChunkReceipt::Chunk(bytes) => {
                    kept.push((id, handle));
                    let ghost front = kept@;
                    let ghost back = rest@;
                    kept.append(&mut rest);
                    proof {
                        assert(kept@ =~= front + back);
                        assert(back =~= all.subrange(k + 1, all.len() as int));
                        assert(kept@.subrange(k + 1, kept@.len() as int) =~= back);
                        assert forall|i: int| 0 <= i < kept@.len() implies (#[trigger] kept@[i]).0
                            == all[i].0 by {
                            if i > k {
                                assert(kept@[i] == back[i - k - 1]);
                            }
                        }
                        Self::lemma_same_ids(old(self)@, kept@);
                        assert(polled_quiet(poll, all, kept@, k));
                        assert(poll.ensures((all[k].1,), (handle, got)));
                    }
                    self.entries = kept;
                    return Some(StreamEvent::Chunk(id, bytes));
                },
                ChunkReceipt::Finished => {
                    let ghost front = kept@;
                    let ghost back = rest@;
                    kept.append(&mut rest);
                    proof {
                        assert(kept@ =~= front + back);
                        assert(back =~= all.subrange(k + 1, all.len() as int));
                        assert(kept@.subrange(0, k) =~= front);
                        Self::lemma_remove_wf(old(self)@, k);
                        assert forall|i: int| 0 <= i < kept@.len() implies (#[trigger] kept@[i]).0
                            == all.remove(k)[i].0 by {
                            if i >= k {
                                assert(kept@[i] == back[i - k]);
                            }
                        }
                        Self::lemma_same_ids(
                            StreamRegistryView { capacity: cap, entries: all.remove(k) },
                            kept@,
                        );
                        assert(poll.ensures((all[k].1,), (handle, got)));
                    }
                    self.entries = kept;
                    return Some(StreamEvent::Finished(id));
                },
                ChunkReceipt::Cancelled => {
                    let ghost front = kept@;
                    let ghost back = rest@;
                    kept.append(&mut rest);
                    proof {
                        assert(kept@ =~= front + back);
                        assert(back =~= all.subrange(k + 1, all.len() as int));
                        assert(kept@.subrange(0, k) =~= front);
                        Self::lemma_remove_wf(old(self)@, k);
                        assert forall|i: int| 0 <= i < kept@.len() implies (#[trigger] kept@[i]).0
                            == all.remove(k)[i].0 by {
                            if i >= k {
                                assert(kept@[i] == back[i - k]);
                            }
                        }
                        Self::lemma_same_ids(
                            StreamRegistryView { capacity: cap, entries: all.remove(k) },
                            kept@,
                        );
                        assert(poll.ensures((all[k].1,), (handle, got)));
                    }
                    self.entries = kept;
                    return Some(StreamEvent::Cancelled(id));
                },
            }
        }
        proof {
            Self::lemma_same_ids(old(self)@, kept@);
        }
        self.entries = kept;
        None
    }

    /// Takes every stream out, in the order they were kept, to be cancelled.
    pub fn take_all(&mut self) -> (r: Vec<H>)
        requires
            old(self)@.wf(),
        ensures
            final(self)@.wf(),
            final(self)@.capacity == old(self)@.capacity,
            final(self)@.entries.len() == 0,
            r@.len() == old(self)@.entries.len(),
            forall|i: int| 0 <= i < r@.len() ==> r@[i] == old(self)@.entries[i].1,
    {
        let mut entries: Vec<([u8; 16], H)> = Vec::new();
        std::mem::swap(&mut entries, &mut self.entries);
        let ghost all = entries@;
        let mut taken: Vec<H> = Vec::new();
        while entries.len() > 0
            invariant
                all.len() == taken@.len() + entries@.len(),
                forall|i: int| 0 <= i < entries@.len() ==> entries@[i] == all[taken@.len() + i],
                forall|i: int| 0 <= i < taken@.len() ==> taken@[i] == all[i].1,
            decreases entries@.len(),
        {
            let (_, h) = entries.remove(0);
            taken.push(h);
        }
        taken
    }
}

} // verus!
