//! Following a growing file: the decisions of the follower loop and the
//! bookkeeping of what has been delivered.

use vstd::prelude::*;

verus! {

/// What the change watch on the file reported.
#[derive(Clone, Copy, Debug, PartialEq, Eq, Structural)]
pub enum WatchEvent {
    /// The file was written to.
    Write,
    /// Some other change, which does not concern the contents.
    Other,
    /// Nothing arrived since the last look.
    Idle,
    /// The watch is gone.
    Disconnected,
}

/// Why following stopped with an error.
#[derive(Clone, Copy, Debug, PartialEq, Eq, Structural)]
pub enum TailError {
    WatchDisconnected,
}

/// What the follower loop does next.
#[derive(Clone, Copy, Debug, PartialEq, Eq, Structural)]
pub enum TailStep {
    /// Read what the file holds from `offset` on and hand it to `deliver`.
    ReadFrom { offset: u64 },
    /// Wait one short interval, then poll for cancellation.
    Sleep,
    /// Poll for cancellation at once.
    Poll,
    /// Stop with an error.
    Fail { error: TailError },
}

/// The part of `file` from `offset` on: what a reader at `offset` has not
/// seen yet.
pub open spec fn unseen(file: Seq<u8>, offset: nat) -> Seq<u8> {
    file.subrange(offset as int, file.len() as int)
}

/// The concatenation of `parts`, in order.
pub open spec fn concat_all(parts: Seq<Seq<u8>>) -> Seq<u8>
    decreases parts.len(),
{
    if parts.len() == 0 {
        Seq::empty()
    } else {
        concat_all(parts.drop_last()) + parts.last()
    }
}

/// `text` with each line feed preceded by a carriage return, as a terminal
/// in raw mode needs it.
pub open spec fn crlf(text: Seq<u8>) -> Seq<u8>
    decreases text.len(),
{
    if text.len() == 0 {
        Seq::empty()
    } else if text.last() == 10u8 {
        crlf(text.drop_last()) + seq![13u8, 10u8]
    } else {
        crlf(text.drop_last()).push(text.last())
    }
}

/// The follower of one file: how many bytes of it were delivered.
pub struct TailFollower {
    offset: u64,
}

impl View for TailFollower {
    type V = nat;

    closed spec fn view(&self) -> nat {
        self.offset as nat
    }
}

impl TailFollower {
    /// A follower that replays the file from its start.
    pub fn new() -> (r: TailFollower)
        ensures
            r@ == 0,
    {
        TailFollower { offset: 0 }
    }

    /// The number of bytes delivered so far.
    pub fn offset(&self) -> (r: u64)
        ensures
            r == self@,
    {
        self.offset
    }

    /// The first step of a follower: read the file from its offset, which
    /// for a new follower is its start, without waiting for a change.
    pub fn first_step(&self) -> (r: TailStep)
        ensures
            r == (TailStep::ReadFrom { offset: self@ as u64 }),
    {
        TailStep::ReadFrom { offset: self.offset }
    }

    /// What to do on `event`: read on a write, fail when the watch is gone,
    /// otherwise go on polling.
    pub fn on_event(&self, event: WatchEvent) -> (r: TailStep)
        ensures
            event == WatchEvent::Write ==> r == (TailStep::ReadFrom { offset: self@ as u64 }),
            event == WatchEvent::Other ==> r == TailStep::Poll,
            event == WatchEvent::Idle ==> r == TailStep::Sleep,
            event == WatchEvent::Disconnected ==> r == (TailStep::Fail { error: TailError::WatchDisconnected }),
    {
        match event {
            WatchEvent::Write => TailStep::ReadFrom { offset: self.offset },
            WatchEvent::Other => TailStep::Poll,
            WatchEvent::Idle => TailStep::Sleep,
            WatchEvent::Disconnected => TailStep::Fail { error: TailError::WatchDisconnected },
        }
    }

    /// Takes `fresh`, the bytes read from the current offset to the end of
    /// the file, and returns the chunk to hand to the consumer: `None` when
    /// nothing is new. The offset moves past `fresh`, so no byte is handed
    /// out twice.
    pub fn deliver(&mut self, fresh: Vec<u8>) -> (r: Option<Vec<u8>>)
        requires
            old(self)@ + fresh@.len() <= u64::MAX,
        ensures
            final(self)@ == old(self)@ + fresh@.len(),
            fresh@.len() == 0 <==> r is None,
            r matches Some(chunk) ==> chunk@ == fresh@,
    {
        if fresh.len() == 0 {
            None
        } else {
            self.offset = self.offset + fresh.len() as u64;
            Some(fresh)
        }
    }
}

/// `text` with each line feed turned into a carriage return and a line feed.
pub fn raw_newlines(text: &[u8]) -> (r: Vec<u8>)
    ensures
        r@ == crlf(text@),
{
    let mut out: Vec<u8> = Vec::new();
    let mut i: usize = 0;
    while i < text.len()
        invariant
            i <= text@.len(),
            out@ == crlf(text@.subrange(0, i as int)),
        decreases text@.len() - i,
    {
        assert(text@.subrange(0, i + 1).drop_last() == text@.subrange(0, i as int));
        if text[i] == 10u8 {
            out.push(13u8);
            out.push(10u8);
        } else {
            out.push(text[i]);
        }
        i = i + 1;
        assert(out@ =~= crlf(text@.subrange(0, i as int)));
    }
    assert(text@.subrange(0, text@.len() as int) == text@);
    out
}

/// A file that grows by the appends `parts`, read after each append from
/// the offset that the reads before reached, yields each append exactly:
/// the `k`-th read returns the `k`-th append, neither repeated nor
/// reordered, and the reads together make up the file.
pub proof fn lemma_appends_replayed(parts: Seq<Seq<u8>>, k: int)
    requires
        0 < k <= parts.len(),
    ensures
        unseen(concat_all(parts.take(k)), concat_all(parts.take(k - 1)).len()) == parts[k - 1],
        concat_all(parts.take(k - 1)) + unseen(concat_all(parts.take(k)), concat_all(parts.take(k - 1)).len())
            == concat_all(parts.take(k)),
{
    assert(parts.take(k).drop_last() =~= parts.take(k - 1));
    let before = concat_all(parts.take(k - 1));
    let after = concat_all(parts.take(k));
    assert(after == before + parts[k - 1]);
    assert(unseen(after, before.len()) =~= parts[k - 1]);
    assert(before + parts[k - 1] =~= after);
}

} // verus!
