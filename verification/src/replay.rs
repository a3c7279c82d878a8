use vstd::prelude::*;

verus! {

/// A byte stream that replays an already-consumed prefix before the live
/// remainder of the connection. Reads drain the prefix in its original
/// order; the wrapper itself adds, drops and reorders nothing, so the bytes
/// observable through it are exactly the bytes the remote peer sent.
pub struct ReplayableStream {
    prefix: Vec<u8>,
    pos: usize,
}

impl ReplayableStream {
    /// The prefix this stream was seeded with.
    pub closed spec fn prefix_view(self) -> Seq<u8> {
        self.prefix@
    }

    /// Prefix bytes already handed back out, in order.
    pub closed spec fn consumed(self) -> Seq<u8> {
        self.prefix@.take(self.pos as int)
    }

    /// Prefix bytes still to be replayed before the live stream.
    pub closed spec fn remaining(self) -> Seq<u8> {
        self.prefix@.skip(self.pos as int)
    }

    pub closed spec fn wf(self) -> bool {
        self.pos <= self.prefix@.len()
    }

    pub fn new(prefix: Vec<u8>) -> (s: ReplayableStream)
        ensures
            s.wf(),
            s.prefix_view() == prefix@,
            s.remaining() == prefix@,
            s.consumed() == Seq::<u8>::empty(),
    {
        let s = ReplayableStream { prefix, pos: 0 };
        proof {
            assert(s.remaining() =~= s.prefix@);
            assert(s.consumed() =~= Seq::<u8>::empty());
        }
        s
    }

    /// How many prefix bytes are still pending replay.
    pub fn pending(&self) -> (n: usize)
        requires
            self.wf(),
        ensures
            n == self.remaining().len(),
    {
        self.prefix.len() - self.pos
    }

    /// Hand out the next chunk of the prefix, at most `max` bytes long: the
    /// chunk comes off the front of what remains, so no byte is lost,
    /// duplicated or reordered.
    pub fn read_into(&mut self, max: usize) -> (chunk: Vec<u8>)
        requires
            old(self).wf(),
        ensures
            final(self).wf(),
            final(self).prefix_view() == old(self).prefix_view(),
            max as int <= old(self).remaining().len() ==> chunk@.len() == max as int,
            max as int > old(self).remaining().len() ==> chunk@.len() == old(
                self,
            ).remaining().len(),
            old(self).remaining() == chunk@ + final(self).remaining(),
            final(self).consumed() == old(self).consumed() + chunk@,
    {
        let len = self.prefix.len();
        let avail = len - self.pos;
        let n = if max <= avail {
            max
        } else {
            avail
        };
        let start = self.pos;
        let mut chunk: Vec<u8> = Vec::new();
        let mut i: usize = 0;
        while i < n
            invariant
                *self == *old(self),
                old(self).wf(),
                start == self.pos,
                i <= n,
                len == self.prefix@.len(),
                self.pos + n <= len,
                chunk@ == self.prefix@.subrange(start as int, start as int + i as int),
            decreases n - i,
        {
            let b = self.prefix[self.pos + i];
            chunk.push(b);
            proof {
                assert(chunk@ =~= self.prefix@.subrange(start as int, start as int + i as int + 1));
            }
            i += 1;
        }
        self.pos = self.pos + n;
        proof {
            assert(old(self).remaining() =~= chunk@ + self.remaining());
            assert(self.consumed() =~= old(self).consumed() + chunk@);
        }
        chunk
    }

    /// Replay the whole pending prefix at once: what a reader of this stream
    /// observes before any live byte.
    pub fn drain_all(&mut self) -> (out: Vec<u8>)
        requires
            old(self).wf(),
        ensures
            final(self).wf(),
            out@ == old(self).remaining(),
            final(self).remaining() == Seq::<u8>::empty(),
    {
        let n = self.pending();
        let out = self.read_into(n);
        proof {
            assert(self.remaining() =~= Seq::<u8>::empty());
            assert(out@ =~= old(self).remaining());
        }
        out
    }
}

/// Byte preservation: at every point in a replayable stream's life, the bytes
/// it has already handed out, followed by the bytes it will still hand out and
/// then the live remainder of the connection, are exactly the seeded prefix
/// followed by that live remainder — nothing is lost, duplicated or reordered
/// by peeking and buffering.
pub proof fn lemma_byte_preservation(s: ReplayableStream, live: Seq<u8>)
    requires
        s.wf(),
    ensures
        s.consumed() + s.remaining() + live == s.prefix_view() + live,
{
    assert(s.consumed() + s.remaining() =~= s.prefix_view());
    assert(s.consumed() + s.remaining() + live =~= s.prefix_view() + live);
}

} // verus!
