use vstd::prelude::*;
use crate::addr::Addrs;
use crate::client_hello::{match_client_hello, spec_match_client_hello, Match};
use crate::identity::{Conditional, HasConfig, Name, PeerIdentity};

verus! {

/// Size of the stack buffer for the initial non-destructive peek; comfortably
/// larger than the ClientHello a cooperating proxy sends.
pub const PEEK_CAPACITY: usize = 512;

/// Ceiling of the growable buffer for destructive reads: ordinary
/// ClientHellos always fit, and worst-case memory per connection is bounded.
pub const BUFFER_CAPACITY: usize = 8192;

/// What to do after the initial peek.
#[derive(Clone, Copy, Debug, PartialEq, Eq, Structural)]
pub enum PeekStep {
    /// The peeked bytes are a ClientHello for this proxy: terminate TLS over
    /// the untouched stream.
    Terminate,
    /// Definitely not such a ClientHello: pass the stream through with no
    /// byte consumed.
    PassThroughEmpty,
    /// Too few bytes to tell: escalate to destructive buffered reads.
    StartBuffer,
}

/// What to do after one destructive read in the buffer phase.
#[derive(Clone, Copy, Debug, PartialEq, Eq, Structural)]
pub enum SniffStep {
    /// The accumulated bytes are a ClientHello for this proxy: terminate TLS,
    /// replaying the buffered prefix into the handshake.
    Terminate,
    /// Give up on TLS: pass the stream through, the buffered bytes replayed
    /// ahead of it.
    PassThrough,
    /// Still undecided and below the ceiling: read again.
    ReadMore,
}

/// Decision after the peek: the three-way classification mapped onto the
/// sniffer's states.
pub open spec fn spec_peek_step(peeked: Seq<u8>, name: Seq<u8>) -> PeekStep {
    match spec_match_client_hello(peeked, name) {
        Match::Matched => PeekStep::Terminate,
        Match::NotMatched => PeekStep::PassThroughEmpty,
        Match::Incomplete => PeekStep::StartBuffer,
    }
}

/// Decision after a destructive read of `chunk` on top of `buffered`: end of
/// stream or a non-match ends in passthrough, a match terminates TLS, and an
/// undecided buffer continues only while below the ceiling.
pub open spec fn spec_sniff_step(buffered: Seq<u8>, chunk: Seq<u8>, name: Seq<u8>) -> SniffStep {
    if chunk.len() == 0 {
        SniffStep::PassThrough
    } else {
        match spec_match_client_hello(buffered + chunk, name) {
            Match::Matched => SniffStep::Terminate,
            Match::NotMatched => SniffStep::PassThrough,
            Match::Incomplete => if buffered.len() + chunk.len() >= BUFFER_CAPACITY as int {
                SniffStep::PassThrough
            } else {
                SniffStep::ReadMore
            },
        }
    }
}

/// The TLS sniffing state machine of one connection: classifies peeked and
/// buffered bytes against the local identity name and retains every
/// destructively read byte for replay.
pub struct TlsSniffer {
    local_name: Name,
    buffered: Vec<u8>,
}

impl TlsSniffer {
    /// The local identity name incoming SNI is matched against.
    pub closed spec fn name_view(self) -> Seq<u8> {
        self.local_name@
    }

    /// Every byte destructively consumed from the stream so far, in order.
    pub closed spec fn buffered_view(self) -> Seq<u8> {
        self.buffered@
    }

    pub fn new(local_name: Name) -> (s: TlsSniffer)
        ensures
            s.name_view() == local_name@,
            s.buffered_view() == Seq::<u8>::empty(),
    {
        let s = TlsSniffer { local_name, buffered: Vec::new() };
        proof {
            assert(s.buffered_view() =~= Seq::<u8>::empty());
        }
        s
    }

    /// Classify a non-destructive peek of the stream's first bytes.
    pub fn on_peek(&self, peeked: &Vec<u8>) -> (r: PeekStep)
        ensures
            r == spec_peek_step(peeked@, self.name_view()),
    {
        match match_client_hello(peeked, &self.local_name) {
            Match::Matched => PeekStep::Terminate,
            Match::NotMatched => PeekStep::PassThroughEmpty,
            Match::Incomplete => PeekStep::StartBuffer,
        }
    }

    /// Take in one destructive read. An empty chunk is end of stream. The
    /// chunk is retained: no consumed byte is ever dropped.
    pub fn on_read(&mut self, chunk: Vec<u8>) -> (r: SniffStep)
        requires
            old(self).buffered_view().len() + chunk@.len() <= BUFFER_CAPACITY as int,
        ensures
            final(self).name_view() == old(self).name_view(),
            chunk@.len() > 0 ==> final(self).buffered_view() == old(self).buffered_view()
                + chunk@,
            chunk@.len() == 0 ==> final(self).buffered_view() == old(self).buffered_view(),
            r == spec_sniff_step(old(self).buffered_view(), chunk@, old(self).name_view()),
    {
        let mut chunk = chunk;
        if chunk.len() == 0 {
            return SniffStep::PassThrough;
        }
        self.buffered.append(&mut chunk);
        match match_client_hello(&self.buffered, &self.local_name) {
            Match::Matched => SniffStep::Terminate,
            Match::NotMatched => SniffStep::PassThrough,
            Match::Incomplete => {
                if self.buffered.len() >= BUFFER_CAPACITY {
                    SniffStep::PassThrough
                } else {
                    SniffStep::ReadMore
                }
            },
        }
    }

    /// How many bytes the buffer phase has consumed so far; the driver reads
    /// at most the ceiling's remainder.
    pub fn buffered_len(&self) -> (n: usize)
        ensures
            n == self.buffered_view().len(),
    {
        self.buffered.len()
    }

    /// Surrender the consumed bytes, to seed the replayable stream that the
    /// chosen path reads from.
    pub fn into_buffered(self) -> (v: Vec<u8>)
        ensures
            v@ == self.buffered_view(),
    {
        self.buffered
    }
}

/// Buffer ceiling: when a destructive read brings the buffer to its ceiling
/// and the accumulated bytes still classify as Incomplete, the sniffer gives
/// up and passes the connection through instead of failing; the buffered
/// bytes stay retained for replay.
pub proof fn lemma_buffer_ceiling(buffered: Seq<u8>, chunk: Seq<u8>, name: Seq<u8>)
    requires
        chunk.len() > 0,
        buffered.len() + chunk.len() >= BUFFER_CAPACITY as int,
        spec_match_client_hello(buffered + chunk, name) == Match::Incomplete,
    ensures
        spec_sniff_step(buffered, chunk, name) == SniffStep::PassThrough,
{
}

/// Per-connection admission result: the peer identity paired with the
/// connection's addressing metadata; produced once, never mutated after.
#[derive(Clone, Debug)]
pub struct Meta {
    pub peer_identity: PeerIdentity,
    pub addrs: Addrs,
}

/// Admission entry point configuration: the local identity, when one is
/// provisioned, and the maker of the downstream acceptor.
#[derive(Clone, Debug)]
pub struct AcceptTls<I, A> {
    local_identity: Conditional<I>,
    make_accept: A,
}

impl<I: HasConfig, M> AcceptTls<I, M> {
    pub closed spec fn spec_local_identity(self) -> Conditional<I> {
        self.local_identity
    }

    pub closed spec fn spec_make_accept(self) -> M {
        self.make_accept
    }

    pub fn new(local_identity: Conditional<I>, make_accept: M) -> (s: Self)
        ensures
            s.spec_local_identity() == local_identity,
            s.spec_make_accept() == make_accept,
    {
        Self { local_identity, make_accept }
    }
}

} // verus!
