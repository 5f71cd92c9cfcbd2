//! Byte accounting for the relay of an established tunnel.
//!
//! A tunnel relays bytes in two directions, client to destination and
//! destination to client, each direction an independent copy loop. The loop
//! itself performs I/O and runs outside the library; what it must get right
//! is tracked here. A [`RelayDirection`] accounts for one direction: each
//! chunk read from the source passes through [`RelayDirection::forward`],
//! which hands it back unchanged for the writer and extends the direction's
//! stream — so the bytes a direction emits are exactly the bytes it was
//! given, in order. When the tunnel ends, [`finish`] turns the two
//! directions and the way the tunnel stopped into the tunnel's
//! [`RelayResult`].

use vstd::prelude::*;

verus! {

/// One direction of a relay: how many bytes it has moved, and — as the
/// mathematical record — the chunks it was given and the stream it emitted.
pub struct RelayDirection {
    /// Bytes moved so far.
    pub bytes: u64,
    /// The chunks given to [`RelayDirection::forward`], in order.
    pub chunks: Ghost<Seq<Seq<u8>>>,
    /// The bytes emitted, in order.
    pub stream: Ghost<Seq<u8>>,
}

/// The stream a direction owes a record of chunks: the chunks laid end to
/// end, in the order they were given.
pub open spec fn relayed_stream(chunks: Seq<Seq<u8>>) -> Seq<u8>
    decreases chunks.len(),
{
    if chunks.len() == 0 {
        Seq::empty()
    } else {
        relayed_stream(chunks.drop_last()) + chunks.last()
    }
}

impl RelayDirection {
    /// A direction accounts correctly when its stream is exactly its chunks
    /// laid end to end and its byte count is the stream's length.
    pub open spec fn wf(&self) -> bool {
        &&& self.stream@ == relayed_stream(self.chunks@)
        &&& self.bytes == self.stream@.len()
    }

    /// A fresh direction: nothing moved yet.
    pub fn new() -> (r: Self)
        ensures
            r.wf(),
            r.bytes == 0,
            r.chunks@ == Seq::<Seq<u8>>::empty(),
            r.stream@ == Seq::<u8>::empty(),
    {
        RelayDirection { bytes: 0, chunks: Ghost(Seq::empty()), stream: Ghost(Seq::empty()) }
    }

    /// Passes one chunk through this direction: the bytes handed back for
    /// the writer are exactly the bytes read, and the direction's stream
    /// grows by them.
    pub fn forward(&mut self, chunk: Vec<u8>) -> (out: Vec<u8>)
        requires
            old(self).wf(),
            old(self).bytes + chunk@.len() <= u64::MAX,
        ensures
            final(self).wf(),
            out@ == chunk@,
            final(self).chunks@ == old(self).chunks@.push(chunk@),
            final(self).stream@ == old(self).stream@ + chunk@,
            final(self).bytes == old(self).bytes + chunk@.len(),
    {
        proof {
            let cs = self.chunks@.push(chunk@);
            assert(cs.drop_last() =~= self.chunks@);
            assert(relayed_stream(cs) == self.stream@ + chunk@);
        }
        self.bytes = self.bytes + chunk.len() as u64;
        self.stream = Ghost(self.stream@ + chunk@);
        self.chunks = Ghost(self.chunks@.push(chunk@));
        chunk
    }
}

/// Law: a relay direction is faithful — the stream it emits for a record of
/// chunks is their concatenation, so every byte given is delivered, in
/// order, unaltered, without duplication or loss.
pub proof fn lemma_relay_fidelity(chunks: Seq<Seq<u8>>)
    ensures
        relayed_stream(chunks) == chunks.flatten(),
    decreases chunks.len(),
{
    if chunks.len() == 0 {
    } else {
        lemma_relay_fidelity(chunks.drop_last());
        chunks.drop_last().lemma_flatten_push(chunks.last());
        assert(chunks.drop_last().push(chunks.last()) =~= chunks);
    }
}

/// How a tunnel stopped: one side closed, or a read or write failed.
#[derive(Clone, Copy, PartialEq, Eq, Structural, Debug)]
pub enum RelayEnd {
    /// One side reached end of stream; the tunnel is torn down cleanly.
    Closed,
    /// A read or write on either side failed.
    Failed,
}

/// What a finished relay reports: the bytes moved in each direction, or
/// that it ended in an I/O error.
#[derive(Debug, PartialEq, Eq)]
pub enum RelayResult {
    /// The tunnel closed cleanly; both totals are reported, whichever side
    /// finished first.
    Completed { from_client: u64, from_dest: u64 },
    /// The tunnel ended in an I/O error.
    Failed,
}

/// The result a finished relay owes: the two totals on a clean close, the
/// error otherwise.
pub open spec fn relay_result_model(from_client: u64, from_dest: u64, end: RelayEnd) -> RelayResult {
    match end {
        RelayEnd::Closed => RelayResult::Completed { from_client, from_dest },
        RelayEnd::Failed => RelayResult::Failed,
    }
}

/// Combines the two directions of a finished tunnel into its result. A
/// destination that closes at once yields `Completed` with both totals
/// zero — a clean teardown, not an error.
pub fn finish(client_to_dest: &RelayDirection, dest_to_client: &RelayDirection, end: RelayEnd) -> (r:
    RelayResult)
    ensures
        r == relay_result_model(client_to_dest.bytes, dest_to_client.bytes, end),
{
    match end {
        RelayEnd::Closed => RelayResult::Completed {
            from_client: client_to_dest.bytes,
            from_dest: dest_to_client.bytes,
        },
        RelayEnd::Failed => RelayResult::Failed,
    }
}

/// Law: a tunnel whose destination closes before any byte moves finishes
/// with zero bytes in both directions and a clean result, not an error.
pub proof fn lemma_immediate_close_is_clean()
    ensures
        relay_result_model(0, 0, RelayEnd::Closed) == (RelayResult::Completed {
            from_client: 0u64,
            from_dest: 0u64,
        }),
        !(relay_result_model(0, 0, RelayEnd::Closed) is Failed),
{
}

} // verus!
