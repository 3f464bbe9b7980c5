//! One channel session: the decisions of the read, rewrite and write loop.
//! The caller reads from the source and writes to the destination; the
//! session says what to do next and keeps what is still to be written.

use vstd::prelude::*;
use vstd::slice::slice_subrange;
use crate::config::Config;
use crate::engine::{chunk_rewritten, rewrite_chunk, text_chunk_rewritten};
use crate::config::Profile;
use vstd::utf8::valid_utf8;

verus! {

/// Where a session stands.
#[derive(Clone, Copy, Debug, PartialEq, Eq, Structural)]
pub enum Phase {
    /// Waiting for the next chunk from the source.
    Reading,
    /// Bytes are pending for the destination.
    Writing,
    /// The channel has ended.
    Closed,
}

/// What the caller does next.
#[derive(Clone, Copy, Debug, PartialEq, Eq, Structural)]
pub enum Action {
    /// Read the next chunk from the source.
    Read,
    /// Write the pending bytes to the destination.
    Write,
    /// Leave the loop.
    Stop,
}

/// The largest chunk that is read at once.
pub const CHUNK_SIZE: usize = 4096;

/// The state of one channel.
pub struct Session {
    phase: Phase,
    output: Vec<u8>,
    sent: usize,
}

impl Session {
    /// The phase of the session.
    pub closed spec fn phase_of(self) -> Phase {
        self.phase
    }

    /// The bytes that the current chunk was rewritten to.
    pub closed spec fn output_of(self) -> Seq<u8> {
        self.output@
    }

    /// How many bytes of the output the destination has taken.
    pub closed spec fn sent_of(self) -> nat {
        self.sent as nat
    }

    /// The bytes that the destination has taken.
    pub open spec fn delivered(self) -> Seq<u8> {
        self.output_of().take(self.sent_of() as int)
    }

    /// The bytes that are still to be written.
    pub open spec fn remainder(self) -> Seq<u8> {
        self.output_of().skip(self.sent_of() as int)
    }

    /// A session is writing exactly while bytes are pending.
    pub open spec fn wf(self) -> bool {
        &&& self.sent_of() <= self.output_of().len()
        &&& self.phase_of() == Phase::Writing <==> self.sent_of() < self.output_of().len()
    }

    /// A session that waits for its first chunk.
    pub fn new() -> (s: Session)
        ensures
            s.wf(),
            s.phase_of() == Phase::Reading,
            s.output_of() == Seq::<u8>::empty(),
            s.sent_of() == 0,
    {
        Session { phase: Phase::Reading, output: Vec::new(), sent: 0 }
    }

    /// The phase of the session.
    pub fn phase(&self) -> (p: Phase)
        ensures
            p == self.phase_of(),
    {
        self.phase
    }

    /// The bytes to hand to the destination next: all that it has not taken.
    pub fn pending(&self) -> (bytes: &[u8])
        requires
            self.wf(),
        ensures
            bytes@ == self.remainder(),
    {
        slice_subrange(self.output.as_slice(), self.sent, self.output.len())
    }

    /// The source gave a chunk. An empty chunk ends the channel and nothing
    /// more is written. Any other chunk is rewritten on its own; what comes of
    /// it is pending from its first byte, and the next action is to write it,
    /// or to read on where nothing came of it. A closed session stays closed.
    pub fn on_chunk(&mut self, cfg: &Config, program: &str, args: &Vec<String>, chunk: &[u8]) -> (action: Action)
        requires
            old(self).wf(),
            old(self).phase_of() != Phase::Writing,
        ensures
            final(self).wf(),
            old(self).phase_of() == Phase::Closed || chunk@.len() == 0 ==> {
                &&& action == Action::Stop
                &&& final(self).phase_of() == Phase::Closed
                &&& final(self).remainder() == Seq::<u8>::empty()
            },
            old(self).phase_of() == Phase::Reading && chunk@.len() > 0 ==> {
                &&& final(self).output_of() == chunk_rewritten(cfg.profiles@, chunk@)
                &&& valid_utf8(chunk@) ==> final(self).output_of() == text_chunk_rewritten(
                    cfg.profiles@,
                    chunk@,
                )
                &&& final(self).sent_of() == 0
                &&& final(self).phase_of() != Phase::Closed
                &&& action == (if final(self).output_of().len() > 0 { Action::Write } else { Action::Read })
            },
    {
        if self.phase == Phase::Closed || chunk.len() == 0 {
            self.phase = Phase::Closed;
            self.output = Vec::new();
            self.sent = 0;
            return Action::Stop;
        }
        self.output = rewrite_chunk(cfg, program, args, chunk);
        self.sent = 0;
        if self.output.len() > 0 {
            self.phase = Phase::Writing;
            Action::Write
        } else {
            self.phase = Phase::Reading;
            Action::Read
        }
    }

    /// The destination took the first `n` of the pending bytes. They count as
    /// delivered; the rest stays pending and is written again, and only when
    /// nothing is left does the session read on.
    pub fn on_written(&mut self, n: usize) -> (action: Action)
        requires
            old(self).wf(),
            old(self).phase_of() == Phase::Writing,
            n <= old(self).remainder().len(),
        ensures
            final(self).wf(),
            final(self).output_of() == old(self).output_of(),
            final(self).sent_of() == old(self).sent_of() + n,
            final(self).delivered() == old(self).delivered() + old(self).remainder().take(n as int),
            final(self).remainder() == old(self).remainder().skip(n as int),
            final(self).phase_of() != Phase::Closed,
            action == (if n < old(self).remainder().len() { Action::Write } else { Action::Read }),
    {
        let len = self.output.len();
        proof {
            let out = self.output@;
            let s = self.sent as int;
            assert(out.skip(s).len() == out.len() - s);
            assert(out.take(s + n) =~= out.take(s) + out.skip(s).take(n as int));
            assert(out.skip(s + n) =~= out.skip(s).skip(n as int));
        }
        self.sent = self.sent + n;
        if self.sent < len {
            Action::Write
        } else {
            self.phase = Phase::Reading;
            Action::Read
        }
    }

    /// The source ended or failed, or the destination refused a write: the
    /// channel is over, nothing more is written, and no error is reported.
    pub fn on_closed(&mut self) -> (action: Action)
        ensures
            final(self).wf(),
            action == Action::Stop,
            final(self).phase_of() == Phase::Closed,
            final(self).remainder() == Seq::<u8>::empty(),
    {
        self.phase = Phase::Closed;
        self.output = Vec::new();
        self.sent = 0;
        Action::Stop
    }
}

/// What a destination has received after a run of writes, each of which was
/// offered all that was pending and took `counts[k]` bytes of it (or all of
/// it, where fewer were pending).
pub open spec fn received(pending: Seq<u8>, counts: Seq<nat>) -> Seq<u8>
    decreases counts.len(),
{
    if counts.len() == 0 {
        Seq::empty()
    } else {
        let n = if counts[0] <= pending.len() { counts[0] as int } else { pending.len() as int };
        pending.take(n) + received(pending.skip(n), counts.drop_first())
    }
}

/// What is still pending after such a run of writes.
pub open spec fn outstanding(pending: Seq<u8>, counts: Seq<nat>) -> Seq<u8>
    decreases counts.len(),
{
    if counts.len() == 0 {
        pending
    } else {
        let n = if counts[0] <= pending.len() { counts[0] as int } else { pending.len() as int };
        outstanding(pending.skip(n), counts.drop_first())
    }
}

/// However the destination cuts the writes short, what it has received and
/// what is still pending are together the output, byte for byte and in
/// order; so once nothing is pending it has received exactly the output.
pub proof fn law_short_writes_lose_nothing(pending: Seq<u8>, counts: Seq<nat>)
    ensures
        received(pending, counts) + outstanding(pending, counts) == pending,
        outstanding(pending, counts).len() == 0 ==> received(pending, counts) == pending,
    decreases counts.len(),
{
    if counts.len() == 0 {
        assert(Seq::<u8>::empty() + pending =~= pending);
    } else {
        let n = if counts[0] <= pending.len() { counts[0] as int } else { pending.len() as int };
        let rest = pending.skip(n);
        law_short_writes_lose_nothing(rest, counts.drop_first());
        let a = received(rest, counts.drop_first());
        let b = outstanding(rest, counts.drop_first());
        assert(a + b == rest);
        assert((pending.take(n) + a) + b =~= pending.take(n) + (a + b));
        assert(pending.take(n) + rest =~= pending);
    }
    if outstanding(pending, counts).len() == 0 {
        assert(received(pending, counts) + outstanding(pending, counts) =~= received(pending, counts));
    }
}

/// Writes that each take at least one byte come to an end: after as many
/// writes as bytes were pending, nothing is pending.
pub proof fn law_progress_drains(pending: Seq<u8>, counts: Seq<nat>)
    requires
        counts.len() >= pending.len(),
        forall|k: int| 0 <= k < counts.len() ==> counts[k] >= 1,
    ensures
        outstanding(pending, counts).len() == 0,
        received(pending, counts) == pending,
    decreases counts.len(),
{
    if counts.len() > 0 {
        let n = if counts[0] <= pending.len() { counts[0] as int } else { pending.len() as int };
        let rest = pending.skip(n);
        let tail = counts.drop_first();
        assert forall|k: int| 0 <= k < tail.len() implies tail[k] >= 1 by {
            assert(tail[k] == counts[k + 1]);
        }
        law_progress_drains(rest, tail);
    }
    law_short_writes_lose_nothing(pending, counts);
}

/// What a channel forwards of the chunks that its source gave: what each
/// chunk is rewritten to, in the order of the chunks, up to the first empty
/// chunk, which ends the channel.
pub open spec fn forwarded(profiles: Seq<Profile>, chunks: Seq<Seq<u8>>) -> Seq<u8>
    decreases chunks.len(),
{
    if chunks.len() == 0 || chunks[0].len() == 0 {
        Seq::empty()
    } else {
        chunk_rewritten(profiles, chunks[0]) + forwarded(profiles, chunks.drop_first())
    }
}

/// How the destination cuts the writes does not change what it receives:
/// two runs of writes over the same pending bytes, each write taking at
/// least one byte, deliver the same bytes.
pub proof fn law_delivery_ignores_write_sizes(pending: Seq<u8>, first: Seq<nat>, second: Seq<nat>)
    requires
        first.len() >= pending.len(),
        second.len() >= pending.len(),
        forall|k: int| 0 <= k < first.len() ==> first[k] >= 1,
        forall|k: int| 0 <= k < second.len() ==> second[k] >= 1,
    ensures
        received(pending, first) == received(pending, second),
        received(pending, first) == pending,
{
    law_progress_drains(pending, first);
    law_progress_drains(pending, second);
}

/// Nothing is forwarded of what the source gives after an empty chunk, and
/// what is forwarded before it depends on the profiles and the chunks alone.
pub proof fn law_forwarding_ends_at_empty_chunk(profiles: Seq<Profile>, before: Seq<Seq<u8>>, after: Seq<Seq<u8>>)
    requires
        forall|k: int| 0 <= k < before.len() ==> (#[trigger] before[k]).len() > 0,
    ensures
        forwarded(profiles, before + seq![Seq::<u8>::empty()] + after) == forwarded(profiles, before),
    decreases before.len(),
{
    let whole = before + seq![Seq::<u8>::empty()] + after;
    if before.len() == 0 {
        assert(whole[0] == Seq::<u8>::empty());
    } else {
        let rest = before.drop_first();
        assert forall|k: int| 0 <= k < rest.len() implies (#[trigger] rest[k]).len() > 0 by {
            assert(rest[k] == before[k + 1]);
        }
        law_forwarding_ends_at_empty_chunk(profiles, rest, after);
        assert(whole[0] == before[0]);
        assert(whole.drop_first() =~= rest + seq![Seq::<u8>::empty()] + after);
    }
}

} // verus!
