use vstd::prelude::*;
use std::sync::Arc;
use std::sync::atomic::AtomicBool;
use std::sync::atomic::AtomicUsize;
use std::sync::atomic::Ordering;
use crossbeam::channel::Receiver;
use crate::channel::channel_recv_timeout;
use crate::command::BulkRequestCommand;
use crate::command::BulkRequestError;
use crate::wire::command_bytes;
use crate::wire::is_supported;

verus! {

/// The most documents that one bulk call carries.
pub const MAX_DOCS_PER_BATCH: usize = 10_000;

/// How long one pull waits for the next command, in milliseconds.
pub const RECEIVE_WAIT_MILLIS: u64 = 333;

/// The streaming encoder of one batch: a pull source of bytes that takes
/// commands off the queue as it is read.
pub struct BulkReceiver {
    pub terminated: Arc<AtomicBool>,
    pub first: Option<BulkRequestCommand>,
    pub in_flight: Arc<AtomicUsize>,
    pub receiver: Receiver<BulkRequestCommand>,
    pub bytes_out: usize,
    pub docs_out: usize,
    pub buffer: Vec<u8>,
    pub batch_size: usize,
}

/// `a + b`, held at the largest `usize`.
pub open spec fn saturating_sum(a: usize, b: usize) -> usize {
    if a + b <= usize::MAX {
        (a + b) as usize
    } else {
        usize::MAX
    }
}

/// How many bytes a pull of at most `limit` bytes takes from `pending` waiting ones.
pub open spec fn chunk_len(pending: nat, limit: usize) -> nat {
    if pending <= limit {
        pending
    } else {
        limit as nat
    }
}

impl BulkReceiver {
    /// The batch holds no more documents than one call may carry, and a
    /// seed that still waits means that nothing was encoded yet.
    pub open spec fn wf(&self) -> bool {
        &&& self.docs_out <= MAX_DOCS_PER_BATCH
        &&& self.first is Some ==> self.docs_out == 0
    }

    /// Both caps leave room for another command.
    pub open spec fn wants_more(&self) -> bool {
        self.docs_out < MAX_DOCS_PER_BATCH && self.bytes_out < self.batch_size
    }

    /// The next pull has nothing to send unless the queue gives a command:
    /// no seed waits, no bytes wait, and the caps leave room.
    pub open spec fn awaits_command(&self) -> bool {
        self.first is None && self.buffer@.len() == 0 && self.wants_more()
    }

    /// `after` differs from `before` in nothing but the seed, the counts and the waiting bytes.
    pub open spec fn same_batch(before: &Self, after: &Self) -> bool {
        &&& after.terminated == before.terminated
        &&& after.in_flight == before.in_flight
        &&& after.receiver == before.receiver
        &&& after.batch_size == before.batch_size
    }

    /// The command that a pull encodes: the seed if one waits, else what the queue gave.
    pub open spec fn next_command(&self, incoming: Option<BulkRequestCommand>) -> Option<
        BulkRequestCommand,
    > {
        if self.first is Some {
            self.first
        } else {
            incoming
        }
    }

    /// What one pull does, given the flag and what the queue gave.
    pub open spec fn pulled(
        before: &Self,
        after: &Self,
        terminated: bool,
        incoming: Option<BulkRequestCommand>,
        limit: usize,
        out: Result<Vec<u8>, BulkRequestError>,
    ) -> bool {
        if terminated {
            out == Err::<Vec<u8>, BulkRequestError>(BulkRequestError::Interrupted) && *after
                == *before
        } else {
            let pending = match before.next_command(incoming) {
                Some(command) => before.buffer@ + command_bytes(command),
                None => before.buffer@,
            };
            let taken = chunk_len(pending.len(), limit) as int;
            &&& Self::same_batch(before, after)
            &&& after.first is None
            &&& match before.next_command(incoming) {
                Some(command) if !is_supported(command) => {
                    &&& out == Err::<Vec<u8>, BulkRequestError>(
                        BulkRequestError::UnsupportedCommand,
                    )
                    &&& after.buffer@ == before.buffer@
                    &&& after.docs_out == before.docs_out
                    &&& after.bytes_out == before.bytes_out
                },
                next => {
                    &&& out matches Ok(chunk) && chunk@ == pending.take(taken)
                    &&& after.buffer@ == pending.skip(taken)
                    &&& after.docs_out == before.docs_out + (if next is Some {
                        1int
                    } else {
                        0int
                    })
                    &&& after.bytes_out == saturating_sum(before.bytes_out, taken as usize)
                },
            }
        }
    }

    /// The encoder of a new batch, seeded with `first`.
    pub fn new(
        terminated: Arc<AtomicBool>,
        first: Option<BulkRequestCommand>,
        in_flight: Arc<AtomicUsize>,
        receiver: Receiver<BulkRequestCommand>,
        batch_size: usize,
    ) -> (out: Self)
        ensures
            out.wf(),
            out.first == first,
            out.docs_out == 0,
            out.bytes_out == 0,
            out.buffer@.len() == 0,
            out.batch_size == batch_size,
            out.terminated == terminated,
            out.in_flight == in_flight,
            out.receiver == receiver,
    {
        BulkReceiver {
            terminated,
            first,
            in_flight,
            receiver,
            bytes_out: 0,
            docs_out: 0,
            buffer: Vec::new(),
            batch_size,
        }
    }

    /// How many commands this batch has encoded.
    pub fn docs_out(&self) -> (out: usize)
        ensures
            out == self.docs_out,
    {
        self.docs_out
    }

    /// Whether the next pull should ask the queue for a command.
    pub fn needs_command(&self) -> (out: bool)
        ensures
            out == self.awaits_command(),
    {
        self.first.is_none() && self.buffer.len() == 0 && self.docs_out < MAX_DOCS_PER_BATCH
            && self.bytes_out < self.batch_size
    }

    /// Encodes `command` behind the waiting bytes and counts it. A command
    /// without an encoding is refused and changes nothing.
    pub fn serialize_command(&mut self, command: BulkRequestCommand) -> (out: Result<
        (),
        BulkRequestError,
    >)
        requires
            old(self).docs_out < MAX_DOCS_PER_BATCH,
        ensures
            Self::same_batch(old(self), final(self)),
            final(self).first == old(self).first,
            final(self).bytes_out == old(self).bytes_out,
            is_supported(command) ==> out is Ok && final(self).docs_out == old(self).docs_out + 1
                && final(self).buffer@ == old(self).buffer@ + command_bytes(command),
            !is_supported(command) ==> out == Err::<(), BulkRequestError>(
                BulkRequestError::UnsupportedCommand,
            ) && final(self).docs_out == old(self).docs_out && final(self).buffer@ == old(self).buffer@,
    {
        let done = crate::wire::serialize_command(&mut self.buffer, &command);
        if done.is_ok() {
            self.docs_out = self.docs_out + 1;
        }
        done
    }

    /// Takes up to `limit` of the waiting bytes, oldest first, and counts them as sent.
    pub fn drain(&mut self, limit: usize) -> (chunk: Vec<u8>)
        ensures
            Self::same_batch(old(self), final(self)),
            final(self).first == old(self).first,
            final(self).docs_out == old(self).docs_out,
            chunk@ == old(self).buffer@.take(chunk_len(old(self).buffer@.len(), limit) as int),
            final(self).buffer@ == old(self).buffer@.skip(
                chunk_len(old(self).buffer@.len(), limit) as int,
            ),
            final(self).bytes_out == saturating_sum(
                old(self).bytes_out,
                chunk_len(old(self).buffer@.len(), limit) as usize,
            ),
    {
        let amt: usize = if self.buffer.len() <= limit {
            self.buffer.len()
        } else {
            limit
        };
        let mut chunk = self.buffer.split_off(amt);
        std::mem::swap(&mut chunk, &mut self.buffer);
        self.bytes_out = if amt <= usize::MAX - self.bytes_out {
            self.bytes_out + amt
        } else {
            usize::MAX
        };
        assert(chunk@ =~= old(self).buffer@.take(amt as int));
        assert(self.buffer@ =~= old(self).buffer@.skip(amt as int));
        chunk
    }

    /// One pull, given whether termination was requested and what the queue
    /// gave. A set flag fails the pull and touches nothing. Otherwise the
    /// seed, or else the queue's command, is encoded behind the waiting
    /// bytes, and up to `limit` bytes are handed out. An empty chunk ends
    /// the batch.
    pub fn step(
        &mut self,
        terminated: bool,
        incoming: Option<BulkRequestCommand>,
        limit: usize,
    ) -> (out: Result<Vec<u8>, BulkRequestError>)
        requires
            old(self).wf(),
            incoming is Some ==> old(self).awaits_command(),
        ensures
            final(self).wf(),
            Self::pulled(old(self), final(self), terminated, incoming, limit, out),
    {
        if terminated {
            return Err(BulkRequestError::Interrupted);
        }
        let next = match self.first.take() {
            Some(command) => Some(command),
            None => incoming,
        };
        if let Some(command) = next {
            match self.serialize_command(command) {
                Ok(()) => {},
                Err(e) => {
                    return Err(e);
                },
            }
        }
        Ok(self.drain(limit))
    }

    /// One pull of at most `limit` bytes. It reads the termination flag,
    /// asks the queue for a command where the batch needs one, waiting a
    /// bounded time, and then does what `step` says for what came back.
    pub fn read(&mut self, limit: usize) -> (out: Result<Vec<u8>, BulkRequestError>)
        requires
            old(self).wf(),
        ensures
            final(self).wf(),
            exists|terminated: bool, incoming: Option<BulkRequestCommand>|
                (incoming is Some ==> old(self).awaits_command()) && #[trigger] Self::pulled(
                    old(self),
                    final(self),
                    terminated,
                    incoming,
                    limit,
                    out,
                ),
    {
        let terminated = self.terminated.load(Ordering::SeqCst);
        let incoming = if !terminated && self.needs_command() {
            channel_recv_timeout(&self.receiver, RECEIVE_WAIT_MILLIS)
        } else {
            None
        };
        let before = self.docs_out;
        let out = self.step(terminated, incoming, limit);
        if self.docs_out > before {
            self.in_flight.fetch_add(1, Ordering::SeqCst);
        }
        out
    }
}

/// A pull never takes a batch past the document cap, and takes a command
/// off the queue only while both caps leave room. Once a cap is reached and
/// no seed waits, pulls add no document and only hand out what waits.
pub proof fn law_pull_within_caps(
    before: BulkReceiver,
    after: BulkReceiver,
    terminated: bool,
    incoming: Option<BulkRequestCommand>,
    limit: usize,
    out: Result<Vec<u8>, BulkRequestError>,
)
    requires
        before.wf(),
        incoming is Some ==> before.awaits_command(),
        BulkReceiver::pulled(&before, &after, terminated, incoming, limit, out),
    ensures
        after.wf(),
        after.docs_out <= MAX_DOCS_PER_BATCH,
        after.batch_size == before.batch_size,
        incoming is Some ==> before.docs_out < MAX_DOCS_PER_BATCH && before.bytes_out
            < before.batch_size,
        before.first is None && !before.wants_more() ==> after.docs_out == before.docs_out
            && after.buffer@.len() <= before.buffer@.len(),
{
}

/// Once termination is requested, a pull fails as interrupted, encodes
/// nothing and hands out nothing, whatever waits in the queue.
pub proof fn law_pull_interrupted(
    before: BulkReceiver,
    after: BulkReceiver,
    incoming: Option<BulkRequestCommand>,
    limit: usize,
    out: Result<Vec<u8>, BulkRequestError>,
)
    requires
        BulkReceiver::pulled(&before, &after, true, incoming, limit, out),
    ensures
        out == Err::<Vec<u8>, BulkRequestError>(BulkRequestError::Interrupted),
        after == before,
{
}

/// A pull that succeeds counts exactly the command that it encoded: one
/// document for the seed or the queue's command, none where there was neither.
pub proof fn law_pull_counts_each_command(
    before: BulkReceiver,
    after: BulkReceiver,
    incoming: Option<BulkRequestCommand>,
    limit: usize,
    out: Result<Vec<u8>, BulkRequestError>,
)
    requires
        BulkReceiver::pulled(&before, &after, false, incoming, limit, out),
        out is Ok,
    ensures
        after.docs_out == before.docs_out + (if before.next_command(incoming) is Some {
            1int
        } else {
            0int
        }),
        after.buffer@.len() + out->Ok_0@.len() == before.buffer@.len() + (match before.next_command(
            incoming,
        ) {
            Some(command) => command_bytes(command).len(),
            None => 0,
        }),
{
}

} // verus!
