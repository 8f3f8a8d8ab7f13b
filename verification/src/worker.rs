use vstd::prelude::*;
use std::sync::Arc;
use std::sync::atomic::AtomicBool;
use std::sync::atomic::AtomicUsize;
use std::sync::atomic::Ordering;
use crossbeam::channel::Receiver;
use crossbeam::channel::Sender;
use crate::channel::channel_recv;
use crate::channel::channel_send;
use crate::channel::clone_receiver;
use crate::command::BulkRequestCommand;
use crate::command::BulkRequestError;
use crate::receiver::saturating_sum;
use crate::receiver::BulkReceiver;
use crate::shared::share;

verus! {

/// When the engine is asked to make new documents visible.
#[derive(Debug, Clone, Copy, PartialEq, Eq, Structural)]
pub enum RefreshInterval {
    /// With a call of its own once everything is sent, which is waited for.
    Immediate,
    /// With a call of its own that nobody waits for.
    ImmediateAsync,
    /// Never asked: the engine refreshes on its own schedule.
    Background,
}

/// Where a worker stands.
#[derive(Debug, Clone, Copy, PartialEq, Eq, Structural)]
pub enum WorkerPhase {
    /// It holds its seed command and has made no call yet.
    Seeded,
    /// It is about to put a batch together.
    Streaming,
    /// It has a batch to send and waits for the answer.
    Submitting,
    /// It is done: the queue ran dry, a call failed, or termination was requested.
    Exited,
}

/// What a worker does at the top of an iteration.
pub enum Begin {
    /// Leave the loop.
    Exit,
    /// Wait on the queue for the first command of the next batch.
    Receive,
    /// Start a batch with this command.
    Submit(BulkRequestCommand),
}

/// One bulk call to make: the body to stream, and whether to ask for a refresh with it.
pub struct BulkCall {
    pub reader: BulkReceiver,
    pub refresh: bool,
}

/// One worker of the pool.
pub struct Worker {
    pub rx: Receiver<BulkRequestCommand>,
    pub in_flight: Arc<AtomicUsize>,
    pub error: Sender<BulkRequestError>,
    pub terminated: Arc<AtomicBool>,
    pub batch_size: usize,
    pub active_threads: Arc<AtomicUsize>,
    pub successful_requests: Arc<AtomicUsize>,
    pub allow_refresh: bool,
    pub refresh_interval: RefreshInterval,
    pub initial_command: Option<BulkRequestCommand>,
    pub total_docs_out: usize,
    pub phase: WorkerPhase,
}

/// A call may carry the refresh itself only where refreshes are allowed and
/// immediate, this is the only active worker, and no call has succeeded yet.
pub open spec fn inline_refresh_spec(
    allow_refresh: bool,
    interval: RefreshInterval,
    active_threads: usize,
    successful_requests: usize,
) -> bool {
    allow_refresh && interval == RefreshInterval::Immediate && active_threads == 1
        && successful_requests == 0
}

/// Whether a bulk call should ask for a refresh with it.
pub fn inline_refresh(
    allow_refresh: bool,
    interval: RefreshInterval,
    active_threads: usize,
    successful_requests: usize,
) -> (out: bool)
    ensures
        out == inline_refresh_spec(allow_refresh, interval, active_threads, successful_requests),
{
    allow_refresh && interval == RefreshInterval::Immediate && active_threads == 1
        && successful_requests == 0
}

/// The command that a call's batch starts with.
pub open spec fn first_of(call: Option<BulkCall>) -> Option<BulkRequestCommand> {
    match call {
        Some(call) => call.reader.first,
        None => None,
    }
}

impl Worker {
    /// A seed waits only in a worker that has not begun.
    pub open spec fn wf(&self) -> bool {
        self.initial_command is Some <==> self.phase == WorkerPhase::Seeded
    }

    /// `after` is wired as `before` is: same queue, counters, flag and settings.
    pub open spec fn same_wiring(before: &Self, after: &Self) -> bool {
        &&& after.rx == before.rx
        &&& after.in_flight == before.in_flight
        &&& after.error == before.error
        &&& after.terminated == before.terminated
        &&& after.batch_size == before.batch_size
        &&& after.active_threads == before.active_threads
        &&& after.successful_requests == before.successful_requests
        &&& after.allow_refresh == before.allow_refresh
        &&& after.refresh_interval == before.refresh_interval
    }

    /// The top of an iteration. A set flag, or a worker that is done,
    /// leaves the loop. Otherwise the seed starts the first batch, and every
    /// later batch waits for its first command.
    pub fn begin(&mut self, terminated: bool) -> (out: Begin)
        requires
            old(self).wf(),
            old(self).phase != WorkerPhase::Submitting,
        ensures
            final(self).wf(),
            Self::same_wiring(old(self), final(self)),
            final(self).total_docs_out == old(self).total_docs_out,
            final(self).initial_command is None,
            terminated || old(self).phase == WorkerPhase::Exited ==> out is Exit && final(self).phase == WorkerPhase::Exited,
            !terminated && old(self).phase == WorkerPhase::Seeded ==> Some(out->Submit_0) == old(self).initial_command && out is Submit && final(self).phase == WorkerPhase::Submitting,
            !terminated && old(self).phase == WorkerPhase::Streaming ==> out is Receive && final(self).phase == WorkerPhase::Streaming,
    {
        let seed = self.initial_command.take();
        if terminated || self.phase == WorkerPhase::Exited {
            self.phase = WorkerPhase::Exited;
            return Begin::Exit;
        }
        match seed {
            Some(command) => {
                self.phase = WorkerPhase::Submitting;
                Begin::Submit(command)
            },
            None => Begin::Receive,
        }
    }

    /// What the queue gave a waiting worker: a command starts a batch, and
    /// a closed, empty queue ends the worker.
    pub fn received(&mut self, command: Option<BulkRequestCommand>) -> (out: Option<
        BulkRequestCommand,
    >)
        requires
            old(self).wf(),
            old(self).phase == WorkerPhase::Streaming,
        ensures
            final(self).wf(),
            Self::same_wiring(old(self), final(self)),
            final(self).total_docs_out == old(self).total_docs_out,
            out == command,
            final(self).phase == if command is Some {
                WorkerPhase::Submitting
            } else {
                WorkerPhase::Exited
            },
    {
        if command.is_some() {
            self.phase = WorkerPhase::Submitting;
        } else {
            self.phase = WorkerPhase::Exited;
        }
        command
    }

    /// The end of a call, with its verdict and the number of documents that
    /// the batch held. A failure ends the worker and is handed back. A
    /// success adds the batch to the worker's count; the worker goes on
    /// (`true`) unless the batch was empty.
    pub fn settle(&mut self, outcome: Result<(), BulkRequestError>, docs_out: usize) -> (out: Result<
        bool,
        BulkRequestError,
    >)
        requires
            old(self).wf(),
            old(self).phase == WorkerPhase::Submitting,
        ensures
            final(self).wf(),
            Self::same_wiring(old(self), final(self)),
            match outcome {
                Err(e) => out == Err::<bool, BulkRequestError>(e) && final(self).phase
                    == WorkerPhase::Exited && final(self).total_docs_out == old(self).total_docs_out,
                Ok(()) => out == Ok::<bool, BulkRequestError>(docs_out != 0) && final(self).total_docs_out == saturating_sum(old(self).total_docs_out, docs_out) && final(self).phase == if docs_out == 0 {
                    WorkerPhase::Exited
                } else {
                    WorkerPhase::Streaming
                },
            },
    {
        match outcome {
            Err(e) => {
                self.phase = WorkerPhase::Exited;
                Err(e)
            },
            Ok(()) => {
                self.total_docs_out = if docs_out <= usize::MAX - self.total_docs_out {
                    self.total_docs_out + docs_out
                } else {
                    usize::MAX
                };
                if docs_out == 0 {
                    self.phase = WorkerPhase::Exited;
                    Ok(false)
                } else {
                    self.phase = WorkerPhase::Streaming;
                    Ok(true)
                }
            },
        }
    }

    /// Counts this worker as active. To be called once, as its thread starts.
    pub fn start(&self) {
        self.active_threads.fetch_add(1, Ordering::SeqCst);
    }

    /// What the top of an iteration comes to, given the flag and what the
    /// queue gave where it was asked: the first command of the next batch, or
    /// none where the worker is done.
    pub open spec fn planned(
        before: &Self,
        after: &Self,
        terminated: bool,
        arrived: Option<BulkRequestCommand>,
        first: Option<BulkRequestCommand>,
    ) -> bool {
        if terminated || before.phase == WorkerPhase::Exited {
            first is None && after.phase == WorkerPhase::Exited
        } else if before.phase == WorkerPhase::Seeded {
            first == before.initial_command && after.phase == WorkerPhase::Submitting
        } else {
            first == arrived && after.phase == if arrived is Some {
                WorkerPhase::Submitting
            } else {
                WorkerPhase::Exited
            }
        }
    }

    /// The next bulk call to make, or `None` where the worker is done. It
    /// reads the termination flag first, and takes its seed or waits on the
    /// queue for a first command. The batch that it hands out is new and
    /// seeded with that command.
    pub fn next_call(&mut self) -> (out: Option<BulkCall>)
        requires
            old(self).wf(),
            old(self).phase != WorkerPhase::Submitting,
        ensures
            final(self).wf(),
            Self::same_wiring(old(self), final(self)),
            final(self).total_docs_out == old(self).total_docs_out,
            exists|terminated: bool, arrived: Option<BulkRequestCommand>| #[trigger]
                Self::planned(
                    old(self),
                    final(self),
                    terminated,
                    arrived,
                    first_of(out),
                ),
            out is Some <==> final(self).phase == WorkerPhase::Submitting,
            out matches Some(call) ==> {
                &&& call.reader.wf()
                &&& call.reader.first is Some
                &&& call.reader.docs_out == 0
                &&& call.reader.bytes_out == 0
                &&& call.reader.buffer@.len() == 0
                &&& call.reader.batch_size == old(self).batch_size
                &&& call.reader.terminated == old(self).terminated
                &&& call.reader.in_flight == old(self).in_flight
                &&& call.refresh ==> old(self).allow_refresh && old(self).refresh_interval
                    == RefreshInterval::Immediate
            },
    {
        let terminated = self.terminated.load(Ordering::SeqCst);
        let ghost mut arrived: Option<BulkRequestCommand> = None;
        let first = match self.begin(terminated) {
            Begin::Exit => {
                assert(Self::planned(old(self), self, terminated, None, first_of(None)));
                return None;
            },
            Begin::Submit(command) => command,
            Begin::Receive => {
                let received = channel_recv(&self.rx);
                proof {
                    arrived = received;
                }
                match self.received(received) {
                    Some(command) => command,
                    None => {
                        assert(Self::planned(old(self), self, terminated, arrived, first_of(None)));
                        return None;
                    },
                }
            },
        };
        let active = self.active_threads.load(Ordering::SeqCst);
        let succeeded = self.successful_requests.load(Ordering::SeqCst);
        let refresh = inline_refresh(self.allow_refresh, self.refresh_interval, active, succeeded);
        let reader = BulkReceiver::new(
            share(&self.terminated),
            Some(first),
            share(&self.in_flight),
            clone_receiver(&self.rx),
            self.batch_size,
        );
        let out = Some(BulkCall { reader, refresh });
        assert(Self::planned(old(self), self, terminated, arrived, first_of(out)));
        out
    }

    /// Closes a call. A failure is published on the error channel, sets the
    /// termination flag and ends the worker. A success is counted. Either
    /// way the batch's documents leave the in-flight count. Returns whether
    /// the worker goes on.
    pub fn complete(&mut self, outcome: Result<(), BulkRequestError>, docs_out: usize) -> (out: bool)
        requires
            old(self).wf(),
            old(self).phase == WorkerPhase::Submitting,
        ensures
            final(self).wf(),
            Self::same_wiring(old(self), final(self)),
            out == (outcome is Ok && docs_out != 0),
            final(self).phase == if out {
                WorkerPhase::Streaming
            } else {
                WorkerPhase::Exited
            },
            final(self).total_docs_out == if outcome is Ok {
                saturating_sum(old(self).total_docs_out, docs_out)
            } else {
                old(self).total_docs_out
            },
    {
        match self.settle(outcome, docs_out) {
            Ok(more) => {
                self.successful_requests.fetch_add(1, Ordering::SeqCst);
                self.in_flight.fetch_sub(docs_out, Ordering::SeqCst);
                more
            },
            Err(e) => {
                self.terminated.store(true, Ordering::SeqCst);
                self.in_flight.fetch_sub(docs_out, Ordering::SeqCst);
                let _ = channel_send(&self.error, e);
                false
            },
        }
    }

    /// Ends the worker: it no longer counts as active, and hands back how
    /// many documents its successful calls carried.
    pub fn exit(self) -> (out: usize)
        ensures
            out == self.total_docs_out,
    {
        self.active_threads.fetch_sub(1, Ordering::SeqCst);
        self.total_docs_out
    }
}

/// Once termination is requested, the top of an iteration starts no batch
/// and ends the worker, whatever the queue holds.
pub proof fn law_no_call_after_termination(
    before: Worker,
    after: Worker,
    arrived: Option<BulkRequestCommand>,
    first: Option<BulkRequestCommand>,
)
    requires
        Worker::planned(&before, &after, true, arrived, first),
    ensures
        first is None,
        after.phase == WorkerPhase::Exited,
{
}

} // verus!
