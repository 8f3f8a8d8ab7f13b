use vstd::prelude::*;
use std::sync::Arc;
use std::sync::atomic::AtomicBool;
use std::sync::atomic::AtomicUsize;
use std::sync::atomic::Ordering;
use crossbeam::channel::Receiver;
use crossbeam::channel::Sender;
use crate::channel::bounded_channel;
use crate::channel::channel_len;
use crate::channel::channel_send;
use crate::channel::channel_try_recv;
use crate::channel::clone_receiver;
use crate::channel::clone_sender;
use crate::command::BulkRequestCommand;
use crate::command::BulkRequestError;
use crate::receiver::saturating_sum;
use crate::shared::share;
use crate::tally::count_documents;
use crate::tally::drained;
use crate::tally::tally;
use crate::worker::RefreshInterval;
use crate::worker::Worker;
use crate::worker::WorkerPhase;

verus! {

/// How many commands the queue holds before the producer is made to wait.
pub const QUEUE_CAPACITY: usize = 10_000;

/// What became of a command that the pool accepted.
pub enum Dispatch {
    /// A new worker was made with the command as its seed; the caller runs it on a thread of its own.
    Spawned(Worker),
    /// The command waits in the queue.
    Queued,
}

/// The worker pool: the queue, the shared counters, the termination flag
/// and the number of workers made so far.
pub struct Handler {
    pub terminated: Arc<AtomicBool>,
    pub threads: usize,
    pub in_flight: Arc<AtomicUsize>,
    pub total_docs: usize,
    pub active_threads: Arc<AtomicUsize>,
    pub successful_requests: Arc<AtomicUsize>,
    pub concurrency: usize,
    pub batch_size: usize,
    pub bulk_sender: Option<Sender<BulkRequestCommand>>,
    pub bulk_receiver: Receiver<BulkRequestCommand>,
    pub error_sender: Sender<BulkRequestError>,
    pub error_receiver: Receiver<BulkRequestError>,
    pub allow_refresh: bool,
    pub refresh_interval: RefreshInterval,
}

/// A new worker is made for the first command, and later while the pool is
/// below its limit and the backlog is above the queue's capacity divided by
/// that limit.
pub open spec fn should_spawn(threads: usize, concurrency: usize, backlog: usize) -> bool {
    threads == 0 || (threads < concurrency && backlog > QUEUE_CAPACITY / concurrency)
}

/// Whether the pool makes a new worker for the next command.
pub fn spawn_wanted(threads: usize, concurrency: usize, backlog: usize) -> (out: bool)
    ensures
        out == should_spawn(threads, concurrency, backlog),
{
    threads == 0 || (threads < concurrency && backlog > QUEUE_CAPACITY / concurrency)
}

/// What the producer is told: an error that a worker reported comes first;
/// without one, a set termination flag means that the run was interrupted.
pub open spec fn verdict(reported: Option<BulkRequestError>, terminated: bool) -> Result<
    (),
    BulkRequestError,
> {
    match reported {
        Some(e) if !(e is NoError) => Err(e),
        _ => if terminated {
            Err(BulkRequestError::Interrupted)
        } else {
            Ok(())
        },
    }
}

/// What the producer is told, given what the error channel held and the flag.
pub fn first_failure(reported: Option<BulkRequestError>, terminated: bool) -> (out: Result<
    (),
    BulkRequestError,
>)
    ensures
        out == verdict(reported, terminated),
{
    match reported {
        Some(BulkRequestError::NoError) | None => {
            if terminated {
                Err(BulkRequestError::Interrupted)
            } else {
                Ok(())
            }
        },
        Some(e) => Err(e),
    }
}

impl Handler {
    /// No more workers were made than the limit allows; the first command
    /// always gets one.
    pub open spec fn wf(&self) -> bool {
        self.threads <= self.concurrency || self.threads <= 1
    }

    /// `after` is wired as `before` is: same queue, counters, flag and settings.
    pub open spec fn same_wiring(before: &Self, after: &Self) -> bool {
        &&& after.terminated == before.terminated
        &&& after.in_flight == before.in_flight
        &&& after.active_threads == before.active_threads
        &&& after.successful_requests == before.successful_requests
        &&& after.concurrency == before.concurrency
        &&& after.batch_size == before.batch_size
        &&& after.bulk_receiver == before.bulk_receiver
        &&& after.error_sender == before.error_sender
        &&& after.error_receiver == before.error_receiver
        &&& after.allow_refresh == before.allow_refresh
        &&& after.refresh_interval == before.refresh_interval
    }

    /// A pool without workers, with a new queue of `QUEUE_CAPACITY` commands.
    pub fn new(
        _queue_size: usize,
        concurrency: usize,
        batch_size: usize,
        error_sender: Sender<BulkRequestError>,
        error_receiver: &Receiver<BulkRequestError>,
        allow_refresh: bool,
        refresh_interval: RefreshInterval,
    ) -> (out: Self)
        ensures
            out.wf(),
            out.threads == 0,
            out.total_docs == 0,
            out.concurrency == concurrency,
            out.batch_size == batch_size,
            out.allow_refresh == allow_refresh,
            out.refresh_interval == refresh_interval,
            out.bulk_sender is Some,
            out.error_sender == error_sender,
    {
        let (tx, rx) = bounded_channel::<BulkRequestCommand>(QUEUE_CAPACITY);
        Handler {
            terminated: Arc::new(AtomicBool::new(false)),
            threads: 0,
            in_flight: Arc::new(AtomicUsize::new(0)),
            total_docs: 0,
            active_threads: Arc::new(AtomicUsize::new(0)),
            successful_requests: Arc::new(AtomicUsize::new(0)),
            concurrency,
            batch_size,
            bulk_sender: Some(tx),
            bulk_receiver: rx,
            error_sender,
            error_receiver: clone_receiver(error_receiver),
            allow_refresh,
            refresh_interval,
        }
    }

    /// A worker of this pool, seeded with `initial_command`.
    pub fn create_thread(&self, initial_command: BulkRequestCommand) -> (out: Worker)
        ensures
            out.wf(),
            out.phase == WorkerPhase::Seeded,
            out.initial_command == Some(initial_command),
            out.total_docs_out == 0,
            out.batch_size == self.batch_size,
            out.allow_refresh == self.allow_refresh,
            out.refresh_interval == self.refresh_interval,
            out.terminated == self.terminated,
            out.in_flight == self.in_flight,
            out.active_threads == self.active_threads,
            out.successful_requests == self.successful_requests,
    {
        Worker {
            rx: clone_receiver(&self.bulk_receiver),
            in_flight: share(&self.in_flight),
            error: clone_sender(&self.error_sender),
            terminated: share(&self.terminated),
            batch_size: self.batch_size,
            active_threads: share(&self.active_threads),
            successful_requests: share(&self.successful_requests),
            allow_refresh: self.allow_refresh,
            refresh_interval: self.refresh_interval,
            initial_command: Some(initial_command),
            total_docs_out: 0,
            phase: WorkerPhase::Seeded,
        }
    }

    /// Accepts a command. It is counted, and then either seeds a new worker
    /// or is put on the queue, where the call waits while the queue is full.
    /// The backlog that decides between the two is read from the queue.
    pub fn queue_command(&mut self, command: BulkRequestCommand) -> (out: Result<
        Dispatch,
        BulkRequestError,
    >)
        requires
            old(self).wf(),
        ensures
            final(self).wf(),
            Self::same_wiring(old(self), final(self)),
            final(self).total_docs == saturating_sum(old(self).total_docs, 1),
            final(self).threads == old(self).threads + (if out matches Ok(Dispatch::Spawned(_)) {
                1int
            } else {
                0int
            }),
            old(self).threads == 0 ==> out matches Ok(Dispatch::Spawned(_)),
            old(self).threads > 0 && old(self).threads >= old(self).concurrency ==> !(
            out matches Ok(Dispatch::Spawned(_))),
            exists|backlog: usize| #[trigger]
                should_spawn(old(self).threads, old(self).concurrency, backlog) == (
                out matches Ok(Dispatch::Spawned(_))),
            out matches Ok(Dispatch::Spawned(worker)) ==> {
                &&& worker.wf()
                &&& worker.phase == WorkerPhase::Seeded
                &&& worker.initial_command == Some(command)
                &&& worker.total_docs_out == 0
                &&& worker.terminated == old(self).terminated
            },
            out matches Err(e) ==> e == BulkRequestError::QueueClosed,
            out matches Ok(Dispatch::Queued) ==> old(self).bulk_sender is Some && old(self).threads
                > 0,
    {
        self.total_docs = if self.total_docs < usize::MAX {
            self.total_docs + 1
        } else {
            usize::MAX
        };
        let backlog = channel_len(&self.bulk_receiver);
        let out = if spawn_wanted(self.threads, self.concurrency, backlog) {
            let worker = self.create_thread(command);
            self.threads = self.threads + 1;
            Ok(Dispatch::Spawned(worker))
        } else {
            match &self.bulk_sender {
                Some(sender) => match channel_send(sender, command) {
                    Ok(()) => Ok(Dispatch::Queued),
                    Err(_) => Err(BulkRequestError::QueueClosed),
                },
                None => Err(BulkRequestError::QueueClosed),
            }
        };
        assert(should_spawn(old(self).threads, old(self).concurrency, backlog) == (
        out matches Ok(Dispatch::Spawned(_))));
        out
    }

    /// Requests termination: every worker sees the flag before its next call
    /// and inside its next pull.
    pub fn terminate(&self) {
        self.terminated.store(true, Ordering::SeqCst);
    }

    /// Looks for a reported error, without waiting, and at the termination
    /// flag. A failure also sets the flag, so that the workers stop.
    pub fn check_for_error(&self) -> (out: Result<(), BulkRequestError>)
        ensures
            exists|reported: Option<BulkRequestError>, terminated: bool| out == #[trigger] verdict(
                reported,
                terminated,
            ),
    {
        let reported = channel_try_recv(&self.error_receiver);
        let terminated = self.terminated.load(Ordering::SeqCst);
        let out = first_failure(reported, terminated);
        if out.is_err() {
            self.terminate();
        }
        out
    }

    /// Closes the producer's side of the queue: once it is empty, waiting
    /// workers are told that nothing more will come.
    pub fn close(&mut self)
        ensures
            final(self).bulk_sender is None,
            final(self).threads == old(self).threads,
            final(self).total_docs == old(self).total_docs,
            Self::same_wiring(old(self), final(self)),
    {
        self.bulk_sender = None;
    }

    /// Ends the drain, given what each joined worker returned, or the
    /// message that it panicked with. A panic comes first, then a reported
    /// error or a set flag; without any, the sum of the workers' counts.
    pub fn wait_for_completion(self, joined: Vec<Result<usize, String>>) -> (out: Result<
        usize,
        BulkRequestError,
    >)
        ensures
            exists|reported: Option<BulkRequestError>, terminated: bool| #[trigger]
                drained(joined@, verdict(reported, terminated), out),
    {
        let mut this = self;
        this.close();
        let ghost results = joined@;
        match count_documents(joined) {
            Err(message) => {
                let out = Err(BulkRequestError::WorkerPanicked(message));
                assert(drained(results, verdict(None, false), out));
                out
            },
            Ok(count) => {
                let failure = this.check_for_error();
                let out = match failure {
                    Ok(()) => Ok(count),
                    Err(e) => Err(e),
                };
                proof {
                    let (reported, terminated) = choose|
                        reported: Option<BulkRequestError>,
                        terminated: bool,
                    | failure == #[trigger] verdict(reported, terminated);
                    assert(drained(results, verdict(reported, terminated), out));
                }
                out
            },
        }
    }
}

/// The pool never holds more workers than its limit, for any limit of at least one.
pub proof fn law_workers_within_limit(pool: Handler)
    requires
        pool.wf(),
        pool.concurrency >= 1,
    ensures
        pool.threads <= pool.concurrency,
{
}

/// A failure that a worker reported fails the operation with that same
/// error, whatever the workers counted and whether or not the flag is set.
pub proof fn law_reported_failure_fails_the_run(
    joined: Seq<Result<usize, String>>,
    error: BulkRequestError,
    terminated: bool,
    out: Result<usize, BulkRequestError>,
)
    requires
        !(error is NoError),
        tally(joined) is Ok,
        drained(joined, verdict(Some(error), terminated), out),
    ensures
        out == Err::<usize, BulkRequestError>(error),
{
}

} // verus!
