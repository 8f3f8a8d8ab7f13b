use vstd::prelude::*;
use std::sync::Arc;
use std::sync::atomic::AtomicBool;
use std::sync::atomic::Ordering;
use crossbeam::channel::Receiver;
use crate::channel::bounded_channel;
use crate::channel::CHANNEL_CAPACITY_LIMIT;
use crate::command::BulkRequestCommand;
use crate::command::BulkRequestError;
use crate::command::Document;
use crate::tally::drained;
use crate::handler::verdict;
use crate::handler::Dispatch;
use crate::handler::Handler;
use crate::receiver::saturating_sum;
use crate::shared::share;
use crate::worker::RefreshInterval;
use crate::worker::WorkerPhase;

verus! {

/// What to do about a refresh once everything is sent.
#[derive(Debug, Clone, Copy, PartialEq, Eq, Structural)]
pub enum RefreshAction {
    /// Call the refresh and wait for it; its failure fails the operation.
    Synchronous,
    /// Call the refresh on a task of its own; its outcome is not looked at.
    Detached,
    /// Make no call.
    Skip,
}

/// How a bulk operation ended well.
#[derive(Debug, Clone, Copy, PartialEq, Eq, Structural)]
pub struct Completion {
    /// The documents that the successful calls carried.
    pub documents: usize,
    /// The refresh that is still to be made.
    pub refresh: RefreshAction,
}

/// A handle on the termination flag that can be kept and used from any thread.
pub struct Terminator {
    pub flag: Arc<AtomicBool>,
}

/// The front of the pipeline: it takes the producer's mutations and ends the operation.
pub struct ElasticsearchBulkRequest {
    pub handler: Handler,
    pub error_receiver: Receiver<BulkRequestError>,
}

/// The refresh after the drain. It is skipped where exactly one call
/// succeeded and nothing forces a refresh, since that call could carry the
/// refresh itself; otherwise the policy decides.
pub open spec fn refresh_plan(
    interval: RefreshInterval,
    successful_requests: usize,
    force_refresh: bool,
) -> RefreshAction {
    if successful_requests == 1 && !force_refresh {
        RefreshAction::Skip
    } else {
        match interval {
            RefreshInterval::Immediate => RefreshAction::Synchronous,
            RefreshInterval::ImmediateAsync => RefreshAction::Detached,
            RefreshInterval::Background => RefreshAction::Skip,
        }
    }
}

/// The refresh to make after the drain.
pub fn plan_refresh(interval: RefreshInterval, successful_requests: usize, force_refresh: bool) -> (out:
    RefreshAction)
    ensures
        out == refresh_plan(interval, successful_requests, force_refresh),
{
    if successful_requests == 1 && !force_refresh {
        RefreshAction::Skip
    } else {
        match interval {
            RefreshInterval::Immediate => RefreshAction::Synchronous,
            RefreshInterval::ImmediateAsync => RefreshAction::Detached,
            RefreshInterval::Background => RefreshAction::Skip,
        }
    }
}

/// Under the immediate policy the drain is followed by exactly one awaited
/// refresh, unless exactly one call succeeded and nothing forces a refresh:
/// then there is none.
pub proof fn law_immediate_refresh(successful_requests: usize, force_refresh: bool)
    ensures
        refresh_plan(RefreshInterval::Immediate, successful_requests, force_refresh) == if successful_requests
            == 1 && !force_refresh {
            RefreshAction::Skip
        } else {
            RefreshAction::Synchronous
        },
        refresh_plan(RefreshInterval::Background, successful_requests, force_refresh)
            == RefreshAction::Skip,
        refresh_plan(RefreshInterval::ImmediateAsync, successful_requests, force_refresh)
            != RefreshAction::Synchronous,
{
}

impl Terminator {
    /// Requests termination.
    pub fn call(&self) {
        self.flag.store(true, Ordering::SeqCst);
    }
}

impl ElasticsearchBulkRequest {
    /// The pool keeps within its limit.
    pub open spec fn wf(&self) -> bool {
        self.handler.wf()
    }

    /// What a mutating call leaves behind. A new worker carries the
    /// command as its seed and is made only for the first command or below
    /// the limit; a queued command changes no count of workers; a failure
    /// makes no worker.
    pub open spec fn accepted(
        before: &Self,
        after: &Self,
        command: BulkRequestCommand,
        out: Result<Dispatch, BulkRequestError>,
    ) -> bool {
        &&& after.wf()
        &&& Handler::same_wiring(&before.handler, &after.handler)
        &&& after.error_receiver == before.error_receiver
        &&& match out {
            Ok(Dispatch::Spawned(worker)) => {
                &&& after.handler.threads == before.handler.threads + 1
                &&& after.handler.total_docs == saturating_sum(before.handler.total_docs, 1)
                &&& before.handler.threads == 0 || before.handler.threads
                    < before.handler.concurrency
                &&& worker.wf()
                &&& worker.phase == WorkerPhase::Seeded
                &&& worker.initial_command == Some(command)
                &&& worker.total_docs_out == 0
            },
            Ok(Dispatch::Queued) => {
                &&& after.handler.threads == before.handler.threads
                &&& after.handler.total_docs == saturating_sum(before.handler.total_docs, 1)
                &&& before.handler.threads > 0
            },
            Err(e) => {
                &&& after.handler.threads == before.handler.threads
                &&& !(e is NoError)
                &&& e is QueueClosed || after.handler.total_docs == before.handler.total_docs
            },
        }
    }

    /// A coordinator with an empty pool. The error channel has room for one
    /// entry of each worker, so the limit on workers may not exceed what a
    /// channel can be made to hold.
    pub fn new(
        queue_size: usize,
        concurrency: usize,
        batch_size: usize,
        allow_refresh: bool,
        refresh_interval: RefreshInterval,
    ) -> (out: Self)
        requires
            concurrency <= CHANNEL_CAPACITY_LIMIT,
        ensures
            out.wf(),
            out.handler.threads == 0,
            out.handler.total_docs == 0,
            out.handler.concurrency == concurrency,
            out.handler.batch_size == batch_size,
            out.handler.allow_refresh == allow_refresh,
            out.handler.refresh_interval == refresh_interval,
            out.handler.bulk_sender is Some,
    {
        let (etx, erx) = bounded_channel::<BulkRequestError>(concurrency);
        ElasticsearchBulkRequest {
            handler: Handler::new(
                queue_size,
                concurrency,
                batch_size,
                etx,
                &erx,
                allow_refresh,
                refresh_interval,
            ),
            error_receiver: erx,
        }
    }

    /// Checks for a reported failure and the termination flag, and only
    /// then hands the command to the pool.
    fn submit(&mut self, command: BulkRequestCommand) -> (out: Result<Dispatch, BulkRequestError>)
        requires
            old(self).wf(),
        ensures
            Self::accepted(old(self), final(self), command, out),
    {
        match self.handler.check_for_error() {
            Err(e) => Err(e),
            Ok(()) => self.handler.queue_command(command),
        }
    }

    /// Accepts a new document with its version stamps.
    pub fn insert(
        &mut self,
        ctid: u64,
        cmin: u32,
        cmax: u32,
        xmin: u64,
        xmax: u64,
        document: Document,
    ) -> (out: Result<Dispatch, BulkRequestError>)
        requires
            old(self).wf(),
        ensures
            Self::accepted(
                old(self),
                final(self),
                BulkRequestCommand::Insert { ctid, cmin, cmax, xmin, xmax, document },
                out,
            ),
    {
        self.submit(BulkRequestCommand::Insert { ctid, cmin, cmax, xmin, xmax, document })
    }

    /// Accepts a change of a document's end-of-life stamps.
    pub fn update(&mut self, ctid: u64, cmax: u32, xmax: u64) -> (out: Result<
        Dispatch,
        BulkRequestError,
    >)
        requires
            old(self).wf(),
        ensures
            Self::accepted(
                old(self),
                final(self),
                BulkRequestCommand::Update { ctid, cmax, xmax },
                out,
            ),
    {
        self.submit(BulkRequestCommand::Update { ctid, cmax, xmax })
    }

    /// Accepts the deletion of the document version that `xmin` created.
    pub fn delete_by_xmin(&mut self, ctid: u64, xmin: u64) -> (out: Result<
        Dispatch,
        BulkRequestError,
    >)
        requires
            old(self).wf(),
        ensures
            Self::accepted(
                old(self),
                final(self),
                BulkRequestCommand::DeleteByXmin { ctid, xmin },
                out,
            ),
    {
        self.submit(BulkRequestCommand::DeleteByXmin { ctid, xmin })
    }

    /// Accepts the deletion of the document version that `xmax` ended.
    pub fn delete_by_xmax(&mut self, ctid: u64, xmax: u64) -> (out: Result<
        Dispatch,
        BulkRequestError,
    >)
        requires
            old(self).wf(),
        ensures
            Self::accepted(
                old(self),
                final(self),
                BulkRequestCommand::DeleteByXmax { ctid, xmax },
                out,
            ),
    {
        self.submit(BulkRequestCommand::DeleteByXmax { ctid, xmax })
    }

    /// A handle that requests termination when called, from any thread and at any time.
    pub fn terminate(&self) -> (out: Terminator)
        ensures
            out.flag == self.handler.terminated,
    {
        Terminator { flag: share(&self.handler.terminated) }
    }

    /// Requests termination now.
    pub fn terminate_now(&self) {
        self.terminate().call();
    }

    /// Ends the producer's part: after a last look for a failure, the queue
    /// is closed, so that the workers run dry and can be joined.
    pub fn close(&mut self) -> (out: Result<(), BulkRequestError>)
        requires
            old(self).wf(),
        ensures
            final(self).wf(),
            Handler::same_wiring(&old(self).handler, &final(self).handler),
            final(self).handler.threads == old(self).handler.threads,
            final(self).handler.bulk_sender is None,
            exists|reported: Option<BulkRequestError>, terminated: bool| out == #[trigger] verdict(
                reported,
                terminated,
            ),
    {
        let out = self.handler.check_for_error();
        self.handler.close();
        out
    }

    /// What the operation reports once every worker was joined: as the
    /// drain says, and with it the refresh that the policy asks for.
    pub open spec fn finished(
        joined: Seq<Result<usize, String>>,
        failure: Result<(), BulkRequestError>,
        interval: RefreshInterval,
        successful_requests: usize,
        allow_refresh: bool,
        out: Result<Completion, BulkRequestError>,
    ) -> bool {
        match out {
            Ok(done) => drained(joined, failure, Ok(done.documents)) && done.refresh
                == refresh_plan(interval, successful_requests, !allow_refresh),
            Err(e) => drained(joined, failure, Err(e)),
        }
    }

    /// Ends the operation, given what each joined worker returned or the
    /// message it panicked with. A panic, a reported failure or a requested
    /// termination fails it. Otherwise it reports the documents indexed and
    /// the refresh to make, decided by the number of calls that succeeded.
    pub fn finish(self, joined: Vec<Result<usize, String>>) -> (out: Result<
        Completion,
        BulkRequestError,
    >)
        ensures
            exists|
                reported: Option<BulkRequestError>,
                terminated: bool,
                successful_requests: usize,
            | #[trigger]
                Self::finished(
                    joined@,
                    verdict(reported, terminated),
                    self.handler.refresh_interval,
                    successful_requests,
                    self.handler.allow_refresh,
                    out,
                ),
    {
        let successful = share(&self.handler.successful_requests);
        let force_refresh = !self.handler.allow_refresh;
        let interval = self.handler.refresh_interval;
        let ghost results = joined@;
        match self.handler.wait_for_completion(joined) {
            Err(e) => {
                let out = Err(e);
                proof {
                    let (reported, terminated) = choose|
                        reported: Option<BulkRequestError>,
                        terminated: bool,
                    | #[trigger]
                        drained(
                            results,
                            verdict(reported, terminated),
                            Err::<usize, BulkRequestError>(e),
                        );
                    assert(Self::finished(
                        results,
                        verdict(reported, terminated),
                        interval,
                        0,
                        !force_refresh,
                        out,
                    ));
                }
                out
            },
            Ok(documents) => {
                let succeeded = successful.load(Ordering::SeqCst);
                let out = Ok(
                    Completion {
                        documents,
                        refresh: plan_refresh(interval, succeeded, force_refresh),
                    },
                );
                proof {
                    let (reported, terminated) = choose|
                        reported: Option<BulkRequestError>,
                        terminated: bool,
                    | #[trigger]
                        drained(
                            results,
                            verdict(reported, terminated),
                            Ok::<usize, BulkRequestError>(documents),
                        );
                    assert(Self::finished(
                        results,
                        verdict(reported, terminated),
                        interval,
                        succeeded,
                        !force_refresh,
                        out,
                    ));
                }
                out
            },
        }
    }

    /// The verdict on the refresh call, given how it went: its failure is a refresh error.
    pub fn refresh_index(attempt: Result<(), String>) -> (out: Result<(), BulkRequestError>)
        ensures
            match attempt {
                Ok(()) => out is Ok,
                Err(message) => out == Err::<(), BulkRequestError>(
                    BulkRequestError::RefreshError(message),
                ),
            },
    {
        match attempt {
            Ok(()) => Ok(()),
            Err(message) => Err(BulkRequestError::RefreshError(message)),
        }
    }
}

} // verus!
