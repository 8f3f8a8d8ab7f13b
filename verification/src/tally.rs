use vstd::prelude::*;
use crate::command::BulkRequestError;
use crate::receiver::saturating_sum;

verus! {

/// The documents that the joined workers indexed, or the message of the
/// first one that panicked.
pub open spec fn tally(joined: Seq<Result<usize, String>>) -> Result<nat, Seq<char>>
    decreases joined.len(),
{
    if joined.len() == 0 {
        Ok(0)
    } else {
        match tally(joined.drop_last()) {
            Err(message) => Err(message),
            Ok(sum) => match joined.last() {
                Ok(n) => Ok(sum + n as nat),
                Err(message) => Err(message@),
            },
        }
    }
}

/// `n`, held at the largest `usize`.
pub open spec fn clipped(n: nat) -> usize {
    if n <= usize::MAX {
        n as usize
    } else {
        usize::MAX
    }
}

/// What the drain reports: a worker's panic first, then what the producer
/// is told, and the number of documents only where neither stands in the way.
pub open spec fn drained(
    joined: Seq<Result<usize, String>>,
    failure: Result<(), BulkRequestError>,
    out: Result<usize, BulkRequestError>,
) -> bool {
    match tally(joined) {
        Err(message) => out matches Err(BulkRequestError::WorkerPanicked(got)) && got@ == message,
        Ok(sum) => match failure {
            Err(e) => out == Err::<usize, BulkRequestError>(e),
            Ok(()) => out == Ok::<usize, BulkRequestError>(clipped(sum)),
        },
    }
}

/// Sums what the joined workers indexed. The first panic, in the order of
/// the workers, ends the sum and is reported with its message.
pub fn count_documents(joined: Vec<Result<usize, String>>) -> (out: Result<usize, String>)
    ensures
        match tally(joined@) {
            Ok(sum) => out == Ok::<usize, String>(clipped(sum)),
            Err(message) => out matches Err(got) && got@ == message,
        },
{
    let mut count: usize = 0;
    let ghost mut sum: nat = 0;
    let mut i: usize = 0;
    while i < joined.len()
        invariant
            i <= joined.len(),
            tally(joined@.take(i as int)) == Ok::<nat, Seq<char>>(sum),
            count == clipped(sum),
        decreases joined.len() - i,
    {
        let ghost upto = joined@.take(i + 1);
        assert(upto.drop_last() =~= joined@.take(i as int));
        match &joined[i] {
            Ok(n) => {
                count = if *n <= usize::MAX - count {
                    count + *n
                } else {
                    usize::MAX
                };
                proof {
                    sum = sum + *n as nat;
                }
            },
            Err(message) => {
                proof {
                    lemma_tally_fails(upto, joined@);
                }
                return Err(message.clone());
            },
        }
        i += 1;
    }
    assert(joined@.take(i as int) =~= joined@);
    Ok(count)
}

/// Where a prefix of the results holds a panic, the whole reports that same panic.
pub proof fn lemma_tally_fails(prefix: Seq<Result<usize, String>>, all: Seq<Result<usize, String>>)
    requires
        prefix.len() <= all.len(),
        all.take(prefix.len() as int) == prefix,
        tally(prefix) is Err,
    ensures
        tally(all) == tally(prefix),
    decreases all.len() - prefix.len(),
{
    if prefix.len() < all.len() {
        let longer = all.take(prefix.len() as int + 1);
        assert(longer.drop_last() =~= prefix);
        lemma_tally_fails(longer, all);
    } else {
        assert(all =~= prefix);
    }
}

/// The counts of workers that all returned add up.
pub open spec fn sum_of(counts: Seq<usize>) -> nat
    decreases counts.len(),
{
    if counts.len() == 0 {
        0
    } else {
        sum_of(counts.drop_last()) + counts.last() as nat
    }
}

/// The results of workers that all returned, with these counts.
pub open spec fn all_returned(counts: Seq<usize>) -> Seq<Result<usize, String>> {
    Seq::new(counts.len(), |i: int| Ok::<usize, String>(counts[i]))
}

/// Where every worker returned and nothing failed, the drain reports the
/// sum of what the workers indexed: no document is dropped or counted twice
/// on the way from the workers to the result.
pub proof fn law_drain_reports_the_sum(counts: Seq<usize>, out: Result<usize, BulkRequestError>)
    requires
        drained(all_returned(counts), Ok(()), out),
    ensures
        out == Ok::<usize, BulkRequestError>(clipped(sum_of(counts))),
{
    lemma_tally_of_returned(counts);
}

/// The tally of workers that all returned is the sum of their counts.
pub proof fn lemma_tally_of_returned(counts: Seq<usize>)
    ensures
        tally(all_returned(counts)) == Ok::<nat, Seq<char>>(sum_of(counts)),
    decreases counts.len(),
{
    if counts.len() > 0 {
        lemma_tally_of_returned(counts.drop_last());
        assert(all_returned(counts).drop_last() =~= all_returned(counts.drop_last()));
    }
}

/// What a worker's count comes to over its successful batches, added as `Worker::settle` adds them.
pub open spec fn counted(start: usize, batches: Seq<usize>) -> usize
    decreases batches.len(),
{
    if batches.len() == 0 {
        start
    } else {
        saturating_sum(counted(start, batches.drop_last()), batches.last())
    }
}

/// A worker that starts at nothing ends with the sum of the documents of
/// its successful batches.
pub proof fn law_worker_counts_its_batches(batches: Seq<usize>)
    ensures
        counted(0, batches) == clipped(sum_of(batches)),
    decreases batches.len(),
{
    if batches.len() > 0 {
        law_worker_counts_its_batches(batches.drop_last());
    }
}

/// What each worker returns, given the documents of each of its successful batches.
pub open spec fn worker_counts(batches: Seq<Seq<usize>>) -> Seq<usize> {
    Seq::new(batches.len(), |w: int| counted(0, batches[w]))
}

/// The documents of all successful batches of all workers.
pub open spec fn grand_total(batches: Seq<Seq<usize>>) -> nat
    decreases batches.len(),
{
    if batches.len() == 0 {
        0
    } else {
        grand_total(batches.drop_last()) + sum_of(batches.last())
    }
}

/// Where every batch succeeded, every worker returned and nothing was
/// reported, the operation reports the documents of all batches of all
/// workers together. With `law_batch_is_faithful`, which counts one document
/// for each command that a batch took, this is the number of commands that
/// the batches took off the queue and from their seeds.
pub proof fn law_every_document_is_reported(
    batches: Seq<Seq<usize>>,
    out: Result<usize, BulkRequestError>,
)
    requires
        drained(all_returned(worker_counts(batches)), Ok(()), out),
    ensures
        out == Ok::<usize, BulkRequestError>(clipped(grand_total(batches))),
{
    law_drain_reports_the_sum(worker_counts(batches), out);
    lemma_counts_add_up(batches);
}

/// Holding each worker's count at the largest `usize` does not change the held total.
pub proof fn lemma_counts_add_up(batches: Seq<Seq<usize>>)
    ensures
        clipped(sum_of(worker_counts(batches))) == clipped(grand_total(batches)),
    decreases batches.len(),
{
    if batches.len() > 0 {
        let earlier = batches.drop_last();
        lemma_counts_add_up(earlier);
        law_worker_counts_its_batches(batches.last());
        assert(worker_counts(batches).drop_last() =~= worker_counts(earlier));
        assert(worker_counts(batches).last() == counted(0, batches.last()));
    }
}

} // verus!
