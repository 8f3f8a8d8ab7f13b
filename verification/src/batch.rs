use vstd::prelude::*;
use crate::command::BulkRequestCommand;
use crate::receiver::BulkReceiver;
use crate::wire::command_bytes;

verus! {

/// One successful pull of a batch: what the queue gave it, the most bytes
/// that the caller would take, and the bytes that it handed out.
pub struct Pull {
    pub incoming: Option<BulkRequestCommand>,
    pub limit: usize,
    pub chunk: Vec<u8>,
}

/// Pull `i` took `states[i]` to `states[i + 1]`, with no termination
/// requested, and asked the queue only where the batch needed a command.
pub open spec fn pull_ok(states: Seq<BulkReceiver>, pulls: Seq<Pull>, i: int) -> bool {
    &&& pulls[i].incoming is Some ==> states[i].awaits_command()
    &&& BulkReceiver::pulled(
        &states[i],
        &states[i + 1],
        false,
        pulls[i].incoming,
        pulls[i].limit,
        Ok(pulls[i].chunk),
    )
}

/// A batch's history: its states, and between each two the pull that led from one to the next.
pub open spec fn is_run(states: Seq<BulkReceiver>, pulls: Seq<Pull>) -> bool {
    &&& states.len() == pulls.len() + 1
    &&& forall|i: int| 0 <= i < pulls.len() ==> #[trigger] pull_ok(states, pulls, i)
}

/// The commands that the pulls encoded, in the order in which they were taken.
pub open spec fn taken(states: Seq<BulkReceiver>, pulls: Seq<Pull>) -> Seq<BulkRequestCommand>
    decreases pulls.len(),
{
    if pulls.len() == 0 || states.len() != pulls.len() + 1 {
        Seq::empty()
    } else {
        let n = pulls.len() - 1;
        let earlier = taken(states.drop_last(), pulls.drop_last());
        match states[n].next_command(pulls[n].incoming) {
            Some(command) => earlier.push(command),
            None => earlier,
        }
    }
}

/// The lines of the commands, one command after the other.
pub open spec fn lines_of(commands: Seq<BulkRequestCommand>) -> Seq<u8>
    decreases commands.len(),
{
    if commands.len() == 0 {
        Seq::empty()
    } else {
        lines_of(commands.drop_last()) + command_bytes(commands.last())
    }
}

/// The bytes that the pulls handed out, one chunk after the other.
pub open spec fn streamed(pulls: Seq<Pull>) -> Seq<u8>
    decreases pulls.len(),
{
    if pulls.len() == 0 {
        Seq::empty()
    } else {
        streamed(pulls.drop_last()) + pulls.last().chunk@
    }
}

/// Over any history of successful pulls, the bytes handed out and the bytes
/// still waiting are together the bytes that waited at the start followed by
/// the lines of the commands taken, in the order taken: within a batch
/// nothing is dropped, repeated or reordered. The batch counts one document
/// for each command taken, and never more than the cap.
pub proof fn law_batch_is_faithful(states: Seq<BulkReceiver>, pulls: Seq<Pull>)
    requires
        is_run(states, pulls),
        states[0].wf(),
    ensures
        streamed(pulls) + states.last().buffer@ == states[0].buffer@ + lines_of(
            taken(states, pulls),
        ),
        states.last().docs_out == states[0].docs_out + taken(states, pulls).len(),
        states.last().wf(),
    decreases pulls.len(),
{
    if pulls.len() == 0 {
        assert(streamed(pulls) + states.last().buffer@ =~= states[0].buffer@ + lines_of(
            taken(states, pulls),
        ));
    } else {
        let n = pulls.len() - 1;
        let earlier_states = states.drop_last();
        let earlier_pulls = pulls.drop_last();
        assert forall|i: int| 0 <= i < earlier_pulls.len() implies #[trigger] pull_ok(
            earlier_states,
            earlier_pulls,
            i,
        ) by {
            assert(pull_ok(states, pulls, i));
        }
        law_batch_is_faithful(earlier_states, earlier_pulls);
        assert(pull_ok(states, pulls, n));
        assert(earlier_states.last() == states[n]);
        assert(earlier_states[0] == states[0]);
        let before = states[n];
        let after = states[n + 1];
        let next = before.next_command(pulls[n].incoming);
        let pending = match next {
            Some(command) => before.buffer@ + command_bytes(command),
            None => before.buffer@,
        };
        assert(pulls[n].chunk@ + after.buffer@ =~= pending);
        let earlier = taken(earlier_states, earlier_pulls);
        match next {
            Some(command) => {
                assert(taken(states, pulls) == earlier.push(command));
                assert(earlier.push(command).drop_last() =~= earlier);
                assert(lines_of(earlier.push(command)) == lines_of(earlier) + command_bytes(
                    command,
                ));
            },
            None => {
                assert(taken(states, pulls) == earlier);
            },
        }
        assert(streamed(pulls) + after.buffer@ =~= streamed(earlier_pulls) + (pulls[n].chunk@
            + after.buffer@));
        assert(streamed(pulls) + states.last().buffer@ =~= states[0].buffer@ + lines_of(
            taken(states, pulls),
        ));
    }
}

} // verus!
