use vstd::prelude::*;

use crate::session::BlinkError;

verus! {

/// What a broadcast asks for next.
#[derive(Debug, Clone, Copy, PartialEq, Eq)]
pub enum BroadcastAction {
    /// Deliver the command to the matching device at this position, counted
    /// in enumeration order.
    SendTo(usize),
    /// The broadcast is over, with this result.
    Finish(Result<usize, BlinkError>),
}

/// One command sent to every matching device in turn. The byte counts are
/// added up; the first failure ends the broadcast.
#[derive(Debug, Clone, Copy, PartialEq, Eq)]
pub struct Broadcast {
    /// How many devices matched.
    pub targets: usize,
    /// How many devices have answered.
    pub answered: usize,
    /// Bytes written so far (saturating).
    pub total: usize,
    /// The result, once the broadcast is over.
    pub finished: Option<Result<usize, BlinkError>>,
}

/// The sum of the byte counts of the successful deliveries in `results`.
pub open spec fn total_of(results: Seq<Result<usize, BlinkError>>) -> int
    decreases results.len(),
{
    if results.len() == 0 {
        0
    } else {
        total_of(results.drop_last()) + match results.last() {
            Ok(k) => k as int,
            Err(_) => 0,
        }
    }
}

pub open spec fn spec_begin(targets: usize) -> (Broadcast, BroadcastAction) {
    if targets == 0 {
        (
            Broadcast { targets, answered: 0, total: 0, finished: Some(Ok(0)) },
            BroadcastAction::Finish(Ok(0)),
        )
    } else {
        (
            Broadcast { targets, answered: 0, total: 0, finished: None },
            BroadcastAction::SendTo(0),
        )
    }
}

/// `a + b`, or `usize::MAX` where that does not fit.
pub open spec fn saturating(a: usize, b: usize) -> usize {
    if a + b <= usize::MAX {
        (a + b) as usize
    } else {
        usize::MAX
    }
}

/// The state and action that follow the result of the pending delivery.
pub open spec fn spec_record(b: Broadcast, result: Result<usize, BlinkError>) -> (
    Broadcast,
    BroadcastAction,
) {
    match b.finished {
        Some(done) => (b, BroadcastAction::Finish(done)),
        None => match result {
            Err(e) => (
                Broadcast { answered: (b.answered + 1) as usize, finished: Some(Err(e)), ..b },
                BroadcastAction::Finish(Err(e)),
            ),
            Ok(k) => {
                let total = saturating(b.total, k);
                if b.answered + 1 >= b.targets {
                    (
                        Broadcast {
                            answered: (b.answered + 1) as usize,
                            total,
                            finished: Some(Ok(total)),
                            ..b
                        },
                        BroadcastAction::Finish(Ok(total)),
                    )
                } else {
                    (
                        Broadcast { answered: (b.answered + 1) as usize, total, ..b },
                        BroadcastAction::SendTo((b.answered + 1) as usize),
                    )
                }
            },
        },
    }
}

/// A broadcast in progress has answers from fewer devices than it targets.
pub open spec fn consistent(b: Broadcast) -> bool {
    b.finished is None ==> b.answered < b.targets
}

/// The broadcast after it has been handed `results`, one after the other.
pub open spec fn run(b: Broadcast, results: Seq<Result<usize, BlinkError>>) -> Broadcast
    decreases results.len(),
{
    if results.len() == 0 {
        b
    } else {
        spec_record(run(b, results.drop_last()), results.last()).0
    }
}

/// The actions handed out for `results`, one for each.
pub open spec fn actions(b: Broadcast, results: Seq<Result<usize, BlinkError>>) -> Seq<
    BroadcastAction,
>
    decreases results.len(),
{
    if results.len() == 0 {
        Seq::empty()
    } else {
        actions(b, results.drop_last()).push(
            spec_record(run(b, results.drop_last()), results.last()).1,
        )
    }
}

impl Broadcast {
    /// Starts a broadcast to `targets` matching devices. With none, it is over
    /// at once with nothing written.
    pub fn begin(targets: usize) -> (r: (Broadcast, BroadcastAction))
        ensures
            r == spec_begin(targets),
    {
        if targets == 0 {
            (
                Broadcast { targets, answered: 0, total: 0, finished: Some(Ok(0)) },
                BroadcastAction::Finish(Ok(0)),
            )
        } else {
            (Broadcast { targets, answered: 0, total: 0, finished: None }, BroadcastAction::SendTo(0))
        }
    }

    /// Takes the result of the pending delivery and returns the next action.
    pub fn record(&mut self, result: Result<usize, BlinkError>) -> (a: BroadcastAction)
        requires
            consistent(*old(self)),
        ensures
            (*final(self), a) == spec_record(*old(self), result),
            consistent(*final(self)),
    {
        match self.finished {
            Some(done) => BroadcastAction::Finish(done),
            None => match result {
                Err(e) => {
                    self.answered = self.answered + 1;
                    self.finished = Some(Err(e));
                    BroadcastAction::Finish(Err(e))
                },
                Ok(k) => {
                    self.total = self.total.saturating_add(k);
                    self.answered = self.answered + 1;
                    if self.answered >= self.targets {
                        self.finished = Some(Ok(self.total));
                        BroadcastAction::Finish(Ok(self.total))
                    } else {
                        BroadcastAction::SendTo(self.answered)
                    }
                },
            },
        }
    }
}

proof fn lemma_run_take_step(b: Broadcast, results: Seq<Result<usize, BlinkError>>, j: int)
    requires
        0 <= j < results.len(),
    ensures
        run(b, results.take(j + 1)) == spec_record(run(b, results.take(j)), results[j]).0,
        total_of(results.take(j + 1)) == total_of(results.take(j)) + match results[j] {
            Ok(k) => k as int,
            Err(_) => 0,
        },
{
    assert(results.take(j + 1).drop_last() =~= results.take(j));
    assert(results.take(j + 1).last() == results[j]);
}

proof fn lemma_actions_index(b: Broadcast, results: Seq<Result<usize, BlinkError>>, j: int)
    requires
        0 <= j < results.len(),
    ensures
        actions(b, results).len() == results.len(),
        actions(b, results)[j] == spec_record(run(b, results.take(j)), results[j]).1,
    decreases results.len(),
{
    let prefix = results.drop_last();
    if j == results.len() - 1 {
        assert(prefix =~= results.take(j));
        if j > 0 {
            lemma_actions_index(b, prefix, 0);
        }
    } else {
        lemma_actions_index(b, prefix, j);
        assert(prefix.take(j) =~= results.take(j));
    }
}

/// The state of a broadcast to `n > 0` devices after the first `i` of them
/// answered with success.
proof fn lemma_ok_prefix(n: usize, results: Seq<Result<usize, BlinkError>>, i: int)
    requires
        n > 0,
        0 <= i <= n,
        i <= results.len(),
        forall|j: int| 0 <= j < i ==> #[trigger] results[j] is Ok,
    ensures
        run(spec_begin(n).0, results.take(i)).targets == n,
        run(spec_begin(n).0, results.take(i)).answered == i,
        i < n ==> run(spec_begin(n).0, results.take(i)).finished is None,
        total_of(results.take(i)) <= usize::MAX ==> run(spec_begin(n).0, results.take(i)).total
            == total_of(results.take(i)),
        i == n ==> run(spec_begin(n).0, results.take(i)).finished == Some(
            Ok::<usize, BlinkError>(run(spec_begin(n).0, results.take(i)).total),
        ),
    decreases i,
{
    if i == 0 {
        assert(results.take(0) =~= Seq::<Result<usize, BlinkError>>::empty());
    } else {
        lemma_ok_prefix(n, results, i - 1);
        lemma_run_take_step(spec_begin(n).0, results, i - 1);
        assert(results[i - 1] is Ok);
    }
}

/// A broadcast in which every matching device succeeds sends the command to
/// each device once, in enumeration order, and returns the sum of the byte
/// counts.
pub proof fn lemma_broadcast_sums(n: usize, results: Seq<Result<usize, BlinkError>>)
    requires
        results.len() == n,
        forall|j: int| 0 <= j < n ==> #[trigger] results[j] is Ok,
        total_of(results) <= usize::MAX,
    ensures
        run(spec_begin(n).0, results).finished == Some(
            Ok::<usize, BlinkError>(total_of(results) as usize),
        ),
        forall|j: int|
            0 <= j < n - 1 ==> #[trigger] actions(spec_begin(n).0, results)[j]
                == BroadcastAction::SendTo((j + 1) as usize),
{
    if n > 0 {
        assert(results.take(n as int) =~= results);
        lemma_ok_prefix(n, results, n as int);
        assert forall|j: int| 0 <= j < n - 1 implies #[trigger] actions(spec_begin(n).0, results)[j]
            == BroadcastAction::SendTo((j + 1) as usize) by {
            lemma_actions_index(spec_begin(n).0, results, j);
            lemma_ok_prefix(n, results, j);
        }
    }
}

/// When device `k` is the first to fail, devices `0..=k` are sent to in
/// order, no device after `k` is ever sent to, and the broadcast returns that
/// failure.
pub proof fn lemma_broadcast_fails_fast(
    n: usize,
    results: Seq<Result<usize, BlinkError>>,
    k: int,
    e: BlinkError,
)
    requires
        0 <= k < n,
        k < results.len(),
        forall|j: int| 0 <= j < k ==> #[trigger] results[j] is Ok,
        results[k] == Err::<usize, BlinkError>(e),
    ensures
        run(spec_begin(n).0, results).finished == Some(Err::<usize, BlinkError>(e)),
        forall|j: int|
            0 <= j < k ==> #[trigger] actions(spec_begin(n).0, results)[j]
                == BroadcastAction::SendTo((j + 1) as usize),
        forall|j: int|
            k <= j < results.len() ==> #[trigger] actions(spec_begin(n).0, results)[j]
                == BroadcastAction::Finish(Err(e)),
{
    let b = spec_begin(n).0;
    assert forall|j: int| 0 <= j < k implies #[trigger] actions(b, results)[j]
        == BroadcastAction::SendTo((j + 1) as usize) by {
        lemma_actions_index(b, results, j);
        lemma_ok_prefix(n, results, j);
    }
    assert forall|j: int| k < j <= results.len() implies #[trigger] run(b, results.take(j)).finished
        == Some(Err::<usize, BlinkError>(e)) by {
        lemma_failed_stays(n, results, k, e, j);
    }
    assert forall|j: int| k <= j < results.len() implies #[trigger] actions(b, results)[j]
        == BroadcastAction::Finish(Err(e)) by {
        lemma_actions_index(b, results, j);
        if j == k {
            lemma_ok_prefix(n, results, k);
        } else {
            lemma_failed_stays(n, results, k, e, j);
        }
    }
    lemma_failed_stays(n, results, k, e, results.len() as int);
    assert(results.take(results.len() as int) =~= results);
}

proof fn lemma_failed_stays(
    n: usize,
    results: Seq<Result<usize, BlinkError>>,
    k: int,
    e: BlinkError,
    j: int,
)
    requires
        0 <= k < n,
        k < j <= results.len(),
        forall|i: int| 0 <= i < k ==> #[trigger] results[i] is Ok,
        results[k] == Err::<usize, BlinkError>(e),
    ensures
        run(spec_begin(n).0, results.take(j)).finished == Some(Err::<usize, BlinkError>(e)),
    decreases j,
{
    lemma_run_take_step(spec_begin(n).0, results, j - 1);
    if j == k + 1 {
        lemma_ok_prefix(n, results, k);
    } else {
        lemma_failed_stays(n, results, k, e, j - 1);
    }
}

} // verus!
