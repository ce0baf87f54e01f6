//! What holds of every commit attempt, whatever was staged and however the
//! storage adapter answers.

use vstd::prelude::*;
use crate::domain::Command;
use crate::error::{CommitError, PersistenceError, TransactionLifecycleError};
use crate::port::{dispatch_all, spec_dispatch, PortCall};
use crate::practical::{
    accepted_opening, after_begin, after_opened, after_resolve, begun, committed, issued,
    rolled_back, Lifecycle, Resolution,
};
use crate::replay::{
    attempt, begin_step, calls, calls_of, next, position, resolves, rollback_result, run, staged,
    Action, Phase, ReplayModel,
};

verus! {

/// Whether the transaction of `m` is open and no call has failed, so that the
/// next outcome decides between the next call, the commit and the rollback.
spec fn replaying<E>(m: ReplayModel<E>) -> bool {
    m.phase is Opening || m.phase is Applying
}

/// An element occurs in a sequence with one element put in front exactly when
/// it is that element or occurs in the rest.
proof fn lemma_prepend_contains<A>(first: A, rest: Seq<A>, x: A)
    ensures
        (seq![first] + rest).contains(x) <==> (first == x || rest.contains(x)),
{
    let all = seq![first] + rest;
    if all.contains(x) {
        let i = choose|i: int| 0 <= i < all.len() && all[i] == x;
        if i > 0 {
            assert(rest[i - 1] == x);
        }
    }
    if first == x {
        assert(all[0] == x);
    }
    if rest.contains(x) {
        let j = choose|j: int| 0 <= j < rest.len() && rest[j] == x;
        assert(all[j + 1] == x);
    }
}

/// The port calls among actions with one action put in front.
proof fn lemma_calls_of_prepend<E>(first: Action<E>, rest: Seq<Action<E>>)
    ensures
        calls_of(seq![first] + rest) == match first {
            Action::Call(call) => seq![call] + calls_of(rest),
            _ => calls_of(rest),
        },
{
    assert((seq![first] + rest).drop_first() =~= rest);
}

/// Once the transaction is being resolved, or when none is in progress, at
/// most the result of the attempt is still to come.
proof fn lemma_run_resolving<E>(m: ReplayModel<E>, outcomes: Seq<Result<(), E>>)
    requires
        !replaying(m),
    ensures
        run(m, outcomes).len() <= 1,
        forall|i: int| 0 <= i < run(m, outcomes).len() ==> run(m, outcomes)[i] is Finished,
        !(m.phase is Committing) ==> !run(m, outcomes).contains(Action::Finished(Ok(()))),
        calls_of(run(m, outcomes)) == Seq::<PortCall>::empty(),
{
    let actions = run(m, outcomes);
    if outcomes.len() > 0 {
        let after = next(m, outcomes[0]).0;
        let rest = outcomes.drop_first();
        match next(m, outcomes[0]).1 {
            Ok(action) => {
                assert(after.phase is Finished);
                assert(run(after, rest) =~= Seq::<Action<E>>::empty()) by {
                    if rest.len() > 0 {
                        assert(next(after, rest[0]).1 is Err);
                    }
                }
                assert(actions =~= seq![action]);
                lemma_calls_of_prepend(action, Seq::<Action<E>>::empty());
                assert(seq![action] + Seq::<Action<E>>::empty() =~= seq![action]);
            },
            Err(_) => {},
        }
    }
}

/// The shape of what a replay asks for from the moment its transaction is
/// open: calls for a prefix of the remaining commands in staging order, a
/// commit only after all of them, never both a commit and a rollback.
proof fn lemma_run_replaying<E>(m: ReplayModel<E>, outcomes: Seq<Result<(), E>>)
    requires
        replaying(m),
    ensures
        calls_of(run(m, outcomes)).len() <= m.remaining.len(),
        calls_of(run(m, outcomes)) == dispatch_all(m.remaining).take(
            calls_of(run(m, outcomes)).len() as int,
        ),
        run(m, outcomes).contains(Action::Commit) ==> calls_of(run(m, outcomes)) == dispatch_all(
            m.remaining,
        ) && !run(m, outcomes).contains(Action::Rollback),
        run(m, outcomes).contains(Action::Finished(Ok(()))) ==> run(m, outcomes).contains(
            Action::Commit,
        ),
        !run(m, outcomes).contains(Action::Begin),
    decreases outcomes.len(),
{
    let actions = run(m, outcomes);
    let all = dispatch_all(m.remaining);
    if outcomes.len() == 0 {
        assert(calls_of(actions) =~= all.take(0));
    } else {
        let after = next(m, outcomes[0]).0;
        let rest = outcomes.drop_first();
        let action = next(m, outcomes[0]).1->Ok_0;
        let tail = run(after, rest);
        assert(actions == seq![action] + tail);
        lemma_calls_of_prepend(action, tail);
        lemma_prepend_contains(action, tail, Action::Commit);
        lemma_prepend_contains(action, tail, Action::Rollback);
        lemma_prepend_contains(action, tail, Action::Finished(Ok(())));
        lemma_prepend_contains(action, tail, Action::Begin);
        if replaying(after) {
            let first = m.remaining[0];
            assert(action == Action::<E>::Call(spec_dispatch(first)));
            assert(after.remaining == m.remaining.drop_first());
            lemma_run_replaying(after, rest);
            let later = calls_of(tail);
            assert(calls_of(actions) == seq![spec_dispatch(first)] + later);
            assert(calls_of(actions) =~= all.take(calls_of(actions).len() as int)) by {
                assert forall|i: int| 0 <= i < calls_of(actions).len() implies calls_of(
                    actions,
                )[i] == all[i] by {
                    if i > 0 {
                        assert(later[i - 1] == dispatch_all(after.remaining)[i - 1]);
                    }
                }
            }
            if tail.contains(Action::Commit) {
                assert(calls_of(actions) =~= all);
            }
        } else {
            lemma_run_resolving(after, rest);
            assert(forall|i: int| 0 <= i < tail.len() ==> tail[i] is Finished);
            assert(!tail.contains(Action::Commit));
            assert(!tail.contains(Action::Rollback));
            assert(!tail.contains(Action::Begin));
            assert(calls_of(actions) =~= all.take(0));
            if action == Action::<E>::Commit {
                assert(m.remaining.len() == 0);
                assert(calls_of(actions) =~= all);
            }
        }
    }
}

/// Whether the result at place `i` of `actions` comes where a result may
/// come: last, and right after the action that ended the transaction.
spec fn result_in_place<E>(actions: Seq<Action<E>>, i: int) -> bool {
    i == actions.len() - 1 && i > 0 && resolves(actions[i - 1])
}

/// From the moment its transaction is being opened, a replay ends the
/// transaction at most once, and hands out a result only as its last action:
/// at once when the transaction could not be opened, otherwise right after the
/// commit or the rollback.
proof fn lemma_run_resolves_once<E>(m: ReplayModel<E>, outcomes: Seq<Result<(), E>>)
    requires
        replaying(m),
    ensures
        forall|i: int, j: int|
            0 <= i < j < run(m, outcomes).len() ==> !(resolves(run(m, outcomes)[i]) && resolves(
                run(m, outcomes)[j],
            )),
        forall|i: int|
            0 <= i < run(m, outcomes).len() && (#[trigger] run(m, outcomes)[i]) is Finished
                ==> result_in_place(run(m, outcomes), i) || (i == 0 && run(m, outcomes).len() == 1
                && m.phase is Opening && run(m, outcomes)[i] matches Action::Finished(
                Err(CommitError::BeginFailed(_)),
            )),
    decreases outcomes.len(),
{
    let actions = run(m, outcomes);
    if outcomes.len() > 0 {
        let after = next(m, outcomes[0]).0;
        let rest = outcomes.drop_first();
        let action = next(m, outcomes[0]).1->Ok_0;
        let tail = run(after, rest);
        assert(actions == seq![action] + tail);
        assert(forall|i: int| 0 < i < actions.len() ==> actions[i] == tail[i - 1]);
        if replaying(after) {
            lemma_run_resolves_once(after, rest);
            assert forall|i: int|
                0 <= i < actions.len() && (#[trigger] actions[i]) is Finished implies result_in_place(
                actions,
                i,
            ) by {
                assert(tail[i - 1] is Finished);
                assert(result_in_place(tail, i - 1));
            }
        } else {
            lemma_run_resolving(after, rest);
            if action is Finished {
                assert(tail =~= Seq::<Action<E>>::empty()) by {
                    if rest.len() > 0 {
                        assert(next(after, rest[0]).1 is Err);
                    }
                }
            }
        }
    }
}

/// A commit attempt issues port calls for the staged commands in exactly the
/// staging order: whatever the outcomes, the calls it asks for are those of a
/// leading part of the batch, one per command, none skipped or reordered.
pub proof fn law_calls_follow_staging_order<E>(batch: Seq<Command>, outcomes: Seq<Result<(), E>>)
    ensures
        calls_of(attempt(batch, outcomes)).len() <= batch.len(),
        calls_of(attempt(batch, outcomes)) == dispatch_all(batch).take(
            calls_of(attempt(batch, outcomes)).len() as int,
        ),
{
    let opening = begin_step(staged::<E>(batch)).0;
    lemma_run_replaying(opening, outcomes);
    lemma_calls_of_prepend(Action::<E>::Begin, run(opening, outcomes));
}

/// A commit attempt is all or nothing. The transaction is opened once. It is
/// committed only after every command of the batch was applied, in order, and
/// then it is not rolled back; an attempt that reports success has committed.
pub proof fn law_commit_is_all_or_nothing<E>(batch: Seq<Command>, outcomes: Seq<Result<(), E>>)
    ensures
        attempt(batch, outcomes)[0] == Action::<E>::Begin,
        !attempt(batch, outcomes).drop_first().contains(Action::Begin),
        attempt(batch, outcomes).contains(Action::Commit) ==> calls_of(attempt(batch, outcomes))
            == dispatch_all(batch),
        !(attempt(batch, outcomes).contains(Action::Commit) && attempt(batch, outcomes).contains(
            Action::Rollback,
        )),
        attempt(batch, outcomes).contains(Action::Finished(Ok(()))) ==> attempt(
            batch,
            outcomes,
        ).contains(Action::Commit),
{
    let opening = begin_step(staged::<E>(batch)).0;
    let tail = run(opening, outcomes);
    lemma_run_replaying(opening, outcomes);
    lemma_calls_of_prepend(Action::<E>::Begin, tail);
    lemma_prepend_contains(Action::<E>::Begin, tail, Action::Commit);
    lemma_prepend_contains(Action::<E>::Begin, tail, Action::Rollback);
    lemma_prepend_contains(Action::<E>::Begin, tail, Action::Finished(Ok(())));
    assert(attempt(batch, outcomes).drop_first() =~= tail);
}

/// What a replay asks for, from the moment its transaction is open, while
/// every outcome is a success: the remaining calls in staging order, the
/// commit, and the successful result.
proof fn lemma_run_all_succeed<E>(m: ReplayModel<E>, outcomes: Seq<Result<(), E>>)
    requires
        replaying(m),
        outcomes.len() == m.remaining.len() + 2,
        forall|i: int| 0 <= i < outcomes.len() ==> outcomes[i] is Ok,
    ensures
        run(m, outcomes) == calls::<E>(dispatch_all(m.remaining)) + seq![
            Action::Commit,
            Action::Finished(Ok(())),
        ],
    decreases m.remaining.len(),
{
    let after = next(m, outcomes[0]).0;
    let rest = outcomes.drop_first();
    let expected = calls::<E>(dispatch_all(m.remaining)) + seq![
        Action::Commit,
        Action::Finished(Ok(())),
    ];
    if m.remaining.len() == 0 {
        let finished = next(after, rest[0]).0;
        let none = rest.drop_first();
        assert(run(finished, none) =~= Seq::<Action<E>>::empty());
        assert(run(after, rest) =~= seq![Action::<E>::Finished(Ok(()))]);
        assert(run(m, outcomes) =~= expected);
    } else {
        lemma_run_all_succeed(after, rest);
        assert(run(m, outcomes) =~= expected) by {
            let tail = run(after, rest);
            let later = calls::<E>(dispatch_all(after.remaining));
            assert(run(m, outcomes) == seq![Action::<E>::Call(spec_dispatch(m.remaining[0]))]
                + tail);
            assert forall|i: int| 0 <= i < expected.len() implies run(m, outcomes)[i]
                == expected[i] by {
                if 0 < i <= later.len() {
                    assert(tail[i - 1] == later[i - 1]);
                }
            }
        }
    }
}

/// The place in its batch of the command that `m` issues after `ahead` more.
spec fn place<E>(m: ReplayModel<E>, ahead: int) -> int {
    position(m) + ahead
}

/// What a replay asks for, from the moment its transaction is open, when the
/// call for the command `ahead` places on fails after the calls before it
/// succeeded: those calls in staging order, the rollback, and the failure.
proof fn lemma_run_call_fails<E>(
    m: ReplayModel<E>,
    outcomes: Seq<Result<(), E>>,
    ahead: int,
    cause: E,
)
    requires
        replaying(m),
        0 <= ahead < m.remaining.len(),
        outcomes.len() == ahead + 3,
        forall|i: int| 0 <= i <= ahead ==> outcomes[i] is Ok,
        outcomes[ahead + 1] == Err::<(), E>(cause),
    ensures
        run(m, outcomes) == calls::<E>(dispatch_all(m.remaining.take(ahead + 1))) + seq![
            Action::Rollback,
            Action::Finished(
                Err(
                    rollback_result(
                        PersistenceError {
                            position: place(m, ahead) as usize,
                            aggregate: m.remaining[ahead].aggregate.spec_kind(),
                            operation: m.remaining[ahead].db_operation,
                            cause,
                        },
                        outcomes[ahead + 2],
                    ),
                ),
            ),
        ],
    decreases ahead,
{
    let after = next(m, outcomes[0]).0;
    let rest = outcomes.drop_first();
    let tail = run(after, rest);
    let failure = PersistenceError {
        position: place(m, ahead) as usize,
        aggregate: m.remaining[ahead].aggregate.spec_kind(),
        operation: m.remaining[ahead].db_operation,
        cause,
    };
    let expected = calls::<E>(dispatch_all(m.remaining.take(ahead + 1))) + seq![
        Action::Rollback,
        Action::Finished(Err(rollback_result(failure, outcomes[ahead + 2]))),
    ];
    assert(run(m, outcomes) == seq![Action::<E>::Call(spec_dispatch(m.remaining[0]))] + tail);
    if ahead == 0 {
        let rolling = next(after, rest[0]).0;
        let last = rest.drop_first();
        let finished = next(rolling, last[0]).0;
        assert(after.phase == Phase::<E>::Applying {
            position: position(m) as usize,
            aggregate: m.remaining[0].aggregate.spec_kind(),
            operation: m.remaining[0].db_operation,
        });
        assert(rolling.phase == Phase::RollingBack(failure));
        assert(run(finished, last.drop_first()) =~= Seq::<Action<E>>::empty());
        assert(run(rolling, last) =~= seq![
            Action::<E>::Finished(Err(rollback_result(failure, outcomes[2]))),
        ]);
        assert(tail =~= seq![
            Action::<E>::Rollback,
            Action::Finished(Err(rollback_result(failure, outcomes[2]))),
        ]);
        assert(run(m, outcomes) =~= expected);
    } else {
        assert(after.remaining == m.remaining.drop_first());
        assert(place(after, ahead - 1) == place(m, ahead));
        lemma_run_call_fails(after, rest, ahead - 1, cause);
        let later = calls::<E>(dispatch_all(after.remaining.take(ahead)));
        assert(run(m, outcomes) =~= expected) by {
            assert forall|i: int| 0 <= i < expected.len() implies run(m, outcomes)[i]
                == expected[i] by {
                if 0 < i <= later.len() {
                    assert(tail[i - 1] == later[i - 1]);
                }
            }
        }
    }
}

/// When the transaction opens, every port call succeeds and the commit
/// succeeds, a commit attempt asks for exactly this: the transaction, the call
/// of each staged command in staging order, the commit; and it reports success.
pub proof fn law_commit_replays_in_staging_order<E>(
    batch: Seq<Command>,
    outcomes: Seq<Result<(), E>>,
)
    requires
        outcomes.len() == batch.len() + 2,
        forall|i: int| 0 <= i < outcomes.len() ==> outcomes[i] is Ok,
    ensures
        attempt(batch, outcomes) == seq![Action::<E>::Begin] + calls::<E>(dispatch_all(batch))
            + seq![Action::Commit, Action::Finished(Ok(()))],
{
    lemma_run_all_succeed(begin_step(staged::<E>(batch)).0, outcomes);
    assert(attempt(batch, outcomes) =~= seq![Action::<E>::Begin] + calls::<E>(
        dispatch_all(batch),
    ) + seq![Action::Commit, Action::Finished(Ok(()))]);
}

/// When the port call for the command at `position` fails after the calls
/// before it succeeded, a commit attempt asks for no further call and rolls
/// the transaction back instead of committing it. It reports the failure with
/// the place, the aggregate variant and the operation of that command, as
/// `TransactionFailed` when the rollback succeeded and as `RollbackFailed` when
/// it did not.
pub proof fn law_failed_call_rolls_back<E>(
    batch: Seq<Command>,
    outcomes: Seq<Result<(), E>>,
    position: usize,
    cause: E,
)
    requires
        position < batch.len(),
        outcomes.len() == position + 3,
        forall|i: int| 0 <= i <= position ==> outcomes[i] is Ok,
        outcomes[position + 1] == Err::<(), E>(cause),
    ensures
        attempt(batch, outcomes) == seq![Action::<E>::Begin] + calls::<E>(
            dispatch_all(batch.take(position + 1)),
        ) + seq![
            Action::Rollback,
            Action::Finished(
                Err(
                    rollback_result(
                        PersistenceError {
                            position,
                            aggregate: batch[position as int].aggregate.spec_kind(),
                            operation: batch[position as int].db_operation,
                            cause,
                        },
                        outcomes[position + 2],
                    ),
                ),
            ),
        ],
        !attempt(batch, outcomes).contains(Action::Commit),
{
    let opening = begin_step(staged::<E>(batch)).0;
    lemma_run_call_fails(opening, outcomes, position as int, cause);
    assert(place(opening, position as int) == position);
    law_commit_is_all_or_nothing(batch, outcomes);
    let actions = attempt(batch, outcomes);
    assert(actions[position + 2] == Action::<E>::Rollback);
    assert(actions.contains(Action::Rollback));
}

/// Committing with nothing staged succeeds without any port call: the attempt
/// opens a transaction and commits it, and asks for nothing in between.
pub proof fn law_empty_commit_issues_no_calls<E>(outcomes: Seq<Result<(), E>>)
    ensures
        calls_of(attempt(Seq::<Command>::empty(), outcomes)) == Seq::<PortCall>::empty(),
        outcomes == seq![Ok::<(), E>(()), Ok::<(), E>(())] ==> attempt(
            Seq::<Command>::empty(),
            outcomes,
        ) == seq![Action::<E>::Begin, Action::Commit, Action::Finished(Ok(()))],
{
    let batch = Seq::<Command>::empty();
    law_calls_follow_staging_order(batch, outcomes);
    assert(calls_of(attempt(batch, outcomes)) =~= Seq::<PortCall>::empty());
    if outcomes == seq![Ok::<(), E>(()), Ok::<(), E>(())] {
        law_commit_replays_in_staging_order(batch, outcomes);
        assert(attempt(batch, outcomes) =~= seq![
            Action::<E>::Begin,
            Action::Commit,
            Action::Finished(Ok(())),
        ]);
    }
}

/// The transaction of a replay is asked for once and resolved once: a second
/// request fails with `AlreadyStarted`, and an outcome reported before the
/// request, or after the result was handed out, fails with `NotStarted`. Either
/// failure leaves the replay as it was.
pub proof fn law_replay_lifecycle<E>(m: ReplayModel<E>, outcome: Result<(), E>)
    ensures
        begin_step(begin_step(m).0) == (
            begin_step(m).0,
            Err::<Action<E>, TransactionLifecycleError>(TransactionLifecycleError::AlreadyStarted),
        ),
        m.phase is Staged || m.phase is Finished ==> next(m, outcome) == (
            m,
            Err::<Action<E>, TransactionLifecycleError>(TransactionLifecycleError::NotStarted),
        ),
        next(m, outcome).1 is Ok && next(m, outcome).1->Ok_0 is Finished ==> next(
            next(m, outcome).0,
            outcome,
        ).1 == Err::<Action<E>, TransactionLifecycleError>(TransactionLifecycleError::NotStarted),
{
}

/// The explicit transaction state machine rejects misuse and never holds two
/// transactions. Without a transaction in progress, commit, rollback and every
/// repository operation fail with `NotStarted`. A transaction that was asked
/// for cannot be asked for again, neither while it is being opened nor once it
/// is active: the second request fails with `AlreadyStarted` and keeps the
/// first handle. Once the active transaction is committed or rolled back the
/// machine is idle, and a new transaction can be asked for.
pub proof fn law_transaction_lifecycle<T>(state: Lifecycle<T>, handle: T, call: PortCall)
    ensures
        !(state is Active) ==> committed(state) == Err::<
            Resolution<T>,
            TransactionLifecycleError,
        >(TransactionLifecycleError::NotStarted),
        !(state is Active) ==> rolled_back(state) == Err::<
            Resolution<T>,
            TransactionLifecycleError,
        >(TransactionLifecycleError::NotStarted),
        !(state is Active) ==> issued(state, call) == Err::<PortCall, TransactionLifecycleError>(
            TransactionLifecycleError::NotStarted,
        ),
        !(state is Active) ==> after_resolve(state) == state,
        begun(after_begin(state)) == Err::<(), TransactionLifecycleError>(
            TransactionLifecycleError::AlreadyStarted,
        ),
        after_begin(after_begin(state)) == after_begin(state),
        begun(state) is Ok ==> after_opened(after_begin(state), Some(handle)) == Lifecycle::Active(
            handle,
        ),
        begun(Lifecycle::Active(handle)) == Err::<(), TransactionLifecycleError>(
            TransactionLifecycleError::AlreadyStarted,
        ),
        accepted_opening(Lifecycle::Active(handle)) is Err,
        after_opened(Lifecycle::Active(handle), Some(handle)) == Lifecycle::Active(handle),
        after_resolve(Lifecycle::Active(handle)) == Lifecycle::<T>::Idle,
        begun(after_resolve(Lifecycle::Active(handle))) is Ok,
{
}

/// Every commit attempt opens one transaction and ends it at most once, by a
/// commit or by a rollback. The result of the attempt is its last action. It
/// comes right after the request for the transaction when that could not be
/// opened, and this is then what it says; otherwise it comes right after the
/// action that ended the transaction.
pub proof fn law_transaction_is_resolved_once<E>(
    batch: Seq<Command>,
    outcomes: Seq<Result<(), E>>,
)
    ensures
        forall|i: int, j: int|
            0 <= i < j < attempt(batch, outcomes).len() ==> !(resolves(
                attempt(batch, outcomes)[i],
            ) && resolves(attempt(batch, outcomes)[j])),
        forall|i: int|
            0 <= i < attempt(batch, outcomes).len() && (#[trigger] attempt(
                batch,
                outcomes,
            )[i]) is Finished ==> i == attempt(batch, outcomes).len() - 1 && i > 0 && (resolves(
                attempt(batch, outcomes)[i - 1],
            ) || (i == 1 && attempt(batch, outcomes)[i] matches Action::Finished(
                Err(CommitError::BeginFailed(_)),
            ))),
{
    let opening = begin_step(staged::<E>(batch)).0;
    let tail = run(opening, outcomes);
    let actions = attempt(batch, outcomes);
    lemma_run_resolves_once(opening, outcomes);
    assert(forall|i: int| 0 < i < actions.len() ==> actions[i] == tail[i - 1]);
    assert forall|i: int| 0 <= i < actions.len() && (#[trigger] actions[i]) is Finished implies i
        == actions.len() - 1 && i > 0 && (resolves(actions[i - 1]) || (i == 1
        && actions[i] matches Action::Finished(Err(CommitError::BeginFailed(_))))) by {
        assert(tail[i - 1] is Finished);
        if result_in_place(tail, i - 1) {
            assert(actions[i - 1] == tail[i - 2]);
        }
    }
}

} // verus!
