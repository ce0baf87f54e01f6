//! The replay of one drained batch inside one transaction.
//!
//! A [`Replay`] performs no I/O. It tells its driver which operation to perform
//! next (an [`Action`]) and is told how that operation ended. The driver opens
//! the transaction, issues the port calls against it and resolves it; the replay
//! decides the order of the calls, stops at the first failure, and makes sure
//! the transaction is committed only when every call succeeded and rolled back
//! otherwise. A replay of an empty batch is no special case: it opens a
//! transaction and commits it, with no call in between.

use vstd::prelude::*;
use std::collections::VecDeque;
use crate::domain::{AggregateKind, Command, DBOperation};
use crate::error::{CommitError, PersistenceError, TransactionLifecycleError};
use crate::port::{dispatch, spec_dispatch, PortCall};

verus! {

/// What the driver of a replay must do next.
#[derive(Debug, PartialEq, Eq)]
pub enum Action<E> {
    /// Open the transaction.
    Begin,
    /// Issue this port call inside the open transaction.
    Call(PortCall),
    /// Commit the open transaction.
    Commit,
    /// Roll the open transaction back.
    Rollback,
    /// Nothing more: the commit attempt ended with this result.
    Finished(Result<(), CommitError<E>>),
}

/// Where a replay stands.
#[derive(Debug, PartialEq, Eq)]
pub enum Phase<E> {
    /// The batch is drained; no transaction was asked for yet.
    Staged,
    /// The transaction is being opened.
    Opening,
    /// The port call for the command at `position` is in flight.
    Applying { position: usize, aggregate: AggregateKind, operation: DBOperation },
    /// Every call succeeded; the transaction is being committed.
    Committing,
    /// A call failed; the transaction is being rolled back.
    RollingBack(PersistenceError<E>),
    /// The transaction is resolved, or was never opened.
    Finished,
}

/// The mathematical state of a replay: the commands not yet issued, in staging
/// order, the size of the whole batch, and the phase.
pub struct ReplayModel<E> {
    pub remaining: Seq<Command>,
    pub total: nat,
    pub phase: Phase<E>,
}

/// The state of a replay of `batch` before anything was done.
pub open spec fn staged<E>(batch: Seq<Command>) -> ReplayModel<E> {
    ReplayModel { remaining: batch, total: batch.len(), phase: Phase::Staged }
}

/// The request to open the transaction: granted once, before anything else.
pub open spec fn begin_step<E>(m: ReplayModel<E>) -> (
    ReplayModel<E>,
    Result<Action<E>, TransactionLifecycleError>,
) {
    if m.phase is Staged {
        (ReplayModel { phase: Phase::Opening, ..m }, Ok(Action::Begin))
    } else {
        (m, Err(TransactionLifecycleError::AlreadyStarted))
    }
}

/// The place in the batch of the first command not yet issued.
pub open spec fn position<E>(m: ReplayModel<E>) -> int {
    m.total - m.remaining.len()
}

/// With the transaction open and every call so far successful: issue the next
/// command in staging order, or commit when none is left.
pub open spec fn issue_step<E>(m: ReplayModel<E>) -> (ReplayModel<E>, Action<E>) {
    if m.remaining.len() > 0 {
        let command = m.remaining[0];
        (
            ReplayModel {
                remaining: m.remaining.drop_first(),
                total: m.total,
                phase: Phase::Applying {
                    position: position(m) as usize,
                    aggregate: command.aggregate.spec_kind(),
                    operation: command.db_operation,
                },
            },
            Action::Call(spec_dispatch(command)),
        )
    } else {
        (ReplayModel { phase: Phase::Committing, ..m }, Action::Commit)
    }
}

/// The transition on the outcome of the operation that the last action asked for.
pub open spec fn next<E>(m: ReplayModel<E>, outcome: Result<(), E>) -> (
    ReplayModel<E>,
    Result<Action<E>, TransactionLifecycleError>,
) {
    let finished = ReplayModel { phase: Phase::Finished, ..m };
    match m.phase {
        Phase::Staged | Phase::Finished => (m, Err(TransactionLifecycleError::NotStarted)),
        Phase::Opening => match outcome {
            Ok(_) => (issue_step(m).0, Ok(issue_step(m).1)),
            Err(cause) => (finished, Ok(Action::Finished(Err(CommitError::BeginFailed(cause))))),
        },
        Phase::Applying { position, aggregate, operation } => match outcome {
            Ok(_) => (issue_step(m).0, Ok(issue_step(m).1)),
            Err(cause) => (
                ReplayModel {
                    phase: Phase::RollingBack(
                        PersistenceError { position, aggregate, operation, cause },
                    ),
                    ..m
                },
                Ok(Action::Rollback),
            ),
        },
        Phase::Committing => match outcome {
            Ok(_) => (finished, Ok(Action::Finished(Ok(())))),
            Err(cause) => (finished, Ok(Action::Finished(Err(CommitError::CommitFailed(cause))))),
        },
        Phase::RollingBack(failure) => (
            finished,
            Ok(Action::Finished(Err(rollback_result(failure, outcome)))),
        ),
    }
}

/// The error of a commit attempt in which a port call failed with `failure`,
/// by the outcome of the rollback: the failure itself when the transaction
/// was rolled back, the fatal error when the rollback failed as well.
pub open spec fn rollback_result<E>(failure: PersistenceError<E>, rollback: Result<(), E>)
    -> CommitError<E> {
    match rollback {
        Ok(_) => CommitError::TransactionFailed(failure),
        Err(cause) => CommitError::RollbackFailed { failure, cause },
    }
}

/// Whether `action` ends a transaction.
pub open spec fn resolves<E>(action: Action<E>) -> bool {
    action is Commit || action is Rollback
}

/// The actions a replay asks for, in order, while its driver reports
/// `outcomes`, one for each action performed. The sequence ends where the
/// replay has nothing in progress any more.
pub open spec fn run<E>(m: ReplayModel<E>, outcomes: Seq<Result<(), E>>) -> Seq<Action<E>>
    decreases outcomes.len(),
{
    if outcomes.len() == 0 {
        Seq::empty()
    } else {
        match next(m, outcomes[0]).1 {
            Ok(action) => seq![action] + run(next(m, outcomes[0]).0, outcomes.drop_first()),
            Err(_) => Seq::empty(),
        }
    }
}

/// The course of one commit attempt on `batch`: the request for the
/// transaction, then what the replay asks for while its driver reports
/// `outcomes`.
pub open spec fn attempt<E>(batch: Seq<Command>, outcomes: Seq<Result<(), E>>) -> Seq<Action<E>> {
    seq![Action::Begin] + run(begin_step(staged::<E>(batch)).0, outcomes)
}

/// The port calls among `actions`, in order.
pub open spec fn calls_of<E>(actions: Seq<Action<E>>) -> Seq<PortCall>
    decreases actions.len(),
{
    if actions.len() == 0 {
        Seq::empty()
    } else {
        match actions[0] {
            Action::Call(call) => seq![call] + calls_of(actions.drop_first()),
            _ => calls_of(actions.drop_first()),
        }
    }
}

/// The actions that ask for `calls`, one by one.
pub open spec fn calls<E>(calls: Seq<PortCall>) -> Seq<Action<E>> {
    Seq::new(calls.len(), |i: int| Action::Call(calls[i]))
}

/// One drained batch on its way through one transaction.
pub struct Replay<E> {
    pending: VecDeque<Command>,
    total: usize,
    phase: Phase<E>,
}

impl<E> View for Replay<E> {
    type V = ReplayModel<E>;

    closed spec fn view(&self) -> ReplayModel<E> {
        ReplayModel { remaining: self.pending@, total: self.total as nat, phase: self.phase }
    }
}

impl<E> Replay<E> {
    #[verifier::type_invariant]
    spec fn no_more_pending_than_staged(self) -> bool {
        self.pending@.len() <= self.total
    }

    /// Takes over a drained batch. The commands will be issued first to last.
    pub fn new(commands: Vec<Command>) -> (replay: Self)
        ensures
            replay@ == staged::<E>(commands@),
    {
        let total = commands.len();
        let ghost batch = commands@;
        let mut commands = commands;
        let mut pending: VecDeque<Command> = VecDeque::new();
        loop
            invariant
                commands@ + pending@ == batch,
                batch.len() == total,
            ensures
                commands@.len() == 0,
            decreases commands@.len(),
        {
            match commands.pop() {
                Some(command) => {
                    proof {
                        assert(commands@ + (seq![command] + pending@) =~= batch);
                    }
                    pending.push_front(command);
                },
                None => {
                    break ;
                },
            }
        }
        proof {
            assert(pending@ =~= batch);
        }
        Replay { pending, total, phase: Phase::Staged }
    }

    /// The number of commands in the batch.
    pub fn total(&self) -> (total: usize)
        ensures
            total == self@.total,
    {
        self.total
    }

    /// The number of commands not yet issued.
    pub fn remaining(&self) -> (remaining: usize)
        ensures
            remaining == self@.remaining.len(),
    {
        self.pending.len()
    }

    /// Whether the commit attempt is over: its result was handed out.
    pub fn is_finished(&self) -> (finished: bool)
        ensures
            finished == (self@.phase is Finished),
    {
        match self.phase {
            Phase::Finished => true,
            _ => false,
        }
    }

    /// Asks for the transaction. Granted once, on a replay that has not begun:
    /// the driver must then open a transaction and report how that went to
    /// [`Replay::advance`]. On a replay that has begun this fails with
    /// `AlreadyStarted` and changes nothing.
    pub fn begin(&mut self) -> (action: Result<Action<E>, TransactionLifecycleError>)
        ensures
            final(self)@ == begin_step(old(self)@).0,
            action == begin_step(old(self)@).1,
    {
        proof {
            use_type_invariant(&*self);
        }
        match self.phase {
            Phase::Staged => {
                self.phase = Phase::Opening;
                Ok(Action::Begin)
            },
            _ => Err(TransactionLifecycleError::AlreadyStarted),
        }
    }

    /// Takes the outcome of the operation that the last action asked for and
    /// says what to do next. Fails with `NotStarted`, changing nothing, on a
    /// replay without a transaction in progress: one that has not begun or has
    /// finished.
    pub fn advance(&mut self, outcome: Result<(), E>) -> (action: Result<
        Action<E>,
        TransactionLifecycleError,
    >)
        ensures
            final(self)@ == next(old(self)@, outcome).0,
            action == next(old(self)@, outcome).1,
    {
        proof {
            use_type_invariant(&*self);
        }
        let mut phase = Phase::Finished;
        core::mem::swap(&mut self.phase, &mut phase);
        match phase {
            Phase::Staged => {
                self.phase = Phase::Staged;
                Err(TransactionLifecycleError::NotStarted)
            },
            Phase::Finished => Err(TransactionLifecycleError::NotStarted),
            Phase::Opening => match outcome {
                Ok(_) => Ok(self.issue()),
                Err(cause) => Ok(Action::Finished(Err(CommitError::BeginFailed(cause)))),
            },
            Phase::Applying { position, aggregate, operation } => match outcome {
                Ok(_) => Ok(self.issue()),
                Err(cause) => {
                    self.phase = Phase::RollingBack(
                        PersistenceError { position, aggregate, operation, cause },
                    );
                    Ok(Action::Rollback)
                },
            },
            Phase::Committing => match outcome {
                Ok(_) => Ok(Action::Finished(Ok(()))),
                Err(cause) => Ok(Action::Finished(Err(CommitError::CommitFailed(cause)))),
            },
            Phase::RollingBack(failure) => match outcome {
                Ok(_) => Ok(Action::Finished(Err(CommitError::TransactionFailed(failure)))),
                Err(cause) => Ok(
                    Action::Finished(Err(CommitError::RollbackFailed { failure, cause })),
                ),
            },
        }
    }

    /// Hands out the next command as a port call, or asks for the commit when
    /// the batch is used up.
    fn issue(&mut self) -> (action: Action<E>)
        ensures
            final(self)@.remaining == issue_step(old(self)@).0.remaining,
            final(self)@.total == issue_step(old(self)@).0.total,
            final(self)@.phase == issue_step(old(self)@).0.phase,
            action == issue_step(old(self)@).1,
    {
        proof {
            use_type_invariant(&*self);
        }
        let mut pending: VecDeque<Command> = VecDeque::new();
        core::mem::swap(&mut self.pending, &mut pending);
        let position = self.total - pending.len();
        match pending.pop_front() {
            Some(command) => {
                let aggregate = command.aggregate.kind();
                let operation = command.db_operation;
                self.pending = pending;
                self.phase = Phase::Applying { position, aggregate, operation };
                Action::Call(dispatch(command))
            },
            None => {
                self.pending = pending;
                self.phase = Phase::Committing;
                Action::Commit
            },
        }
    }
}

} // verus!
