//! The classical unit of work: any aggregate is staged through one generic
//! entry point per operation, and the whole batch is applied by one commit.

use vstd::prelude::*;
use vstd::std_specs::convert::IntoSpec;
use crate::domain::{Aggregate, Command, DBOperation};
use crate::replay::{staged, Replay};

verus! {

/// A coordinator that queues mutations and applies them as one transaction.
pub trait UnitOfWork {
    /// The commands staged and not yet committed, in staging order.
    spec fn staged(&self) -> Seq<Command>;

    /// Stages the creation of `aggregate`. Never fails and performs no I/O.
    fn create<T>(&mut self, aggregate: T) where T: Into<Aggregate>
        ensures
            final(self).staged().len() == old(self).staged().len() + 1,
            final(self).staged().drop_last() == old(self).staged(),
            final(self).staged().last().db_operation == DBOperation::Create,
            T::obeys_into_spec() ==> final(self).staged().last().aggregate
                == aggregate.into_spec(),
    ;

    /// Stages the update of `aggregate`. Never fails and performs no I/O.
    fn update<T>(&mut self, aggregate: T) where T: Into<Aggregate>
        ensures
            final(self).staged().len() == old(self).staged().len() + 1,
            final(self).staged().drop_last() == old(self).staged(),
            final(self).staged().last().db_operation == DBOperation::Update,
            T::obeys_into_spec() ==> final(self).staged().last().aggregate
                == aggregate.into_spec(),
    ;

    /// Stages the deletion of `aggregate`. Never fails and performs no I/O.
    fn delete<T>(&mut self, aggregate: T) where T: Into<Aggregate>
        ensures
            final(self).staged().len() == old(self).staged().len() + 1,
            final(self).staged().drop_last() == old(self).staged(),
            final(self).staged().last().db_operation == DBOperation::Delete,
            T::obeys_into_spec() ==> final(self).staged().last().aggregate
                == aggregate.into_spec(),
    ;

    /// Starts a commit attempt: drains the queue, whatever the attempt will
    /// come to, and hands the batch over as a replay that has not begun.
    fn commit<E>(&mut self) -> (replay: Replay<E>)
        ensures
            final(self).staged() == Seq::<Command>::empty(),
            replay@ == staged::<E>(old(self).staged()),
    ;
}

/// The classical coordinator, bound to the connection its transactions are
/// opened on.
pub struct DatabaseClient<C> {
    conn: C,
    commands: Vec<Command>,
}

impl<C> DatabaseClient<C> {
    /// The connection this coordinator is bound to.
    pub closed spec fn connection(&self) -> C {
        self.conn
    }

    pub fn new(conn: C, commands: Vec<Command>) -> (client: Self)
        ensures
            client.connection() == conn,
            client.staged() == commands@,
    {
        DatabaseClient { conn, commands }
    }

    /// The connection on which the driver of a replay opens the transaction.
    pub fn conn(&self) -> (conn: &C)
        ensures
            *conn == self.connection(),
    {
        &self.conn
    }

    /// The number of staged commands.
    pub fn len(&self) -> (len: usize)
        ensures
            len == self.staged().len(),
    {
        self.commands.len()
    }

    fn stage(&mut self, aggregate: Aggregate, db_operation: DBOperation)
        ensures
            final(self).staged() == old(self).staged().push(Command { aggregate, db_operation }),
            final(self).connection() == old(self).connection(),
    {
        self.commands.push(Command::new(aggregate, db_operation));
    }
}

impl<C> UnitOfWork for DatabaseClient<C> {
    closed spec fn staged(&self) -> Seq<Command> {
        self.commands@
    }

    fn create<T>(&mut self, aggregate: T) where T: Into<Aggregate>
        ensures
            final(self).connection() == old(self).connection(),
    {
        self.stage(aggregate.into(), DBOperation::Create);
        proof {
            assert(final(self).staged().drop_last() =~= old(self).staged());
        }
    }

    fn update<T>(&mut self, aggregate: T) where T: Into<Aggregate>
        ensures
            final(self).connection() == old(self).connection(),
    {
        self.stage(aggregate.into(), DBOperation::Update);
        proof {
            assert(final(self).staged().drop_last() =~= old(self).staged());
        }
    }

    fn delete<T>(&mut self, aggregate: T) where T: Into<Aggregate>
        ensures
            final(self).connection() == old(self).connection(),
    {
        self.stage(aggregate.into(), DBOperation::Delete);
        proof {
            assert(final(self).staged().drop_last() =~= old(self).staged());
        }
    }

    fn commit<E>(&mut self) -> (replay: Replay<E>)
        ensures
            final(self).connection() == old(self).connection(),
    {
        let mut batch: Vec<Command> = Vec::new();
        core::mem::swap(&mut self.commands, &mut batch);
        Replay::new(batch)
    }
}

/// A source of fresh coordinators.
pub trait ProvideUnitOfWork {
    type UnitOfWork: UnitOfWork + Send + Sync;

    /// A coordinator with nothing staged.
    fn provide(&self) -> (uow: Self::UnitOfWork)
        ensures
            uow.staged() == Seq::<Command>::empty(),
    ;
}

/// Hands out classical coordinators bound to clones of one connection.
pub struct Context<C> {
    conn: C,
}

impl<C> Context<C> {
    /// The connection the coordinators are bound to.
    pub closed spec fn connection(&self) -> C {
        self.conn
    }

    pub fn new(conn: C) -> (context: Self)
        ensures
            context.connection() == conn,
    {
        Context { conn }
    }
}

impl<C: Clone + Send + Sync> ProvideUnitOfWork for Context<C> {
    type UnitOfWork = DatabaseClient<C>;

    fn provide(&self) -> (uow: DatabaseClient<C>)
        ensures
            call_ensures(C::clone, (&self.connection(),), uow.connection()),
    {
        DatabaseClient::new(self.conn.clone(), Vec::new())
    }
}

} // verus!
