//! The classical unit of work behind one repository per aggregate type: a
//! caller depends only on the repositories of the aggregates it uses. Staging,
//! ordering and commit are those of the classical coordinator.

use vstd::prelude::*;
use crate::domain::{Aggregate, Command, DBOperation, Order, Shop, User};
use crate::replay::{staged, Replay};

verus! {

/// A coordinator that applies what its repositories staged as one transaction.
pub trait UnitOfWork {
    /// The commands staged and not yet committed, in staging order.
    spec fn staged(&self) -> Seq<Command>;

    /// Starts a commit attempt: drains the queue, whatever the attempt will
    /// come to, and hands the batch over as a replay that has not begun.
    fn commit<E>(&mut self) -> (replay: Replay<E>)
        ensures
            final(self).staged() == Seq::<Command>::empty(),
            replay@ == staged::<E>(old(self).staged()),
    ;
}

/// The queue after `operation` on `aggregate` was staged behind `before`.
pub open spec fn stage(before: Seq<Command>, aggregate: Aggregate, operation: DBOperation) -> Seq<
    Command,
> {
    before.push(Command { aggregate, db_operation: operation })
}

/// Staged operations on users. Each one appends to the queue; none can fail.
pub trait UserRepository: UnitOfWork {
    fn create_user(&mut self, user: User)
        ensures
            final(self).staged() == stage(
                old(self).staged(),
                Aggregate::User(user),
                DBOperation::Create,
            ),
    ;

    fn update_user(&mut self, user: User)
        ensures
            final(self).staged() == stage(
                old(self).staged(),
                Aggregate::User(user),
                DBOperation::Update,
            ),
    ;

    fn delete_user(&mut self, user: User)
        ensures
            final(self).staged() == stage(
                old(self).staged(),
                Aggregate::User(user),
                DBOperation::Delete,
            ),
    ;
}

/// Staged operations on shops. Each one appends to the queue; none can fail.
pub trait ShopRepository: UnitOfWork {
    fn create_shop(&mut self, shop: Shop)
        ensures
            final(self).staged() == stage(
                old(self).staged(),
                Aggregate::Shop(shop),
                DBOperation::Create,
            ),
    ;

    fn update_shop(&mut self, shop: Shop)
        ensures
            final(self).staged() == stage(
                old(self).staged(),
                Aggregate::Shop(shop),
                DBOperation::Update,
            ),
    ;

    fn delete_shop(&mut self, shop: Shop)
        ensures
            final(self).staged() == stage(
                old(self).staged(),
                Aggregate::Shop(shop),
                DBOperation::Delete,
            ),
    ;
}

/// Staged operations on orders. Each one appends to the queue; none can fail.
pub trait OrderRepository: UnitOfWork {
    fn create_order(&mut self, order: Order)
        ensures
            final(self).staged() == stage(
                old(self).staged(),
                Aggregate::Order(order),
                DBOperation::Create,
            ),
    ;

    fn update_order(&mut self, order: Order)
        ensures
            final(self).staged() == stage(
                old(self).staged(),
                Aggregate::Order(order),
                DBOperation::Update,
            ),
    ;

    fn delete_order(&mut self, order: Order)
        ensures
            final(self).staged() == stage(
                old(self).staged(),
                Aggregate::Order(order),
                DBOperation::Delete,
            ),
    ;
}

/// The coordinator behind the repositories, bound to the connection its
/// transactions are opened on.
pub struct DatabaseClient<C> {
    conn: C,
    commands: Vec<Command>,
}

impl<C> DatabaseClient<C> {
    /// The connection this coordinator is bound to.
    pub closed spec fn connection(&self) -> C {
        self.conn
    }

    pub fn new(conn: C, commands: Vec<Command>) -> (client: Self)
        ensures
            client.connection() == conn,
            client.staged() == commands@,
    {
        DatabaseClient { conn, commands }
    }

    /// The connection on which the driver of a replay opens the transaction.
    pub fn conn(&self) -> (conn: &C)
        ensures
            *conn == self.connection(),
    {
        &self.conn
    }

    /// The number of staged commands.
    pub fn len(&self) -> (len: usize)
        ensures
            len == self.staged().len(),
    {
        self.commands.len()
    }

    fn push(&mut self, aggregate: Aggregate, operation: DBOperation)
        ensures
            final(self).staged() == stage(old(self).staged(), aggregate, operation),
            final(self).connection() == old(self).connection(),
    {
        self.commands.push(Command::new(aggregate, operation));
    }
}

impl<C> UnitOfWork for DatabaseClient<C> {
    closed spec fn staged(&self) -> Seq<Command> {
        self.commands@
    }

    fn commit<E>(&mut self) -> (replay: Replay<E>)
        ensures
            final(self).connection() == old(self).connection(),
    {
        let mut batch: Vec<Command> = Vec::new();
        core::mem::swap(&mut self.commands, &mut batch);
        Replay::new(batch)
    }
}

impl<C> UserRepository for DatabaseClient<C> {
    fn create_user(&mut self, user: User) {
        self.push(Aggregate::from(user), DBOperation::Create);
    }

    fn update_user(&mut self, user: User) {
        self.push(Aggregate::from(user), DBOperation::Update);
    }

    fn delete_user(&mut self, user: User) {
        self.push(Aggregate::from(user), DBOperation::Delete);
    }
}

impl<C> ShopRepository for DatabaseClient<C> {
    fn create_shop(&mut self, shop: Shop) {
        self.push(Aggregate::from(shop), DBOperation::Create);
    }

    fn update_shop(&mut self, shop: Shop) {
        self.push(Aggregate::from(shop), DBOperation::Update);
    }

    fn delete_shop(&mut self, shop: Shop) {
        self.push(Aggregate::from(shop), DBOperation::Delete);
    }
}

impl<C> OrderRepository for DatabaseClient<C> {
    fn create_order(&mut self, order: Order) {
        self.push(Aggregate::from(order), DBOperation::Create);
    }

    fn update_order(&mut self, order: Order) {
        self.push(Aggregate::from(order), DBOperation::Update);
    }

    fn delete_order(&mut self, order: Order) {
        self.push(Aggregate::from(order), DBOperation::Delete);
    }
}

/// A source of fresh coordinators.
pub trait ProvideUnitOfWork {
    type UnitOfWork: UnitOfWork + Send + Sync;

    /// A coordinator with nothing staged.
    fn provide(&self) -> (uow: Self::UnitOfWork)
        ensures
            uow.staged() == Seq::<Command>::empty(),
    ;
}

/// Hands out coordinators bound to clones of one connection.
pub struct Context<C> {
    conn: C,
}

impl<C> Context<C> {
    /// The connection the coordinators are bound to.
    pub closed spec fn connection(&self) -> C {
        self.conn
    }

    pub fn new(conn: C) -> (context: Self)
        ensures
            context.connection() == conn,
    {
        Context { conn }
    }
}

impl<C: Clone + Send + Sync> ProvideUnitOfWork for Context<C> {
    type UnitOfWork = DatabaseClient<C>;

    fn provide(&self) -> (uow: DatabaseClient<C>)
        ensures
            call_ensures(C::clone, (&self.connection(),), uow.connection()),
    {
        DatabaseClient::new(self.conn.clone(), Vec::new())
    }
}

} // verus!
