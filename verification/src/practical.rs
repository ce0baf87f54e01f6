//! The practical unit of work: the caller begins a transaction, issues port
//! calls against it one by one, and decides between commit and rollback.

use vstd::prelude::*;
use core::marker::PhantomData;
use crate::domain::{Order, Shop, User};
use crate::error::TransactionLifecycleError;
use crate::port::PortCall;

verus! {

/// The transaction state of a practical coordinator. A handle is held exactly
/// while a transaction is in progress.
#[derive(Debug, PartialEq, Eq)]
pub enum Lifecycle<T> {
    /// No transaction is in progress.
    Idle,
    /// A transaction was asked for and is being opened.
    Opening,
    /// The transaction with this handle is in progress.
    Active(T),
}

/// How the caller decided to end a transaction: what the driver must now do
/// with the handle.
#[derive(Debug, PartialEq, Eq)]
pub enum Resolution<T> {
    Commit(T),
    Rollback(T),
}

/// The explicit transaction state machine.
pub trait UnitOfWork {
    type Transaction;

    /// Where the state machine stands.
    spec fn lifecycle(&self) -> Lifecycle<Self::Transaction>;

    /// Asks for a transaction. From `Idle` this is granted: the driver must
    /// open one and report to [`UnitOfWork::opened`]. Otherwise it fails with
    /// `AlreadyStarted` and changes nothing.
    fn begin(&mut self) -> (granted: Result<(), TransactionLifecycleError>)
        ensures
            final(self).lifecycle() == after_begin(old(self).lifecycle()),
            granted == begun(old(self).lifecycle()),
    ;

    /// Reports how opening the transaction went: with the new handle, which
    /// makes the transaction active, or with `None`, which returns to `Idle`.
    /// Without a request in flight this changes nothing, drops the handle and
    /// fails: with `NotStarted` from `Idle`, with `AlreadyStarted` from `Active`.
    fn opened(&mut self, transaction: Option<Self::Transaction>) -> (accepted: Result<
        (),
        TransactionLifecycleError,
    >)
        ensures
            final(self).lifecycle() == after_opened(old(self).lifecycle(), transaction),
            accepted == accepted_opening(old(self).lifecycle()),
    ;

    /// Ends the active transaction by commit: hands its handle out to be
    /// committed and returns to `Idle`. Without an active transaction this
    /// fails with `NotStarted` and changes nothing.
    fn commit(&mut self) -> (resolution: Result<
        Resolution<Self::Transaction>,
        TransactionLifecycleError,
    >)
        ensures
            final(self).lifecycle() == after_resolve(old(self).lifecycle()),
            resolution == committed(old(self).lifecycle()),
    ;

    /// Ends the active transaction by rollback: hands its handle out to be
    /// rolled back and returns to `Idle`. Without an active transaction this
    /// fails with `NotStarted` and changes nothing.
    fn rollback(&mut self) -> (resolution: Result<
        Resolution<Self::Transaction>,
        TransactionLifecycleError,
    >)
        ensures
            final(self).lifecycle() == after_resolve(old(self).lifecycle()),
            resolution == rolled_back(old(self).lifecycle()),
    ;
}

/// The state after a transaction was asked for.
pub open spec fn after_begin<T>(before: Lifecycle<T>) -> Lifecycle<T> {
    match before {
        Lifecycle::Idle => Lifecycle::Opening,
        _ => before,
    }
}

/// Whether a request for a transaction is granted: from `Idle` only.
pub open spec fn begun<T>(before: Lifecycle<T>) -> Result<(), TransactionLifecycleError> {
    match before {
        Lifecycle::Idle => Ok(()),
        _ => Err(TransactionLifecycleError::AlreadyStarted),
    }
}

/// Whether a report on the opening of a transaction is accepted: only while
/// one is being opened.
pub open spec fn accepted_opening<T>(before: Lifecycle<T>) -> Result<
    (),
    TransactionLifecycleError,
> {
    match before {
        Lifecycle::Opening => Ok(()),
        Lifecycle::Idle => Err(TransactionLifecycleError::NotStarted),
        Lifecycle::Active(_) => Err(TransactionLifecycleError::AlreadyStarted),
    }
}

/// What a commit hands out: the handle of the active transaction, to be
/// committed.
pub open spec fn committed<T>(before: Lifecycle<T>) -> Result<
    Resolution<T>,
    TransactionLifecycleError,
> {
    match before {
        Lifecycle::Active(transaction) => Ok(Resolution::Commit(transaction)),
        _ => Err(TransactionLifecycleError::NotStarted),
    }
}

/// What a rollback hands out: the handle of the active transaction, to be
/// rolled back.
pub open spec fn rolled_back<T>(before: Lifecycle<T>) -> Result<
    Resolution<T>,
    TransactionLifecycleError,
> {
    match before {
        Lifecycle::Active(transaction) => Ok(Resolution::Rollback(transaction)),
        _ => Err(TransactionLifecycleError::NotStarted),
    }
}

/// The state after the driver reported how opening the transaction went.
pub open spec fn after_opened<T>(before: Lifecycle<T>, transaction: Option<T>) -> Lifecycle<T> {
    match before {
        Lifecycle::Opening => match transaction {
            Some(handle) => Lifecycle::Active(handle),
            None => Lifecycle::Idle,
        },
        _ => before,
    }
}

/// The state after a commit or a rollback was asked for.
pub open spec fn after_resolve<T>(before: Lifecycle<T>) -> Lifecycle<T> {
    match before {
        Lifecycle::Active(_) => Lifecycle::Idle,
        _ => before,
    }
}

/// The port call a repository operation issues: the call itself while a
/// transaction is active, `NotStarted` otherwise.
pub open spec fn issued<T>(lifecycle: Lifecycle<T>, call: PortCall) -> Result<
    PortCall,
    TransactionLifecycleError,
> {
    if lifecycle is Active {
        Ok(call)
    } else {
        Err(TransactionLifecycleError::NotStarted)
    }
}

/// Operations on users, issued at once against the active transaction.
pub trait UserRepository: UnitOfWork {
    fn create_user(&self, user: User) -> (call: Result<PortCall, TransactionLifecycleError>)
        ensures
            call == issued(self.lifecycle(), PortCall::CreateUser(user)),
    ;

    fn update_user(&self, user: User) -> (call: Result<PortCall, TransactionLifecycleError>)
        ensures
            call == issued(self.lifecycle(), PortCall::UpdateUser(user)),
    ;

    fn delete_user(&self, user: User) -> (call: Result<PortCall, TransactionLifecycleError>)
        ensures
            call == issued(self.lifecycle(), PortCall::DeleteUser(user)),
    ;
}

/// Operations on shops, issued at once against the active transaction.
pub trait ShopRepository: UnitOfWork {
    fn create_shop(&self, shop: Shop) -> (call: Result<PortCall, TransactionLifecycleError>)
        ensures
            call == issued(self.lifecycle(), PortCall::CreateShop(shop)),
    ;

    fn update_shop(&self, shop: Shop) -> (call: Result<PortCall, TransactionLifecycleError>)
        ensures
            call == issued(self.lifecycle(), PortCall::UpdateShop(shop)),
    ;

    fn delete_shop(&self, shop: Shop) -> (call: Result<PortCall, TransactionLifecycleError>)
        ensures
            call == issued(self.lifecycle(), PortCall::DeleteShop(shop)),
    ;
}

/// Operations on orders, issued at once against the active transaction.
pub trait OrderRepository: UnitOfWork {
    fn create_order(&self, order: Order) -> (call: Result<PortCall, TransactionLifecycleError>)
        ensures
            call == issued(self.lifecycle(), PortCall::CreateOrder(order)),
    ;

    fn update_order(&self, order: Order) -> (call: Result<PortCall, TransactionLifecycleError>)
        ensures
            call == issued(self.lifecycle(), PortCall::UpdateOrder(order)),
    ;

    fn delete_order(&self, order: Order) -> (call: Result<PortCall, TransactionLifecycleError>)
        ensures
            call == issued(self.lifecycle(), PortCall::DeleteOrder(order)),
    ;
}

/// The practical coordinator, bound to the connection its transactions are
/// opened on. It owns the handle of the transaction in progress.
pub struct UnitOfWorkImpl<C, T> {
    conn: C,
    state: Lifecycle<T>,
}

impl<C, T> UnitOfWorkImpl<C, T> {
    /// The connection this coordinator is bound to.
    pub closed spec fn connection(&self) -> C {
        self.conn
    }

    /// A coordinator on `conn`: active when it is given a transaction, idle
    /// when it is given none.
    pub fn new(conn: C, txn: Option<T>) -> (uow: Self)
        ensures
            uow.connection() == conn,
            uow.lifecycle() == match txn {
                Some(transaction) => Lifecycle::Active(transaction),
                None => Lifecycle::Idle,
            },
    {
        match txn {
            Some(transaction) => UnitOfWorkImpl { conn, state: Lifecycle::Active(transaction) },
            None => UnitOfWorkImpl { conn, state: Lifecycle::Idle },
        }
    }

    /// The connection on which the driver opens the transaction.
    pub fn conn(&self) -> (conn: &C)
        ensures
            *conn == self.connection(),
    {
        &self.conn
    }

    /// Whether a transaction is in progress.
    pub fn is_active(&self) -> (active: bool)
        ensures
            active == (self.lifecycle() is Active),
    {
        match &self.state {
            Lifecycle::Active(_) => true,
            _ => false,
        }
    }

    /// The handle of the transaction in progress, against which the driver
    /// performs the port calls.
    pub fn transaction(&self) -> (transaction: Option<&T>)
        ensures
            transaction == match self.lifecycle() {
                Lifecycle::Active(handle) => Some(&handle),
                _ => None,
            },
    {
        match &self.state {
            Lifecycle::Active(handle) => Some(handle),
            _ => None,
        }
    }

    fn issue(&self, call: PortCall) -> (issued_call: Result<PortCall, TransactionLifecycleError>)
        ensures
            issued_call == issued(self.lifecycle(), call),
    {
        if self.is_active() {
            Ok(call)
        } else {
            Err(TransactionLifecycleError::NotStarted)
        }
    }
}

impl<C, T> UnitOfWork for UnitOfWorkImpl<C, T> {
    type Transaction = T;

    closed spec fn lifecycle(&self) -> Lifecycle<T> {
        self.state
    }

    fn begin(&mut self) -> (granted: Result<(), TransactionLifecycleError>)
        ensures
            final(self).connection() == old(self).connection(),
    {
        match &self.state {
            Lifecycle::Idle => {
                self.state = Lifecycle::Opening;
                Ok(())
            },
            _ => Err(TransactionLifecycleError::AlreadyStarted),
        }
    }

    fn opened(&mut self, transaction: Option<T>) -> (accepted: Result<
        (),
        TransactionLifecycleError,
    >)
        ensures
            final(self).connection() == old(self).connection(),
    {
        match &self.state {
            Lifecycle::Opening => {
                match transaction {
                    Some(handle) => {
                        self.state = Lifecycle::Active(handle);
                    },
                    None => {
                        self.state = Lifecycle::Idle;
                    },
                }
                Ok(())
            },
            Lifecycle::Idle => Err(TransactionLifecycleError::NotStarted),
            Lifecycle::Active(_) => Err(TransactionLifecycleError::AlreadyStarted),
        }
    }

    fn commit(&mut self) -> (resolution: Result<Resolution<T>, TransactionLifecycleError>)
        ensures
            final(self).connection() == old(self).connection(),
    {
        match self.take() {
            Some(transaction) => Ok(Resolution::Commit(transaction)),
            None => Err(TransactionLifecycleError::NotStarted),
        }
    }

    fn rollback(&mut self) -> (resolution: Result<Resolution<T>, TransactionLifecycleError>)
        ensures
            final(self).connection() == old(self).connection(),
    {
        match self.take() {
            Some(transaction) => Ok(Resolution::Rollback(transaction)),
            None => Err(TransactionLifecycleError::NotStarted),
        }
    }
}

impl<C, T> UnitOfWorkImpl<C, T> {
    /// Takes the handle of the active transaction, leaving the coordinator
    /// idle; leaves everything as it is when no transaction is active.
    fn take(&mut self) -> (transaction: Option<T>)
        ensures
            final(self).connection() == old(self).connection(),
            final(self).lifecycle() == after_resolve(old(self).lifecycle()),
            transaction == match old(self).lifecycle() {
                Lifecycle::Active(handle) => Some(handle),
                _ => None::<T>,
            },
    {
        let mut state = Lifecycle::Idle;
        core::mem::swap(&mut self.state, &mut state);
        match state {
            Lifecycle::Active(handle) => Some(handle),
            Lifecycle::Opening => {
                self.state = Lifecycle::Opening;
                None
            },
            Lifecycle::Idle => None,
        }
    }
}

impl<C, T> UserRepository for UnitOfWorkImpl<C, T> {
    fn create_user(&self, user: User) -> (call: Result<PortCall, TransactionLifecycleError>) {
        self.issue(PortCall::CreateUser(user))
    }

    fn update_user(&self, user: User) -> (call: Result<PortCall, TransactionLifecycleError>) {
        self.issue(PortCall::UpdateUser(user))
    }

    fn delete_user(&self, user: User) -> (call: Result<PortCall, TransactionLifecycleError>) {
        self.issue(PortCall::DeleteUser(user))
    }
}

impl<C, T> ShopRepository for UnitOfWorkImpl<C, T> {
    fn create_shop(&self, shop: Shop) -> (call: Result<PortCall, TransactionLifecycleError>) {
        self.issue(PortCall::CreateShop(shop))
    }

    fn update_shop(&self, shop: Shop) -> (call: Result<PortCall, TransactionLifecycleError>) {
        self.issue(PortCall::UpdateShop(shop))
    }

    fn delete_shop(&self, shop: Shop) -> (call: Result<PortCall, TransactionLifecycleError>) {
        self.issue(PortCall::DeleteShop(shop))
    }
}

impl<C, T> OrderRepository for UnitOfWorkImpl<C, T> {
    fn create_order(&self, order: Order) -> (call: Result<PortCall, TransactionLifecycleError>) {
        self.issue(PortCall::CreateOrder(order))
    }

    fn update_order(&self, order: Order) -> (call: Result<PortCall, TransactionLifecycleError>) {
        self.issue(PortCall::UpdateOrder(order))
    }

    fn delete_order(&self, order: Order) -> (call: Result<PortCall, TransactionLifecycleError>) {
        self.issue(PortCall::DeleteOrder(order))
    }
}

/// A source of fresh coordinators.
pub trait ProvideUnitOfWork {
    type UnitOfWork: UnitOfWork + Send + Sync;

    /// A coordinator with no transaction in progress.
    fn provide(&self) -> (uow: Self::UnitOfWork)
        ensures
            uow.lifecycle() is Idle,
    ;
}

/// Hands out practical coordinators bound to clones of one connection, for
/// transactions with handles of type `T`.
pub struct Context<C, T> {
    conn: C,
    transaction: PhantomData<T>,
}

impl<C, T> Context<C, T> {
    /// The connection the coordinators are bound to.
    pub closed spec fn connection(&self) -> C {
        self.conn
    }

    pub fn new(conn: C) -> (context: Self)
        ensures
            context.connection() == conn,
    {
        Context { conn, transaction: PhantomData }
    }
}

impl<C: Clone + Send + Sync, T: Send + Sync> ProvideUnitOfWork for Context<C, T> {
    type UnitOfWork = UnitOfWorkImpl<C, T>;

    fn provide(&self) -> (uow: UnitOfWorkImpl<C, T>)
        ensures
            call_ensures(C::clone, (&self.connection(),), uow.connection()),
    {
        UnitOfWorkImpl::new(self.conn.clone(), None)
    }
}

} // verus!
