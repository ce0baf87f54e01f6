//! The persistence port: the calls a storage adapter performs on behalf of the
//! coordinator, and the dispatch of a staged command to its call.

use vstd::prelude::*;
use crate::domain::{Aggregate, AggregateKind, Command, DBOperation, Order, Shop, User};

verus! {

/// One call of the persistence port: an operation on one aggregate, to be
/// performed inside the open transaction.
#[derive(Debug, PartialEq, Eq)]
pub enum PortCall {
    CreateUser(User),
    UpdateUser(User),
    DeleteUser(User),
    CreateShop(Shop),
    UpdateShop(Shop),
    DeleteShop(Shop),
    CreateOrder(Order),
    UpdateOrder(Order),
    DeleteOrder(Order),
}

impl PortCall {
    /// The aggregate this call acts on.
    pub open spec fn aggregate(&self) -> Aggregate {
        match self {
            PortCall::CreateUser(user) => Aggregate::User(*user),
            PortCall::UpdateUser(user) => Aggregate::User(*user),
            PortCall::DeleteUser(user) => Aggregate::User(*user),
            PortCall::CreateShop(shop) => Aggregate::Shop(*shop),
            PortCall::UpdateShop(shop) => Aggregate::Shop(*shop),
            PortCall::DeleteShop(shop) => Aggregate::Shop(*shop),
            PortCall::CreateOrder(order) => Aggregate::Order(*order),
            PortCall::UpdateOrder(order) => Aggregate::Order(*order),
            PortCall::DeleteOrder(order) => Aggregate::Order(*order),
        }
    }

    pub open spec fn spec_operation(&self) -> DBOperation {
        match self {
            PortCall::CreateUser(_) | PortCall::CreateShop(_) | PortCall::CreateOrder(_) => {
                DBOperation::Create
            },
            PortCall::UpdateUser(_) | PortCall::UpdateShop(_) | PortCall::UpdateOrder(_) => {
                DBOperation::Update
            },
            PortCall::DeleteUser(_) | PortCall::DeleteShop(_) | PortCall::DeleteOrder(_) => {
                DBOperation::Delete
            },
        }
    }

    pub open spec fn spec_aggregate_kind(&self) -> AggregateKind {
        self.aggregate().spec_kind()
    }

    /// The command this call carries out.
    pub open spec fn command(&self) -> Command {
        Command { aggregate: self.aggregate(), db_operation: self.spec_operation() }
    }

    /// The operation this call performs.
    #[verifier::when_used_as_spec(spec_operation)]
    pub fn operation(&self) -> (operation: DBOperation)
        ensures
            operation == self.spec_operation(),
    {
        match self {
            PortCall::CreateUser(_) | PortCall::CreateShop(_) | PortCall::CreateOrder(_) => {
                DBOperation::Create
            },
            PortCall::UpdateUser(_) | PortCall::UpdateShop(_) | PortCall::UpdateOrder(_) => {
                DBOperation::Update
            },
            PortCall::DeleteUser(_) | PortCall::DeleteShop(_) | PortCall::DeleteOrder(_) => {
                DBOperation::Delete
            },
        }
    }

    /// The variant of the aggregate this call acts on.
    #[verifier::when_used_as_spec(spec_aggregate_kind)]
    pub fn aggregate_kind(&self) -> (kind: AggregateKind)
        ensures
            kind == self.spec_aggregate_kind(),
    {
        match self {
            PortCall::CreateUser(_) | PortCall::UpdateUser(_) | PortCall::DeleteUser(_) => {
                AggregateKind::User
            },
            PortCall::CreateShop(_) | PortCall::UpdateShop(_) | PortCall::DeleteShop(_) => {
                AggregateKind::Shop
            },
            PortCall::CreateOrder(_) | PortCall::UpdateOrder(_) | PortCall::DeleteOrder(_) => {
                AggregateKind::Order
            },
        }
    }
}

/// The port call that carries out `command`.
pub open spec fn spec_dispatch(command: Command) -> PortCall {
    match command.aggregate {
        Aggregate::User(user) => match command.db_operation {
            DBOperation::Create => PortCall::CreateUser(user),
            DBOperation::Update => PortCall::UpdateUser(user),
            DBOperation::Delete => PortCall::DeleteUser(user),
        },
        Aggregate::Shop(shop) => match command.db_operation {
            DBOperation::Create => PortCall::CreateShop(shop),
            DBOperation::Update => PortCall::UpdateShop(shop),
            DBOperation::Delete => PortCall::DeleteShop(shop),
        },
        Aggregate::Order(order) => match command.db_operation {
            DBOperation::Create => PortCall::CreateOrder(order),
            DBOperation::Update => PortCall::UpdateOrder(order),
            DBOperation::Delete => PortCall::DeleteOrder(order),
        },
    }
}

/// The port calls that carry out `commands`, one per command, in the same order.
pub open spec fn dispatch_all(commands: Seq<Command>) -> Seq<PortCall> {
    Seq::new(commands.len(), |i: int| spec_dispatch(commands[i]))
}

/// Selects the port call for a staged command. This is the single place where
/// the aggregate union and the operation are matched, exhaustively.
#[verifier::when_used_as_spec(spec_dispatch)]
pub fn dispatch(command: Command) -> (call: PortCall)
    ensures
        call == spec_dispatch(command),
        call.command() == command,
{
    match command.aggregate {
        Aggregate::User(user) => match command.db_operation {
            DBOperation::Create => PortCall::CreateUser(user),
            DBOperation::Update => PortCall::UpdateUser(user),
            DBOperation::Delete => PortCall::DeleteUser(user),
        },
        Aggregate::Shop(shop) => match command.db_operation {
            DBOperation::Create => PortCall::CreateShop(shop),
            DBOperation::Update => PortCall::UpdateShop(shop),
            DBOperation::Delete => PortCall::DeleteShop(shop),
        },
        Aggregate::Order(order) => match command.db_operation {
            DBOperation::Create => PortCall::CreateOrder(order),
            DBOperation::Update => PortCall::UpdateOrder(order),
            DBOperation::Delete => PortCall::DeleteOrder(order),
        },
    }
}

/// Dispatch loses nothing: the call names exactly the command it came from, and
/// every port call is the dispatch of exactly one command.
pub proof fn lemma_dispatch_is_lossless(command: Command, call: PortCall)
    ensures
        spec_dispatch(command).command() == command,
        spec_dispatch(call.command()) == call,
        spec_dispatch(command).spec_aggregate_kind() == command.aggregate.spec_kind(),
        spec_dispatch(command).spec_operation() == command.db_operation,
{
}

} // verus!
