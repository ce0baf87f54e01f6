//! The aggregate model and the staged command.

use vstd::prelude::*;
use vstd::std_specs::convert::FromSpecImpl;

verus! {

/// A user aggregate.
#[derive(Debug, PartialEq, Eq)]
pub struct User;

/// A shop aggregate.
#[derive(Debug, PartialEq, Eq)]
pub struct Shop;

/// An order aggregate.
#[derive(Debug, PartialEq, Eq)]
pub struct Order;

impl User {
    pub fn new() -> (user: Self)
        ensures
            user == User,
    {
        User
    }

    /// The validation hook: whether this user may be persisted.
    pub open spec fn spec_is_valid(&self) -> bool {
        true
    }

    #[verifier::when_used_as_spec(spec_is_valid)]
    pub fn is_valid(&self) -> (valid: bool)
        ensures
            valid == self.spec_is_valid(),
    {
        true
    }
}

impl Shop {
    pub fn new() -> (shop: Self)
        ensures
            shop == Shop,
    {
        Shop
    }
}

impl Order {
    pub fn new() -> (order: Self)
        ensures
            order == Order,
    {
        Order
    }
}

/// Which variant of the aggregate union a value is.
#[derive(Debug, Clone, Copy, PartialEq, Eq)]
pub enum AggregateKind {
    User,
    Shop,
    Order,
}

/// The closed union of the aggregates a unit of work can stage.
#[derive(Debug, PartialEq, Eq)]
pub enum Aggregate {
    User(User),
    Shop(Shop),
    Order(Order),
}

/// The kind of mutation a staged command applies.
#[derive(Debug, Clone, Copy, PartialEq, Eq)]
pub enum DBOperation {
    Create,
    Update,
    Delete,
}

/// One aggregate paired with one operation: the unit of replay during commit.
#[derive(Debug, PartialEq, Eq)]
pub struct Command {
    pub aggregate: Aggregate,
    pub db_operation: DBOperation,
}

impl Aggregate {
    pub open spec fn spec_kind(&self) -> AggregateKind {
        match self {
            Aggregate::User(_) => AggregateKind::User,
            Aggregate::Shop(_) => AggregateKind::Shop,
            Aggregate::Order(_) => AggregateKind::Order,
        }
    }

    /// The variant of this aggregate, without its contents.
    #[verifier::when_used_as_spec(spec_kind)]
    pub fn kind(&self) -> (kind: AggregateKind)
        ensures
            kind == self.spec_kind(),
    {
        match self {
            Aggregate::User(_) => AggregateKind::User,
            Aggregate::Shop(_) => AggregateKind::Shop,
            Aggregate::Order(_) => AggregateKind::Order,
        }
    }
}

impl Command {
    pub fn new(aggregate: Aggregate, db_operation: DBOperation) -> (command: Self)
        ensures
            command == (Command { aggregate, db_operation }),
    {
        Command { aggregate, db_operation }
    }
}

impl From<User> for Aggregate {
    fn from(user: User) -> (aggregate: Self) {
        Aggregate::User(user)
    }
}

impl FromSpecImpl<User> for Aggregate {
    open spec fn obeys_from_spec() -> bool {
        true
    }

    open spec fn from_spec(user: User) -> Self {
        Aggregate::User(user)
    }
}

impl From<Shop> for Aggregate {
    fn from(shop: Shop) -> (aggregate: Self) {
        Aggregate::Shop(shop)
    }
}

impl FromSpecImpl<Shop> for Aggregate {
    open spec fn obeys_from_spec() -> bool {
        true
    }

    open spec fn from_spec(shop: Shop) -> Self {
        Aggregate::Shop(shop)
    }
}

impl From<Order> for Aggregate {
    fn from(order: Order) -> (aggregate: Self) {
        Aggregate::Order(order)
    }
}

impl FromSpecImpl<Order> for Aggregate {
    open spec fn obeys_from_spec() -> bool {
        true
    }

    open spec fn from_spec(order: Order) -> Self {
        Aggregate::Order(order)
    }
}

} // verus!
