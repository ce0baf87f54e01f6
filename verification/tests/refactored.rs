//! The repositories in front of the classical coordinator.

use unit_of_work::domain::{Aggregate, AggregateKind, Command, DBOperation, Order, Shop, User};
use unit_of_work::error::{CommitError, PersistenceError};
use unit_of_work::port::PortCall;
use unit_of_work::refactored::{
    Context, DatabaseClient, OrderRepository, ProvideUnitOfWork, ShopRepository, UnitOfWork,
    UserRepository,
};
use unit_of_work::replay::Action;

#[test]
fn repositories_stage_in_call_order() {
    let mut uow: DatabaseClient<u8> = DatabaseClient::new(0, Vec::new());
    uow.update_user(User::new());
    uow.update_shop(Shop::new());
    assert_eq!(uow.len(), 2);

    let mut replay = uow.commit::<String>();
    assert_eq!(uow.len(), 0);
    assert_eq!(replay.begin(), Ok(Action::Begin));
    assert_eq!(replay.advance(Ok(())), Ok(Action::Call(PortCall::UpdateUser(User::new()))));
    assert_eq!(replay.advance(Ok(())), Ok(Action::Call(PortCall::UpdateShop(Shop::new()))));
    assert_eq!(replay.advance(Ok(())), Ok(Action::Commit));
    assert_eq!(replay.advance(Ok(())), Ok(Action::Finished(Ok(()))));
}

#[test]
fn every_repository_method_stages_its_pair() {
    let mut uow: DatabaseClient<u8> = DatabaseClient::new(0, Vec::new());
    uow.create_user(User::new());
    uow.update_user(User::new());
    uow.delete_user(User::new());
    uow.create_shop(Shop::new());
    uow.update_shop(Shop::new());
    uow.delete_shop(Shop::new());
    uow.create_order(Order::new());
    uow.update_order(Order::new());
    uow.delete_order(Order::new());
    assert_eq!(uow.len(), 9);

    let mut replay = uow.commit::<u8>();
    assert_eq!(replay.begin(), Ok(Action::Begin));
    let expected = vec![
        PortCall::CreateUser(User::new()),
        PortCall::UpdateUser(User::new()),
        PortCall::DeleteUser(User::new()),
        PortCall::CreateShop(Shop::new()),
        PortCall::UpdateShop(Shop::new()),
        PortCall::DeleteShop(Shop::new()),
        PortCall::CreateOrder(Order::new()),
        PortCall::UpdateOrder(Order::new()),
        PortCall::DeleteOrder(Order::new()),
    ];
    for call in expected {
        assert_eq!(replay.advance(Ok(())), Ok(Action::Call(call)));
    }
    assert_eq!(replay.advance(Ok(())), Ok(Action::Commit));
}

#[test]
fn repository_commit_fails_as_the_classical_one() {
    let mut uow: DatabaseClient<u8> = DatabaseClient::new(0, Vec::new());
    uow.update_user(User::new());
    uow.update_shop(Shop::new());
    let mut replay = uow.commit::<&str>();
    assert_eq!(replay.begin(), Ok(Action::Begin));
    assert_eq!(replay.advance(Ok(())), Ok(Action::Call(PortCall::UpdateUser(User::new()))));
    assert_eq!(replay.advance(Ok(())), Ok(Action::Call(PortCall::UpdateShop(Shop::new()))));
    assert_eq!(replay.advance(Err("shop is locked")), Ok(Action::Rollback));
    assert_eq!(
        replay.advance(Ok(())),
        Ok(Action::Finished(Err(CommitError::TransactionFailed(PersistenceError {
            position: 1,
            aggregate: AggregateKind::Shop,
            operation: DBOperation::Update,
            cause: "shop is locked",
        }))))
    );
    assert_eq!(uow.len(), 0);
}

#[test]
fn repository_client_keeps_commands_it_was_made_with() {
    let staged = vec![Command::new(Aggregate::Shop(Shop::new()), DBOperation::Create)];
    let mut uow: DatabaseClient<&str> = DatabaseClient::new("replica", staged);
    uow.delete_user(User::new());
    assert_eq!(*uow.conn(), "replica");
    let mut replay = uow.commit::<u8>();
    assert_eq!(replay.begin(), Ok(Action::Begin));
    assert_eq!(replay.advance(Ok(())), Ok(Action::Call(PortCall::CreateShop(Shop::new()))));
    assert_eq!(replay.advance(Ok(())), Ok(Action::Call(PortCall::DeleteUser(User::new()))));
}

#[test]
fn repository_context_provides_fresh_coordinators() {
    let context = Context::new(String::from("primary"));
    let mut first = context.provide();
    first.create_shop(Shop::new());
    let second = context.provide();
    assert_eq!(first.len(), 1);
    assert_eq!(second.len(), 0);
    assert_eq!(second.conn(), "primary");
}
