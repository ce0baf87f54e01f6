//! The explicit transaction state machine.

use unit_of_work::domain::{Order, Shop, User};
use unit_of_work::error::TransactionLifecycleError;
use unit_of_work::port::PortCall;
use unit_of_work::practical::{
    Context, OrderRepository, ProvideUnitOfWork, Resolution, ShopRepository, UnitOfWork,
    UnitOfWorkImpl, UserRepository,
};

fn idle() -> UnitOfWorkImpl<&'static str, u32> {
    UnitOfWorkImpl::new("primary", None)
}

fn active(handle: u32) -> UnitOfWorkImpl<&'static str, u32> {
    let mut uow = idle();
    assert_eq!(uow.begin(), Ok(()));
    assert_eq!(uow.opened(Some(handle)), Ok(()));
    uow
}

#[test]
fn commit_without_begin_is_not_started() {
    let mut uow = idle();
    assert_eq!(uow.commit(), Err(TransactionLifecycleError::NotStarted));
    assert!(!uow.is_active());
}

#[test]
fn rollback_without_begin_is_not_started() {
    let mut uow = idle();
    assert_eq!(uow.rollback(), Err(TransactionLifecycleError::NotStarted));
    assert!(!uow.is_active());
}

#[test]
fn begin_twice_is_already_started() {
    let mut uow = idle();
    assert_eq!(uow.begin(), Ok(()));
    assert_eq!(uow.begin(), Err(TransactionLifecycleError::AlreadyStarted));
    assert_eq!(uow.opened(Some(1)), Ok(()));
    assert_eq!(uow.begin(), Err(TransactionLifecycleError::AlreadyStarted));
    assert_eq!(uow.transaction(), Some(&1));
}

#[test]
fn begin_then_commit_hands_out_the_transaction() {
    let mut uow = active(7);
    assert!(uow.is_active());
    assert_eq!(uow.transaction(), Some(&7));
    assert_eq!(uow.commit(), Ok(Resolution::Commit(7)));
    assert!(!uow.is_active());
    assert_eq!(uow.transaction(), None);
    assert_eq!(uow.commit(), Err(TransactionLifecycleError::NotStarted));
    assert_eq!(uow.rollback(), Err(TransactionLifecycleError::NotStarted));
}

#[test]
fn rollback_after_validation_returns_to_idle() {
    let mut uow = idle();
    assert_eq!(uow.begin(), Ok(()));
    assert_eq!(uow.opened(Some(11)), Ok(()));

    let call = uow.update_user(User::new());
    assert_eq!(call, Ok(PortCall::UpdateUser(User::new())));
    let updated = match call {
        Ok(PortCall::UpdateUser(user)) => user,
        other => panic!("unexpected {:?}", other),
    };
    let resolution = if updated.is_valid() && false { uow.commit() } else { uow.rollback() };
    assert_eq!(resolution, Ok(Resolution::Rollback(11)));

    assert!(!uow.is_active());
    assert_eq!(uow.begin(), Ok(()));
    assert_eq!(uow.opened(Some(12)), Ok(()));
    assert_eq!(uow.transaction(), Some(&12));
}

#[test]
fn failed_opening_returns_to_idle() {
    let mut uow = idle();
    assert_eq!(uow.begin(), Ok(()));
    assert_eq!(uow.commit(), Err(TransactionLifecycleError::NotStarted));
    assert_eq!(uow.opened(None), Ok(()));
    assert!(!uow.is_active());
    assert_eq!(uow.begin(), Ok(()));
}

#[test]
fn opening_report_without_request_is_rejected() {
    let mut uow = idle();
    assert_eq!(uow.opened(Some(1)), Err(TransactionLifecycleError::NotStarted));
    assert!(!uow.is_active());

    let mut busy = active(2);
    assert_eq!(busy.opened(Some(3)), Err(TransactionLifecycleError::AlreadyStarted));
    assert_eq!(busy.transaction(), Some(&2));
    assert_eq!(busy.opened(None), Err(TransactionLifecycleError::AlreadyStarted));
    assert_eq!(busy.transaction(), Some(&2));
}

#[test]
fn repositories_issue_calls_against_the_active_transaction() {
    let uow = active(5);
    assert_eq!(uow.create_user(User::new()), Ok(PortCall::CreateUser(User::new())));
    assert_eq!(uow.update_user(User::new()), Ok(PortCall::UpdateUser(User::new())));
    assert_eq!(uow.delete_user(User::new()), Ok(PortCall::DeleteUser(User::new())));
    assert_eq!(uow.create_shop(Shop::new()), Ok(PortCall::CreateShop(Shop::new())));
    assert_eq!(uow.update_shop(Shop::new()), Ok(PortCall::UpdateShop(Shop::new())));
    assert_eq!(uow.delete_shop(Shop::new()), Ok(PortCall::DeleteShop(Shop::new())));
    assert_eq!(uow.create_order(Order::new()), Ok(PortCall::CreateOrder(Order::new())));
    assert_eq!(uow.update_order(Order::new()), Ok(PortCall::UpdateOrder(Order::new())));
    assert_eq!(uow.delete_order(Order::new()), Ok(PortCall::DeleteOrder(Order::new())));
    assert_eq!(uow.transaction(), Some(&5));
}

#[test]
fn repositories_need_a_transaction() {
    let mut uow = idle();
    assert_eq!(uow.create_user(User::new()), Err(TransactionLifecycleError::NotStarted));
    assert_eq!(uow.update_shop(Shop::new()), Err(TransactionLifecycleError::NotStarted));
    assert_eq!(uow.delete_order(Order::new()), Err(TransactionLifecycleError::NotStarted));
    assert_eq!(uow.begin(), Ok(()));
    assert_eq!(uow.update_user(User::new()), Err(TransactionLifecycleError::NotStarted));
}

#[test]
fn coordinator_made_with_a_transaction_is_active() {
    let mut uow: UnitOfWorkImpl<u8, &str> = UnitOfWorkImpl::new(3, Some("txn"));
    assert_eq!(*uow.conn(), 3);
    assert!(uow.is_active());
    assert_eq!(uow.begin(), Err(TransactionLifecycleError::AlreadyStarted));
    assert_eq!(uow.rollback(), Ok(Resolution::Rollback("txn")));
    assert_eq!(*uow.conn(), 3);
}

#[test]
fn practical_context_provides_idle_coordinators() {
    let context: Context<String, u32> = Context::new(String::from("primary"));
    let mut first = context.provide();
    assert!(!first.is_active());
    assert_eq!(first.conn(), "primary");
    assert_eq!(first.begin(), Ok(()));
    assert_eq!(first.opened(Some(1)), Ok(()));
    let second = context.provide();
    assert!(!second.is_active());
    assert!(first.is_active());
}
