//! Commit attempts driven against an in-memory transactional store.

use unit_of_work::classical::{Context, DatabaseClient, ProvideUnitOfWork, UnitOfWork};
use unit_of_work::domain::{Aggregate, AggregateKind, Command, DBOperation, Order, Shop, User};
use unit_of_work::error::{CommitError, PersistenceError, TransactionLifecycleError};
use unit_of_work::port::PortCall;
use unit_of_work::replay::{Action, Replay};

/// A store with one transaction at a time: writes go to a working copy that
/// becomes visible on commit and is discarded on rollback.
struct Store {
    visible: Vec<PortCall>,
    working: Option<Vec<PortCall>>,
    log: Vec<String>,
    fail_begin: bool,
    fail_call: Option<usize>,
    fail_commit: bool,
    fail_rollback: bool,
    calls: usize,
}

impl Store {
    fn new() -> Store {
        Store {
            visible: Vec::new(),
            working: None,
            log: Vec::new(),
            fail_begin: false,
            fail_call: None,
            fail_commit: false,
            fail_rollback: false,
            calls: 0,
        }
    }

    fn perform(&mut self, action: Action<String>) -> Result<Result<(), String>, Result<(), CommitError<String>>> {
        match action {
            Action::Begin => {
                self.log.push("begin".to_string());
                if self.fail_begin {
                    return Ok(Err("no connection".to_string()));
                }
                assert!(self.working.is_none());
                self.working = Some(Vec::new());
                Ok(Ok(()))
            }
            Action::Call(call) => {
                self.log.push(format!("{:?}", call));
                let index = self.calls;
                self.calls += 1;
                if self.fail_call == Some(index) {
                    return Ok(Err(format!("call {} refused", index)));
                }
                self.working.as_mut().expect("call outside a transaction").push(call);
                Ok(Ok(()))
            }
            Action::Commit => {
                self.log.push("commit".to_string());
                let working = self.working.take().expect("commit outside a transaction");
                if self.fail_commit {
                    return Ok(Err("commit refused".to_string()));
                }
                self.visible.extend(working);
                Ok(Ok(()))
            }
            Action::Rollback => {
                self.log.push("rollback".to_string());
                self.working.take().expect("rollback outside a transaction");
                if self.fail_rollback {
                    return Ok(Err("rollback refused".to_string()));
                }
                Ok(Ok(()))
            }
            Action::Finished(result) => Err(result),
        }
    }

    fn run(&mut self, replay: &mut Replay<String>) -> Result<(), CommitError<String>> {
        let mut action = replay.begin().expect("a fresh replay grants the transaction");
        loop {
            match self.perform(action) {
                Ok(outcome) => {
                    action = replay.advance(outcome).expect("a transaction is in progress");
                }
                Err(result) => return result,
            }
        }
    }
}

fn client() -> DatabaseClient<u8> {
    DatabaseClient::new(0, Vec::new())
}

#[test]
fn commit_replays_in_staging_order() {
    let mut uow = client();
    uow.update(User::new());
    uow.update(Shop::new());
    uow.create(Order::new());
    assert_eq!(uow.len(), 3);

    let mut replay = uow.commit::<String>();
    assert_eq!(uow.len(), 0);
    assert_eq!(replay.total(), 3);
    assert_eq!(replay.remaining(), 3);

    let mut store = Store::new();
    assert_eq!(store.run(&mut replay), Ok(()));
    assert_eq!(
        store.log,
        vec!["begin", "UpdateUser(User)", "UpdateShop(Shop)", "CreateOrder(Order)", "commit"]
    );
    assert_eq!(
        store.visible,
        vec![
            PortCall::UpdateUser(User::new()),
            PortCall::UpdateShop(Shop::new()),
            PortCall::CreateOrder(Order::new()),
        ]
    );
    assert!(replay.is_finished());
    assert_eq!(replay.remaining(), 0);
}

#[test]
fn commit_asks_for_each_action_in_turn() {
    let mut uow = client();
    uow.update(User::new());
    uow.update(Shop::new());
    uow.create(Order::new());
    let mut replay = uow.commit::<String>();

    assert_eq!(replay.begin(), Ok(Action::Begin));
    assert_eq!(replay.advance(Ok(())), Ok(Action::Call(PortCall::UpdateUser(User::new()))));
    assert_eq!(replay.remaining(), 2);
    assert_eq!(replay.advance(Ok(())), Ok(Action::Call(PortCall::UpdateShop(Shop::new()))));
    assert_eq!(replay.advance(Ok(())), Ok(Action::Call(PortCall::CreateOrder(Order::new()))));
    assert_eq!(replay.remaining(), 0);
    assert!(!replay.is_finished());
    assert_eq!(replay.advance(Ok(())), Ok(Action::Commit));
    assert_eq!(replay.advance(Ok(())), Ok(Action::Finished(Ok(()))));
    assert!(replay.is_finished());
}

#[test]
fn failed_shop_update_leaves_no_user_update() {
    let mut uow = client();
    uow.update(User::new());
    uow.update(Shop::new());
    let mut replay = uow.commit::<String>();

    let mut store = Store::new();
    store.fail_call = Some(1);
    let result = store.run(&mut replay);
    assert_eq!(
        result,
        Err(CommitError::TransactionFailed(PersistenceError {
            position: 1,
            aggregate: AggregateKind::Shop,
            operation: DBOperation::Update,
            cause: "call 1 refused".to_string(),
        }))
    );
    assert_eq!(store.log, vec!["begin", "UpdateUser(User)", "UpdateShop(Shop)", "rollback"]);
    assert!(store.visible.is_empty());
    assert!(store.working.is_none());
}

#[test]
fn failure_stops_the_replay_at_the_first_failing_call() {
    let mut uow = client();
    uow.create(User::new());
    uow.delete(Shop::new());
    uow.create(Order::new());
    uow.update(Order::new());
    let mut replay = uow.commit::<String>();

    let mut store = Store::new();
    store.fail_call = Some(0);
    let result = store.run(&mut replay);
    assert_eq!(
        result,
        Err(CommitError::TransactionFailed(PersistenceError {
            position: 0,
            aggregate: AggregateKind::User,
            operation: DBOperation::Create,
            cause: "call 0 refused".to_string(),
        }))
    );
    assert_eq!(store.log, vec!["begin", "CreateUser(User)", "rollback"]);
    assert_eq!(replay.remaining(), 3);
    assert!(replay.is_finished());
}

#[test]
fn queue_is_empty_after_a_failed_commit() {
    let mut uow = client();
    uow.update(User::new());
    uow.update(Shop::new());
    let mut replay = uow.commit::<String>();
    assert_eq!(uow.len(), 0);

    let mut store = Store::new();
    store.fail_call = Some(1);
    assert!(store.run(&mut replay).is_err());
    assert_eq!(uow.len(), 0);

    let mut again = uow.commit::<String>();
    assert_eq!(again.total(), 0);
    let mut second = Store::new();
    assert_eq!(second.run(&mut again), Ok(()));
    assert_eq!(second.log, vec!["begin", "commit"]);
    assert!(second.visible.is_empty());
}

#[test]
fn empty_commit_succeeds_without_port_calls() {
    let mut uow = client();
    let mut replay = uow.commit::<String>();
    assert_eq!(replay.total(), 0);

    assert_eq!(replay.begin(), Ok(Action::Begin));
    assert_eq!(replay.advance(Ok(())), Ok(Action::Commit));
    assert_eq!(replay.advance(Ok(())), Ok(Action::Finished(Ok(()))));

    let mut store = Store::new();
    let mut other = client().commit::<String>();
    assert_eq!(store.run(&mut other), Ok(()));
    assert_eq!(store.calls, 0);
    assert_eq!(store.log, vec!["begin", "commit"]);
}

#[test]
fn begin_failure_replays_nothing() {
    let mut uow = client();
    uow.create(Shop::new());
    let mut replay = uow.commit::<String>();

    let mut store = Store::new();
    store.fail_begin = true;
    assert_eq!(
        store.run(&mut replay),
        Err(CommitError::BeginFailed("no connection".to_string()))
    );
    assert_eq!(store.log, vec!["begin"]);
    assert!(replay.is_finished());
    assert_eq!(uow.len(), 0);
}

#[test]
fn commit_failure_is_reported_after_all_calls() {
    let mut uow = client();
    uow.delete(Order::new());
    let mut replay = uow.commit::<String>();

    let mut store = Store::new();
    store.fail_commit = true;
    let result = store.run(&mut replay);
    assert_eq!(result, Err(CommitError::CommitFailed("commit refused".to_string())));
    assert_eq!(store.log, vec!["begin", "DeleteOrder(Order)", "commit"]);
    assert!(store.visible.is_empty());
    assert!(!result.unwrap_err().is_fatal());
}

#[test]
fn rollback_failure_is_fatal_and_keeps_the_first_cause() {
    let mut uow = client();
    uow.update(User::new());
    uow.delete(User::new());
    let mut replay = uow.commit::<String>();

    let mut store = Store::new();
    store.fail_call = Some(1);
    store.fail_rollback = true;
    let result = store.run(&mut replay);
    assert_eq!(
        result,
        Err(CommitError::RollbackFailed {
            failure: PersistenceError {
                position: 1,
                aggregate: AggregateKind::User,
                operation: DBOperation::Delete,
                cause: "call 1 refused".to_string(),
            },
            cause: "rollback refused".to_string(),
        })
    );
    assert!(result.unwrap_err().is_fatal());
    assert!(store.visible.is_empty());
}

#[test]
fn transaction_failed_is_not_fatal() {
    let error: CommitError<u8> = CommitError::TransactionFailed(PersistenceError {
        position: 0,
        aggregate: AggregateKind::Order,
        operation: DBOperation::Create,
        cause: 1,
    });
    assert!(!error.is_fatal());
    assert!(!CommitError::BeginFailed(2u8).is_fatal());
}

#[test]
fn replay_grants_the_transaction_once() {
    let mut uow = client();
    uow.create(User::new());
    let mut replay = uow.commit::<String>();

    assert_eq!(replay.begin(), Ok(Action::Begin));
    assert_eq!(replay.begin(), Err(TransactionLifecycleError::AlreadyStarted));
    assert_eq!(replay.advance(Ok(())), Ok(Action::Call(PortCall::CreateUser(User::new()))));
    assert_eq!(replay.begin(), Err(TransactionLifecycleError::AlreadyStarted));
    assert_eq!(replay.advance(Ok(())), Ok(Action::Commit));
    assert_eq!(replay.advance(Ok(())), Ok(Action::Finished(Ok(()))));
    assert_eq!(replay.begin(), Err(TransactionLifecycleError::AlreadyStarted));
}

#[test]
fn replay_without_begin_is_not_started() {
    let mut uow = client();
    uow.create(User::new());
    let mut replay = uow.commit::<String>();

    assert_eq!(replay.advance(Ok(())), Err(TransactionLifecycleError::NotStarted));
    assert_eq!(
        replay.advance(Err("lost".to_string())),
        Err(TransactionLifecycleError::NotStarted)
    );
    assert_eq!(replay.remaining(), 1);
    assert!(!replay.is_finished());
    assert_eq!(replay.begin(), Ok(Action::Begin));
}

#[test]
fn finished_replay_is_not_started() {
    let mut replay: Replay<String> = Replay::new(Vec::new());
    assert_eq!(replay.begin(), Ok(Action::Begin));
    assert_eq!(
        replay.advance(Err("down".to_string())),
        Ok(Action::Finished(Err(CommitError::BeginFailed("down".to_string()))))
    );
    assert!(replay.is_finished());
    assert_eq!(replay.advance(Ok(())), Err(TransactionLifecycleError::NotStarted));
    assert!(replay.is_finished());
}

#[test]
fn replay_takes_a_batch_first_to_last() {
    let batch = vec![
        Command::new(Aggregate::Order(Order::new()), DBOperation::Delete),
        Command::new(Aggregate::User(User::new()), DBOperation::Create),
    ];
    let mut replay: Replay<u8> = Replay::new(batch);
    assert_eq!(replay.total(), 2);
    assert_eq!(replay.begin(), Ok(Action::Begin));
    assert_eq!(replay.advance(Ok(())), Ok(Action::Call(PortCall::DeleteOrder(Order::new()))));
    assert_eq!(replay.advance(Ok(())), Ok(Action::Call(PortCall::CreateUser(User::new()))));
    assert_eq!(replay.advance(Err(3)), Ok(Action::Rollback));
    assert_eq!(
        replay.advance(Ok(())),
        Ok(Action::Finished(Err(CommitError::TransactionFailed(PersistenceError {
            position: 1,
            aggregate: AggregateKind::User,
            operation: DBOperation::Create,
            cause: 3,
        }))))
    );
}

#[test]
fn generic_staging_tags_each_aggregate() {
    let mut uow = client();
    uow.create(User::new());
    uow.update(Shop::new());
    uow.delete(Order::new());
    uow.create(Aggregate::Shop(Shop::new()));
    let mut replay = uow.commit::<u8>();
    assert_eq!(replay.begin(), Ok(Action::Begin));
    assert_eq!(replay.advance(Ok(())), Ok(Action::Call(PortCall::CreateUser(User::new()))));
    assert_eq!(replay.advance(Ok(())), Ok(Action::Call(PortCall::UpdateShop(Shop::new()))));
    assert_eq!(replay.advance(Ok(())), Ok(Action::Call(PortCall::DeleteOrder(Order::new()))));
    assert_eq!(replay.advance(Ok(())), Ok(Action::Call(PortCall::CreateShop(Shop::new()))));
    assert_eq!(replay.advance(Ok(())), Ok(Action::Commit));
}

#[test]
fn client_keeps_commands_it_was_made_with() {
    let staged = vec![Command::new(Aggregate::User(User::new()), DBOperation::Delete)];
    let mut uow: DatabaseClient<&str> = DatabaseClient::new("primary", staged);
    assert_eq!(*uow.conn(), "primary");
    assert_eq!(uow.len(), 1);
    uow.create(Order::new());
    let mut replay = uow.commit::<u8>();
    assert_eq!(*uow.conn(), "primary");
    assert_eq!(replay.begin(), Ok(Action::Begin));
    assert_eq!(replay.advance(Ok(())), Ok(Action::Call(PortCall::DeleteUser(User::new()))));
    assert_eq!(replay.advance(Ok(())), Ok(Action::Call(PortCall::CreateOrder(Order::new()))));
}

#[test]
fn context_provides_fresh_coordinators() {
    let context = Context::new(String::from("primary"));
    let mut first = context.provide();
    first.update(User::new());
    let second = context.provide();
    assert_eq!(first.len(), 1);
    assert_eq!(second.len(), 0);
    assert_eq!(first.conn(), "primary");
    assert_eq!(second.conn(), "primary");
}
