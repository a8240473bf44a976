use file_loader::failure::{Failure, FailureKind};
use file_loader::loader::{Action, Event, Loader, Policy, Stage};

fn failure(kind: FailureKind, cause: &str) -> Failure {
    Failure::new(kind, cause.to_string())
}

fn not_found() -> Failure {
    failure(FailureKind::NotFound, "No such file or directory (os error 2)")
}

fn denied() -> Failure {
    failure(FailureKind::PermissionDenied, "Permission denied (os error 13)")
}

/// Runs a load under `policy`, answering each action from `answers` in turn,
/// and returns every action the loader asked for, the last one included.
fn run(policy: Policy, answers: Vec<Event>) -> Vec<Action> {
    let (mut loader, first) = Loader::start(policy);
    let mut actions = vec![first];
    for event in answers {
        assert!(loader.accepts(&event));
        actions.push(loader.step(event));
    }
    assert!(loader.is_done());
    actions
}

#[test]
fn strict_load_of_missing_file_is_not_found() {
    let actions = run(Policy::Strict, vec![Event::Opened(Err(not_found()))]);
    assert_eq!(actions.len(), 2);
    assert_eq!(actions[0], Action::Open);
    match &actions[1] {
        Action::Finish(Err(f)) => assert_eq!(f.kind, FailureKind::NotFound),
        other => panic!("unexpected action {:?}", other),
    }
    assert!(!actions.contains(&Action::Create));
}

#[test]
fn create_if_missing_creates_empty_file() {
    let actions = run(
        Policy::CreateIfMissing,
        vec![
            Event::Opened(Err(not_found())),
            Event::Created(Ok(())),
            Event::Read(Ok(String::new())),
        ],
    );
    assert_eq!(
        actions,
        vec![Action::Open, Action::Create, Action::Read, Action::Finish(Ok(String::new()))]
    );
}

#[test]
fn second_load_after_creation_reads_empty_text() {
    let actions = run(
        Policy::CreateIfMissing,
        vec![Event::Opened(Ok(())), Event::Read(Ok(String::new()))],
    );
    assert_eq!(actions, vec![Action::Open, Action::Read, Action::Finish(Ok(String::new()))]);
}

#[test]
fn existing_file_loads_under_either_policy() {
    for policy in [Policy::Strict, Policy::CreateIfMissing] {
        let actions = run(policy, vec![Event::Opened(Ok(())), Event::Read(Ok("hello".to_string()))]);
        assert_eq!(
            actions,
            vec![Action::Open, Action::Read, Action::Finish(Ok("hello".to_string()))]
        );
    }
}

#[test]
fn strict_load_of_unreadable_file_is_denied() {
    let actions = run(Policy::Strict, vec![Event::Opened(Err(denied()))]);
    assert_eq!(actions, vec![Action::Open, Action::Finish(Err(denied()))]);
}

#[test]
fn create_if_missing_terminates_on_unreadable_file() {
    let actions = run(Policy::CreateIfMissing, vec![Event::Opened(Err(denied()))]);
    assert_eq!(actions, vec![Action::Open, Action::Terminate(denied())]);
}

#[test]
fn create_if_missing_terminates_on_other_open_failure() {
    let f = failure(FailureKind::Other, "Is a directory (os error 21)");
    let actions = run(Policy::CreateIfMissing, vec![Event::Opened(Err(f))]);
    match &actions[1] {
        Action::Terminate(f) => {
            assert_eq!(f.kind, FailureKind::Other);
            assert_eq!(f.cause, "Is a directory (os error 21)");
        }
        other => panic!("unexpected action {:?}", other),
    }
}

#[test]
fn create_if_missing_terminates_when_creation_fails() {
    let actions = run(
        Policy::CreateIfMissing,
        vec![Event::Opened(Err(not_found())), Event::Created(Err(denied()))],
    );
    assert_eq!(actions, vec![Action::Open, Action::Create, Action::Terminate(denied())]);
}

#[test]
fn read_failure_is_handed_back_under_either_policy() {
    for policy in [Policy::Strict, Policy::CreateIfMissing] {
        let bad = failure(FailureKind::Other, "stream did not contain valid UTF-8");
        let actions = run(policy, vec![Event::Opened(Ok(())), Event::Read(Err(bad))]);
        assert_eq!(
            actions[2],
            Action::Finish(Err(failure(FailureKind::Other, "stream did not contain valid UTF-8")))
        );
    }
}

#[test]
fn loader_accepts_only_the_awaited_answer() {
    let (mut loader, _) = Loader::start(Policy::CreateIfMissing);
    assert_eq!(loader.stage, Stage::Opening);
    assert!(!loader.accepts(&Event::Created(Ok(()))));
    assert!(!loader.accepts(&Event::Read(Ok(String::new()))));
    assert!(loader.accepts(&Event::Opened(Ok(()))));
    assert_eq!(loader.step(Event::Opened(Err(not_found()))), Action::Create);
    assert_eq!(loader.stage, Stage::Creating);
    assert!(!loader.accepts(&Event::Opened(Ok(()))));
    assert!(loader.accepts(&Event::Created(Ok(()))));
    assert!(!loader.is_done());
    assert_eq!(loader.step(Event::Created(Ok(()))), Action::Read);
    assert_eq!(loader.stage, Stage::Reading);
    assert_eq!(loader.step(Event::Read(Ok("x".to_string()))), Action::Finish(Ok("x".to_string())));
    assert!(loader.is_done());
    assert!(!loader.accepts(&Event::Read(Ok(String::new()))));
}

#[test]
fn failure_kind_classification() {
    assert!(not_found().is_not_found());
    assert!(!denied().is_not_found());
    assert!(!failure(FailureKind::Other, "").is_not_found());
    let f = failure(FailureKind::PermissionDenied, "cause");
    assert_eq!(f.kind, FailureKind::PermissionDenied);
    assert_eq!(f.cause, "cause");
}
