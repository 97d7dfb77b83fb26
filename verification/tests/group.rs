use scraper::group::{GroupOutcome, TaskExit, TaskGroup};
use scraper::task::{EventLabel, SpawnedTask, TaskKind, TaskLabel};

fn member(handle: u64, domain: u32, chain: &str, event: TaskKind) -> SpawnedTask {
    SpawnedTask { handle, domain, label: TaskLabel { chain: chain.to_string(), event } }
}

fn three_members() -> Vec<SpawnedTask> {
    vec![
        member(10, 1, "ethereum", TaskKind::Sync(EventLabel::MessageDispatch)),
        member(11, 1, "ethereum", TaskKind::Metrics),
        member(12, 2, "polygon", TaskKind::Sync(EventLabel::GasPayment)),
    ]
}

#[test]
fn a_new_group_is_undecided() {
    let group = TaskGroup::run_all(three_members());
    assert_eq!(group.len(), 3);
    assert_eq!(group.outcome(), None);
    assert!(group.first_to_exit().is_none());
    assert_eq!(group.remaining(), Vec::<u64>::new());
}

#[test]
fn the_first_exit_decides_the_group() {
    let mut group = TaskGroup::run_all(three_members());
    group.on_exit(1, TaskExit::Failed);
    assert_eq!(group.outcome(), Some(GroupOutcome { member: 1, exit: TaskExit::Failed }));
    let culprit = group.first_to_exit().unwrap();
    assert_eq!(culprit.handle, 11);
    assert_eq!(culprit.label.chain, "ethereum");
    assert_eq!(culprit.label.event, TaskKind::Metrics);
}

#[test]
fn a_later_exit_changes_nothing() {
    let mut group = TaskGroup::run_all(three_members());
    group.on_exit(2, TaskExit::Finished);
    group.on_exit(0, TaskExit::Failed);
    group.on_exit(2, TaskExit::Aborted);
    assert_eq!(group.outcome(), Some(GroupOutcome { member: 2, exit: TaskExit::Finished }));
}

#[test]
fn a_success_is_as_final_as_an_error() {
    for exit in [TaskExit::Finished, TaskExit::Failed, TaskExit::Aborted] {
        let mut group = TaskGroup::run_all(three_members());
        group.on_exit(0, exit);
        assert_eq!(group.outcome(), Some(GroupOutcome { member: 0, exit }));
    }
}

#[test]
fn only_a_clean_return_counts_as_success() {
    assert!(GroupOutcome { member: 0, exit: TaskExit::Finished }.is_ok());
    assert!(!GroupOutcome { member: 0, exit: TaskExit::Failed }.is_ok());
    assert!(!GroupOutcome { member: 0, exit: TaskExit::Aborted }.is_ok());
}

#[test]
fn the_exit_of_a_stranger_is_ignored() {
    let mut group = TaskGroup::run_all(three_members());
    group.on_exit(3, TaskExit::Failed);
    group.on_exit(usize::MAX, TaskExit::Aborted);
    assert_eq!(group.outcome(), None);
    group.on_exit(0, TaskExit::Aborted);
    assert_eq!(group.outcome(), Some(GroupOutcome { member: 0, exit: TaskExit::Aborted }));
}

#[test]
fn an_empty_group_is_never_decided() {
    let mut group = TaskGroup::run_all(Vec::new());
    group.on_exit(0, TaskExit::Failed);
    assert_eq!(group.len(), 0);
    assert_eq!(group.outcome(), None);
    assert!(group.task(0).is_none());
}

#[test]
fn the_others_are_named_once_the_group_is_decided() {
    let mut group = TaskGroup::run_all(three_members());
    group.on_exit(1, TaskExit::Failed);
    assert_eq!(group.remaining(), vec![10, 12]);

    let mut group = TaskGroup::run_all(three_members());
    group.on_exit(0, TaskExit::Finished);
    assert_eq!(group.remaining(), vec![11, 12]);

    let mut group = TaskGroup::run_all(three_members());
    group.on_exit(2, TaskExit::Aborted);
    assert_eq!(group.remaining(), vec![10, 11]);
}

#[test]
fn members_are_found_by_their_place() {
    let group = TaskGroup::run_all(three_members());
    assert_eq!(group.task(0).unwrap().handle, 10);
    assert_eq!(group.task(2).unwrap().label.chain, "polygon");
    assert!(group.task(3).is_none());
}

#[test]
fn a_cloned_member_equals_the_original() {
    let task = member(5, 9, "celo", TaskKind::Sync(EventLabel::MessageDelivery));
    assert_eq!(task.clone(), task);
    assert_eq!(task.label.clone(), task.label);
}
