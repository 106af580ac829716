use qrmi::decimal::decimal_string;
use qrmi::TaskStatus;

const ALL: [TaskStatus; 5] = [
    TaskStatus::Queued,
    TaskStatus::Running,
    TaskStatus::Completed,
    TaskStatus::Failed,
    TaskStatus::Cancelled,
];

#[test]
fn terminal_statuses() {
    assert!(!TaskStatus::Queued.is_terminal());
    assert!(!TaskStatus::Running.is_terminal());
    assert!(TaskStatus::Completed.is_terminal());
    assert!(TaskStatus::Failed.is_terminal());
    assert!(TaskStatus::Cancelled.is_terminal());
}

#[test]
fn queued_moves_only_to_running_or_cancelled() {
    let allowed: Vec<TaskStatus> =
        ALL.iter().copied().filter(|s| TaskStatus::Queued.can_move_to(*s)).collect();
    assert_eq!(allowed, vec![TaskStatus::Running, TaskStatus::Cancelled]);
}

#[test]
fn running_moves_only_to_terminal_statuses() {
    let allowed: Vec<TaskStatus> =
        ALL.iter().copied().filter(|s| TaskStatus::Running.can_move_to(*s)).collect();
    assert_eq!(
        allowed,
        vec![TaskStatus::Completed, TaskStatus::Failed, TaskStatus::Cancelled]
    );
}

#[test]
fn nothing_leaves_a_terminal_status() {
    for from in [TaskStatus::Completed, TaskStatus::Failed, TaskStatus::Cancelled] {
        for to in ALL {
            assert!(!from.can_move_to(to));
        }
    }
}

#[test]
fn decimal_rendering() {
    assert_eq!(decimal_string(0), "0");
    assert_eq!(decimal_string(7), "7");
    assert_eq!(decimal_string(10), "10");
    assert_eq!(decimal_string(1234), "1234");
    assert_eq!(decimal_string(u64::MAX), "18446744073709551615");
}
