use agora::AgoraError;
use agora::ErrorClass;
use agora::Milestone;
use agora::Task;
use agora::TaskStatus;
use agora::task_ops::cancel_task;
use agora::task_ops::post_task;
use agora::task_ops::update_task;

fn milestone(amount: u64) -> Milestone {
    Milestone { description: String::new(), amount, completed: false, paid: false }
}

fn open_task(owner: u64) -> Task {
    post_task(
        owner,
        String::from("Build site"),
        String::from("a website"),
        100,
        vec![milestone(50), milestone(50)],
        1000,
        0,
    )
    .unwrap()
}

#[test]
fn post_task_scenario_succeeds_open() {
    let t = post_task(
        7,
        String::from("Build site"),
        String::new(),
        100,
        vec![milestone(50), milestone(50)],
        1000,
        0,
    )
    .unwrap();
    assert_eq!(t.owner, 7);
    assert_eq!(t.title, "Build site");
    assert_eq!(t.budget, 100);
    assert_eq!(t.status, TaskStatus::Open);
    assert_eq!(t.milestones.len(), 2);
    assert_eq!(t.milestones[0].amount, 50);
    assert_eq!(t.milestones[1].amount, 50);
    assert!(!t.milestones[0].completed);
    assert!(!t.milestones[0].paid);
    assert!(t.accepted_bid.is_none());
    assert!(t.escrow_account.is_none());
    assert_eq!(t.created_at, 0);
    assert_eq!(t.updated_at, 0);
}

#[test]
fn post_task_budget_mismatch_rejected() {
    let r = post_task(
        7,
        String::from("Build site"),
        String::new(),
        101,
        vec![milestone(50), milestone(50)],
        1000,
        0,
    );
    assert_eq!(r.unwrap_err(), AgoraError::MilestoneAmountMismatch);
}

#[test]
fn post_task_budget_must_match_exactly_either_way() {
    let low = post_task(7, String::from("t"), String::new(), 99, vec![milestone(50), milestone(50)], 1000, 0);
    assert_eq!(low.unwrap_err(), AgoraError::MilestoneAmountMismatch);
    let exact = post_task(7, String::from("t"), String::new(), 100, vec![milestone(50), milestone(50)], 1000, 0);
    assert!(exact.is_ok());
}

#[test]
fn post_task_empty_title_rejected() {
    let r = post_task(7, String::new(), String::new(), 50, vec![milestone(50)], 1000, 0);
    assert_eq!(r.unwrap_err(), AgoraError::EmptyTitle);
}

#[test]
fn post_task_long_title_rejected() {
    let title: String = "x".repeat(101);
    let r = post_task(7, title, String::new(), 50, vec![milestone(50)], 1000, 0);
    assert_eq!(r.unwrap_err(), AgoraError::TitleTooLong);
    let title_ok: String = "x".repeat(100);
    assert!(post_task(7, title_ok, String::new(), 50, vec![milestone(50)], 1000, 0).is_ok());
}

#[test]
fn post_task_long_description_rejected() {
    let desc: String = "d".repeat(5001);
    let r = post_task(7, String::from("t"), desc, 50, vec![milestone(50)], 1000, 0);
    assert_eq!(r.unwrap_err(), AgoraError::DescriptionTooLong);
}

#[test]
fn post_task_no_milestones_rejected() {
    let r = post_task(7, String::from("t"), String::new(), 0, vec![], 1000, 0);
    assert_eq!(r.unwrap_err(), AgoraError::NoMilestones);
}

#[test]
fn post_task_eleven_milestones_rejected() {
    let ms: Vec<Milestone> = (0..11).map(|_| milestone(1)).collect();
    let r = post_task(7, String::from("t"), String::new(), 11, ms, 1000, 0);
    assert_eq!(r.unwrap_err(), AgoraError::TooManyMilestones);
    let ten: Vec<Milestone> = (0..10).map(|_| milestone(1)).collect();
    assert!(post_task(7, String::from("t"), String::new(), 10, ten, 1000, 0).is_ok());
}

#[test]
fn post_task_past_deadline_rejected() {
    let r = post_task(7, String::from("t"), String::new(), 50, vec![milestone(50)], 100, 100);
    assert_eq!(r.unwrap_err(), AgoraError::InvalidDeadline);
}

#[test]
fn post_task_huge_amounts_do_not_wrap() {
    // Two amounts that wrap to 0 in 64 bits must not pass for a 0 budget.
    let ms = vec![milestone(u64::MAX), milestone(1)];
    let r = post_task(7, String::from("t"), String::new(), 0, ms, 1000, 0);
    assert_eq!(r.unwrap_err(), AgoraError::MilestoneAmountMismatch);
}

#[test]
fn post_task_clears_caller_flags() {
    let dirty = Milestone { description: String::new(), amount: 50, completed: true, paid: true };
    let t = post_task(7, String::from("t"), String::new(), 50, vec![dirty], 1000, 0).unwrap();
    assert!(!t.milestones[0].completed);
    assert!(!t.milestones[0].paid);
}

#[test]
fn update_task_applies_provided_fields() {
    let mut t = open_task(7);
    let r = update_task(&mut t, 7, Some(String::from("new words")), Some(250), Some(2000), 5);
    assert!(r.is_ok());
    assert_eq!(t.description, "new words");
    assert_eq!(t.budget, 250);
    assert_eq!(t.deadline, 2000);
    assert_eq!(t.updated_at, 5);
    assert_eq!(t.title, "Build site");
}

#[test]
fn update_task_unset_fields_unchanged() {
    let mut t = open_task(7);
    let r = update_task(&mut t, 7, None, None, None, 5);
    assert!(r.is_ok());
    assert_eq!(t.description, "a website");
    assert_eq!(t.budget, 100);
    assert_eq!(t.deadline, 1000);
    assert_eq!(t.updated_at, 5);
}

#[test]
fn update_task_by_stranger_rejected() {
    let mut t = open_task(7);
    let r = update_task(&mut t, 8, Some(String::from("x")), None, None, 5);
    assert_eq!(r.unwrap_err(), AgoraError::Unauthorized);
    assert_eq!(t.description, "a website");
    assert_eq!(t.updated_at, 0);
}

#[test]
fn update_task_long_description_rejected_atomically() {
    let mut t = open_task(7);
    let r = update_task(&mut t, 7, Some("d".repeat(5001)), Some(999), None, 5);
    assert_eq!(r.unwrap_err(), AgoraError::DescriptionTooLong);
    // The budget must not have been applied either: all or nothing.
    assert_eq!(t.budget, 100);
    assert_eq!(t.updated_at, 0);
}

#[test]
fn update_task_past_deadline_rejected() {
    let mut t = open_task(7);
    let r = update_task(&mut t, 7, None, None, Some(4), 5);
    assert_eq!(r.unwrap_err(), AgoraError::InvalidDeadline);
}

#[test]
fn update_task_not_open_rejected() {
    let mut t = open_task(7);
    t.status = TaskStatus::InProgress;
    let r = update_task(&mut t, 7, Some(String::from("x")), None, None, 5);
    assert_eq!(r.unwrap_err(), AgoraError::InvalidTaskStatus);
}

#[test]
fn cancel_open_task() {
    let mut t = open_task(7);
    let r = cancel_task(&mut t, 7, 9);
    assert!(r.is_ok());
    assert_eq!(t.status, TaskStatus::Cancelled);
    assert_eq!(t.updated_at, 9);
}

#[test]
fn cancel_in_progress_task_without_escrow() {
    let mut t = open_task(7);
    t.status = TaskStatus::InProgress;
    assert!(cancel_task(&mut t, 7, 9).is_ok());
    assert_eq!(t.status, TaskStatus::Cancelled);
}

#[test]
fn cancel_by_stranger_rejected() {
    let mut t = open_task(7);
    assert_eq!(cancel_task(&mut t, 8, 9).unwrap_err(), AgoraError::Unauthorized);
    assert_eq!(t.status, TaskStatus::Open);
}

#[test]
fn cancel_completed_task_rejected() {
    let mut t = open_task(7);
    t.status = TaskStatus::Completed;
    assert_eq!(cancel_task(&mut t, 7, 9).unwrap_err(), AgoraError::InvalidTaskStatus);
}

#[test]
fn cancel_blocked_once_escrow_exists() {
    let mut t = open_task(7);
    t.status = TaskStatus::InProgress;
    t.escrow_account = Some(900);
    assert_eq!(cancel_task(&mut t, 7, 9).unwrap_err(), AgoraError::EscrowExists);
    assert_eq!(t.status, TaskStatus::InProgress);
}

#[test]
fn error_classes_cover_taxonomy() {
    assert_eq!(AgoraError::TitleTooLong.class(), ErrorClass::Validation);
    assert_eq!(AgoraError::Unauthorized.class(), ErrorClass::Authorization);
    assert_eq!(AgoraError::InvalidTaskStatus.class(), ErrorClass::State);
    assert_eq!(AgoraError::ArithmeticOverflow.class(), ErrorClass::Arithmetic);
}
