use solhat_ui::cancel::{
    is_cancel_requested, reset_cancel_status, set_request_cancel, set_task_cancelled,
    CancelContainer, CancelStatus,
};

#[test]
fn new_token_is_in_normal_operation() {
    let token = CancelContainer::new();
    assert_eq!(token.status, CancelStatus::NoStatus);
    assert!(!is_cancel_requested(&token));
}

#[test]
fn request_cancel_is_observed() {
    let mut token = CancelContainer::new();
    set_request_cancel(&mut token);
    assert_eq!(token.status, CancelStatus::CancelRequested);
    assert!(is_cancel_requested(&token));
}

#[test]
fn request_cancel_twice_is_as_once() {
    let mut once = CancelContainer::new();
    set_request_cancel(&mut once);
    let mut twice = CancelContainer::new();
    set_request_cancel(&mut twice);
    set_request_cancel(&mut twice);
    assert_eq!(once.status, twice.status);
    assert_eq!(twice.status, CancelStatus::CancelRequested);
    assert!(is_cancel_requested(&twice));
}

#[test]
fn cancelled_is_not_a_pending_request() {
    let mut token = CancelContainer::new();
    set_request_cancel(&mut token);
    set_task_cancelled(&mut token);
    assert_eq!(token.status, CancelStatus::Cancelled);
    assert!(!is_cancel_requested(&token));
}

#[test]
fn reset_returns_to_normal_operation() {
    let mut token = CancelContainer::new();
    set_request_cancel(&mut token);
    reset_cancel_status(&mut token);
    assert_eq!(token.status, CancelStatus::NoStatus);
    set_task_cancelled(&mut token);
    reset_cancel_status(&mut token);
    assert_eq!(token.status, CancelStatus::NoStatus);
    assert!(!is_cancel_requested(&token));
}
