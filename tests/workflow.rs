use dead_mans_switch::workflow::{
    confirmations, is_expired, next_state, plan_check_in, plan_redeem, plan_withdraw, policy_path_index,
    signing_outcome, Branch, Event, Output, SwitchState, WorkflowError,
};

#[test]
fn check_in_on_empty_balance() {
    let r = plan_check_in(0, "addr".to_string());
    assert!(matches!(r, Err(WorkflowError::EmptyBalance)));
}

#[test]
fn check_in_drains_to_fresh_address() {
    let p = plan_check_in(1_000_000, "fresh".to_string()).ok().unwrap();
    assert_eq!(p.branch, Branch::Owner);
    assert_eq!(p.path_index, 1);
    assert_eq!(p.amount, 1_000_000);
    assert_eq!(p.recipient, "fresh");
}

#[test]
fn withdraw_goes_to_destination() {
    let p = plan_withdraw(42, "dest".to_string()).ok().unwrap();
    assert_eq!(p.branch, Branch::Owner);
    assert_eq!(p.amount, 42);
    assert_eq!(p.recipient, "dest");
    assert!(matches!(plan_withdraw(0, "dest".to_string()), Err(WorkflowError::EmptyBalance)));
}

#[test]
fn redeem_right_after_check_in_is_refused() {
    // the fresh output of a check-in: about 0.01 minus the fee, no confirmations yet
    let outs = vec![Output { value: 999_000, age: 0 }];
    let r = plan_redeem(&outs, "redeemer".to_string());
    assert!(matches!(r, Err(WorkflowError::TimelockNotExpired)));
    let outs = vec![Output { value: 999_000, age: 999 }];
    let r = plan_redeem(&outs, "redeemer".to_string());
    assert!(matches!(r, Err(WorkflowError::TimelockNotExpired)));
}

#[test]
fn redeem_after_timelock_spends_everything() {
    let outs = vec![Output { value: 999_000, age: 1000 }];
    let p = plan_redeem(&outs, "redeemer".to_string()).ok().unwrap();
    assert_eq!(p.branch, Branch::Redeemer);
    assert_eq!(p.path_index, 0);
    assert_eq!(p.amount, 999_000);
    assert_eq!(p.recipient, "redeemer");
    let outs = vec![Output { value: 5, age: 1200 }, Output { value: 7, age: 3000 }];
    assert_eq!(plan_redeem(&outs, "r".to_string()).ok().unwrap().amount, 12);
}

#[test]
fn redeem_with_one_young_output() {
    let outs = vec![Output { value: 5, age: 1200 }, Output { value: 7, age: 10 }];
    assert!(matches!(plan_redeem(&outs, "r".to_string()), Err(WorkflowError::TimelockNotExpired)));
}

#[test]
fn redeem_with_nothing() {
    assert!(matches!(plan_redeem(&vec![], "r".to_string()), Err(WorkflowError::EmptyBalance)));
    let outs = vec![Output { value: 0, age: 1200 }];
    assert!(matches!(plan_redeem(&outs, "r".to_string()), Err(WorkflowError::EmptyBalance)));
}

#[test]
fn signing_must_finalize() {
    assert!(signing_outcome(true).is_ok());
    assert!(matches!(signing_outcome(false), Err(WorkflowError::SignatureIncomplete)));
}

#[test]
fn path_indices() {
    assert_eq!(policy_path_index(Branch::Owner), 1);
    assert_eq!(policy_path_index(Branch::Redeemer), 0);
}

#[test]
fn lifecycle_transitions() {
    assert_eq!(next_state(SwitchState::Created, Event::Fund), Some(SwitchState::Active));
    assert_eq!(next_state(SwitchState::Active, Event::CheckIn), Some(SwitchState::Active));
    assert_eq!(next_state(SwitchState::Active, Event::Withdraw), Some(SwitchState::Terminated));
    assert_eq!(next_state(SwitchState::Active, Event::TimelockElapsed), Some(SwitchState::Expired));
    assert_eq!(next_state(SwitchState::Expired, Event::Redeem), Some(SwitchState::Terminated));
    assert_eq!(next_state(SwitchState::Active, Event::Redeem), None);
    assert_eq!(next_state(SwitchState::Expired, Event::CheckIn), None);
    assert_eq!(next_state(SwitchState::Terminated, Event::Fund), None);
}

#[test]
fn expiry_from_heights() {
    assert!(!is_expired(100, 100));
    assert!(!is_expired(1098, 100));
    assert!(is_expired(1099, 100));
    assert!(is_expired(2500, 100));
    assert!(!is_expired(50, 100));
}

#[test]
fn confirmations_of_outputs() {
    assert_eq!(confirmations(100, Some(100)), 1);
    assert_eq!(confirmations(1099, Some(100)), 1000);
    assert_eq!(confirmations(100, None), 0);
    assert_eq!(confirmations(50, Some(100)), 0);
    assert_eq!(confirmations(u32::MAX, Some(0)), u32::MAX);
}
