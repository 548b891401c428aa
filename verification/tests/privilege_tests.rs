use ferio_linux_helper::privilege::{escalation, is_root, relaunch_exit_code, root_decision, Escalation};

#[test]
fn mock_variables_override_the_user_id() {
    assert!(!root_decision(true, true, true));
    assert!(root_decision(false, true, false));
    assert!(root_decision(false, false, true));
    assert!(!root_decision(false, false, false));
    assert!(!is_root(true, false));
    assert!(!is_root(true, true));
    assert!(is_root(false, true));
}

#[test]
fn escalation_steps() {
    assert_eq!(escalation(true, true), Escalation::Proceed);
    assert_eq!(escalation(false, true), Escalation::MockExit(100));
    assert_eq!(escalation(false, false), Escalation::Relaunch);
    assert_eq!(relaunch_exit_code(Some(3)), 3);
    assert_eq!(relaunch_exit_code(None), 1);
}
