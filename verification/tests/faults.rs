use sway_alttab::fault::{reply_fault, Fault};

#[test]
fn only_a_rejected_command_is_survived() {
    assert!(Fault::Connection.is_fatal());
    assert!(Fault::Query.is_fatal());
    assert!(!Fault::Command.is_fatal());
    assert!(Fault::Resource.is_fatal());
}

#[test]
fn a_reply_without_failures_reports_no_fault() {
    assert_eq!(reply_fault(&vec![]), None);
    assert_eq!(reply_fault(&vec![true]), None);
    assert_eq!(reply_fault(&vec![true, true, true]), None);
}

#[test]
fn a_reply_with_a_failure_reports_a_rejected_command() {
    assert_eq!(reply_fault(&vec![false]), Some(Fault::Command));
    assert_eq!(reply_fault(&vec![true, false]), Some(Fault::Command));
    assert_eq!(reply_fault(&vec![false, true]), Some(Fault::Command));
    assert_eq!(reply_fault(&vec![true, true, false, true]), Some(Fault::Command));
}
