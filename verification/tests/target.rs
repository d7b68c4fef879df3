use ioprio::{target_which_who, Target};

#[test]
fn process_target_resolution() {
    assert_eq!(target_which_who(Target::Process(0)), (1, 0));
    assert_eq!(target_which_who(Target::Process(1234)), (1, 1234));
    assert_eq!(target_which_who(Target::Process(-1)), (1, -1));
}

#[test]
fn process_group_target_resolution() {
    assert_eq!(target_which_who(Target::ProcessGroup(0)), (2, 0));
    assert_eq!(target_which_who(Target::ProcessGroup(321)), (2, 321));
}

#[test]
fn user_target_resolution() {
    assert_eq!(target_which_who(Target::User(0)), (3, 0));
    assert_eq!(target_which_who(Target::User(1000)), (3, 1000));
    // A user id above i32::MAX keeps its 32-bit pattern, reinterpreted.
    assert_eq!(target_which_who(Target::User(4294967295)), (3, -1));
}
