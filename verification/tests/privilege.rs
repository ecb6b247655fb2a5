use system_manager_server::identity::Identity;
use system_manager_server::privilege::{
    assume_identity, copy_ids, drop_to, PrivilegeOp, PrivilegeSnapshot,
};

fn describe(plan: &[PrivilegeOp]) -> Vec<String> {
    plan.iter().map(|op| format!("{:?}", op)).collect()
}

fn alice() -> Identity {
    Identity::new(1000, 1001, vec![1000, 27], "/home/alice".to_string(), "/bin/sh".to_string())
}

#[test]
fn taking_on_sets_groups_then_group_then_user() {
    assert_eq!(
        describe(&assume_identity(&alice())),
        vec!["SetGroups([1000, 27])", "SetEffectiveGid(1001)", "SetEffectiveUid(1000)"]
    );
}

#[test]
fn restoring_goes_the_other_way_round() {
    let snapshot = PrivilegeSnapshot::capture(0, 0, vec![0, 4]);
    assert_eq!(
        describe(&snapshot.restore()),
        vec!["SetEffectiveUid(0)", "SetEffectiveGid(0)", "SetGroups([0, 4])"]
    );
}

#[test]
fn dropping_for_good_sets_the_real_ids() {
    assert_eq!(
        describe(&drop_to(&alice())),
        vec!["SetGroups([1000, 27])", "SetGid(1001)", "SetUid(1000)"]
    );
}

#[test]
fn no_groups_means_an_empty_list_not_a_missing_step() {
    let nobody =
        Identity::new(65534, 65534, Vec::new(), "/".to_string(), "/bin/sh".to_string());
    assert_eq!(describe(&drop_to(&nobody))[0], "SetGroups([])");
    assert_eq!(describe(&assume_identity(&nobody))[0], "SetGroups([])");
}

#[test]
fn copies_of_ids_are_equal() {
    assert_eq!(copy_ids(&vec![3, 1, 2]), vec![3, 1, 2]);
    assert!(copy_ids(&Vec::new()).is_empty());
}

#[test]
fn nothing_is_restored_where_nothing_has_changed() {
    let snapshot = PrivilegeSnapshot::capture(0, 0, vec![0, 4]);
    assert!(snapshot.is_current(0, 0, &vec![0, 4]));
    assert!(!snapshot.is_current(1000, 0, &vec![0, 4]));
    assert!(!snapshot.is_current(0, 5, &vec![0, 4]));
    assert!(!snapshot.is_current(0, 0, &vec![4, 0]));
    assert!(!snapshot.is_current(0, 0, &vec![0]));
    assert!(snapshot.restore_from(0, 0, &vec![0, 4]).is_empty());
    let snapshot = PrivilegeSnapshot::capture(0, 0, vec![0, 4]);
    assert_eq!(
        describe(&snapshot.restore_from(1000, 0, &vec![0, 4])),
        vec!["SetEffectiveUid(0)", "SetEffectiveGid(0)", "SetGroups([0, 4])"]
    );
}
