use dead_mans_switch::descriptor::MoveOrRedeemWithTimeLock;
use dead_mans_switch::policy::{decimal_string, has_signer, Policy, TIMELOCK_BLOCKS};
use dead_mans_switch::workflow::Branch;

fn template() -> MoveOrRedeemWithTimeLock {
    MoveOrRedeemWithTimeLock::new("OWNER".to_string(), "REDEEMER".to_string())
}

#[test]
fn decimal_text_of_numbers() {
    assert_eq!(decimal_string(0), "0");
    assert_eq!(decimal_string(7), "7");
    assert_eq!(decimal_string(1000), "1000");
    assert_eq!(decimal_string(4294967295), "4294967295");
}

#[test]
fn miniscript_text_of_template() {
    let t = template();
    assert_eq!(t.policy().to_miniscript(), "andor(pk(REDEEMER),older(1000),pk(OWNER))");
    assert_eq!(t.descriptor_text(), "wsh(andor(pk(REDEEMER),older(1000),pk(OWNER)))");
}

#[test]
fn owner_branch_open_at_height_zero() {
    let p = template().policy();
    assert!(p.is_satisfied(&vec!["OWNER".to_string()], 0));
    assert!(p.is_satisfied(&vec!["OWNER".to_string()], 5000));
}

#[test]
fn redeemer_branch_waits_for_timelock() {
    let p = template().policy();
    let r = vec!["REDEEMER".to_string()];
    assert!(!p.is_satisfied(&r, 0));
    assert!(!p.is_satisfied(&r, TIMELOCK_BLOCKS - 1));
    assert!(p.is_satisfied(&r, TIMELOCK_BLOCKS));
    assert!(!p.is_satisfied(&vec![], 100000));
    assert!(!p.is_satisfied(&vec!["SOMEONE".to_string()], 100000));
}

#[test]
fn single_key_and_timelock_leaves() {
    let k = Policy::Pk { key: "K".to_string() };
    assert!(k.is_satisfied(&vec!["A".to_string(), "K".to_string()], 0));
    assert!(!k.is_satisfied(&vec!["A".to_string()], 0));
    let o = Policy::Older { blocks: 10 };
    assert!(o.is_satisfied(&vec![], 10));
    assert!(!o.is_satisfied(&vec![], 9));
    assert_eq!(o.to_miniscript(), "older(10)");
    assert!(has_signer(&vec!["x".to_string()], &"x".to_string()));
}

#[test]
fn signer_of_each_branch() {
    let t = template();
    assert_eq!(t.signer_for(Branch::Owner), "OWNER");
    assert_eq!(t.signer_for(Branch::Redeemer), "REDEEMER");
}
