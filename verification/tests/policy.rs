use tosca_controller::hazards::{Hazard, Hazards};
use tosca_controller::policy::Policy;

fn create_policy() -> (Hazards, Policy) {
    let hazards = Hazards::new().insert(Hazard::ElectricEnergyConsumption);

    let policy = Policy::new(hazards.clone());

    (hazards, policy)
}

fn check_device_policies(policy: &Policy, block_on_hazards: Hazards, local_hazards: &Hazards) {
    assert_eq!(policy.global_hazards(), &block_on_hazards);
    assert_eq!(policy.local_rules(), 2);
    assert_eq!(policy.local_hazards(1), Some(local_hazards));
    assert_eq!(policy.local_hazards(2), Some(local_hazards));

    let expected = Policy::new(block_on_hazards)
        .block_device_on_hazards(1, local_hazards.clone())
        .block_device_on_hazards(2, local_hazards.clone());
    assert_eq!(policy, &expected);
}

#[test]
fn only_global_policy() {
    let (hazards, policy) = create_policy();

    assert_eq!(policy.global_hazards(), &hazards);
    assert_eq!(policy.local_rules(), 0);
    assert_eq!(policy, Policy::new(hazards));
}

#[test]
fn only_local_policy() {
    let local_hazards = Hazards::new().insert(Hazard::Explosion);

    let policy = Policy::only_local_policy(1, local_hazards.clone())
        .block_device_on_hazards(2, local_hazards.clone());

    check_device_policies(&policy, Hazards::new(), &local_hazards);
}

#[test]
fn complete_policy() {
    let (global_hazards, policy) = create_policy();

    let local_hazards = Hazards::new().insert(Hazard::Explosion);

    let policy = policy
        .block_device_on_hazards(1, local_hazards.clone())
        .block_device_on_hazards(2, local_hazards.clone());

    check_device_policies(&policy, global_hazards, &local_hazards);
}

#[test]
fn init_policy_blocks_nothing() {
    let policy = Policy::init();
    let declared = Hazards::init_from_hazards([Hazard::FireHazard, Hazard::SpendMoney]);

    assert!(policy.global_hazards().is_empty());
    assert_eq!(policy.local_rules(), 0);
    assert!(policy.global_blocked_hazards(&declared).is_empty());
    assert!(policy.local_blocked_hazards(0, &declared).is_empty());
}

#[test]
fn global_blocked_hazards_keep_declared_order() {
    let rule = Hazards::init_from_hazards([
        Hazard::WaterFlooding,
        Hazard::FireHazard,
        Hazard::Explosion,
    ]);
    let policy = Policy::new(rule);
    let declared = Hazards::init_from_hazards([
        Hazard::Explosion,
        Hazard::SpendMoney,
        Hazard::WaterFlooding,
    ]);

    let blocked = policy.global_blocked_hazards(&declared);

    assert_eq!(
        blocked.to_vec(),
        vec![Hazard::Explosion, Hazard::WaterFlooding]
    );
}

#[test]
fn local_blocked_hazards_only_for_their_device() {
    let policy = Policy::only_local_policy(3, Hazards::init(Hazard::TakePictures));
    let declared = Hazards::init_from_hazards([Hazard::TakePictures, Hazard::VideoDisplay]);

    assert_eq!(
        policy.local_blocked_hazards(3, &declared).to_vec(),
        vec![Hazard::TakePictures]
    );
    assert!(policy.local_blocked_hazards(2, &declared).is_empty());
    assert!(policy.global_blocked_hazards(&declared).is_empty());
}

#[test]
fn later_local_rule_replaces_earlier_one() {
    let policy = Policy::only_local_policy(1, Hazards::init(Hazard::Explosion))
        .block_device_on_hazards(1, Hazards::init(Hazard::Asphyxia));
    let declared = Hazards::init_from_hazards([Hazard::Explosion, Hazard::Asphyxia]);

    assert_eq!(policy.local_rules(), 1);
    assert_eq!(
        policy.local_blocked_hazards(1, &declared).to_vec(),
        vec![Hazard::Asphyxia]
    );
}

#[test]
fn no_declared_hazards_are_never_blocked() {
    let every = Hazards::init_from_hazards([
        Hazard::AirPoisoning,
        Hazard::FireHazard,
        Hazard::LogEnergyConsumption,
    ]);
    let policy = Policy::new(every.clone()).block_device_on_hazards(0, every);

    assert!(policy.global_blocked_hazards(&Hazards::new()).is_empty());
    assert!(policy.local_blocked_hazards(0, &Hazards::new()).is_empty());
}
