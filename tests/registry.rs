use policy_evaluator::mode::{BuildError, PolicyExecutionMode};
use policy_evaluator::pre::{from_contents_internal, PolicyEvaluatorPre, ProtocolPre};
use policy_evaluator::mode::RegoPolicyExecutionMode;
use policy_evaluator::registry::{InstanceRegistry, PolicyRecord};

#[test]
fn policy_is_registered_in_the_mapping() {
    let policy_name = "policy_is_registered_in_the_mapping";
    let mut registry = InstanceRegistry::new();
    let policy_id: u64 = 1;

    let policy = from_contents_internal(
        policy_name.to_string(),
        Some(policy_id),
        PolicyExecutionMode::KubewardenWapc,
        &mut registry,
    )
    .unwrap();
    assert_eq!(policy.policy_id, policy_name);

    let found = registry.lookup(policy_id);
    assert!(found.is_some());
    assert_eq!(found.unwrap().policy_id, policy_name);
}

#[test]
fn policy_is_not_registered_in_the_mapping_if_not_wapc() {
    let policy_name = "policy_is_not_registered_in_the_mapping_if_not_wapc";
    let mut registry = InstanceRegistry::new();
    let policy_id: u64 = 1;

    from_contents_internal(
        policy_name.to_string(),
        Some(policy_id),
        PolicyExecutionMode::OpaGatekeeper,
        &mut registry,
    )
    .unwrap();

    let found = registry.lookup(policy_id);
    assert!(found.is_none());
    assert_eq!(registry.len(), 0);
}

#[test]
fn guest_callback_without_instance_id_is_refused() {
    let mut registry = InstanceRegistry::new();
    let r = from_contents_internal("p".to_string(), None, PolicyExecutionMode::KubewardenWapc, &mut registry);
    assert!(matches!(r, Err(BuildError::MissingInstanceId)));
    assert_eq!(registry.len(), 0);
}

#[test]
fn registering_twice_keeps_one_entry_per_instance() {
    let mut registry = InstanceRegistry::new();
    registry.register(7, PolicyRecord::new("a".to_string(), Some(7)));
    registry.register(8, PolicyRecord::new("b".to_string(), Some(8)));
    registry.register(7, PolicyRecord::new("c".to_string(), Some(7)));
    assert_eq!(registry.len(), 2);
    assert_eq!(registry.lookup(7).unwrap().policy_id, "c");
    assert_eq!(registry.lookup(8).unwrap().instance_id, Some(8));
    assert!(registry.lookup(9).is_none());
}

#[test]
fn pre_build_registers_only_guest_callback_evaluators() {
    let mut registry = InstanceRegistry::new();
    let wapc = PolicyEvaluatorPre::new(1u8, 2u8, "wapc-policy", PolicyExecutionMode::KubewardenWapc);
    assert_eq!(wapc.protocol, ProtocolPre::GuestCallback);
    let ev = wapc.build::<(), ()>(None, None, Some(42), &mut registry).unwrap();
    assert_eq!(ev.policy.policy_id, "wapc-policy");
    assert_eq!(ev.policy.instance_id, Some(42));
    assert_eq!(registry.len(), 1);
    assert_eq!(registry.lookup(42).unwrap().policy_id, "wapc-policy");

    let rego = PolicyEvaluatorPre::new(1u8, 2u8, "rego-policy", PolicyExecutionMode::Opa);
    assert_eq!(
        rego.protocol,
        ProtocolPre::ConstraintLanguage { entrypoint_id: 0, execution_mode: RegoPolicyExecutionMode::Opa }
    );
    let ev = rego.build::<(), ()>(None, None, None, &mut registry).unwrap();
    assert_eq!(ev.policy.instance_id, None);
    assert_eq!(ev.engine, 1u8);
    assert_eq!(ev.module, 2u8);
    assert_eq!(registry.len(), 1);
}

#[test]
fn gatekeeper_mode_maps_to_its_flavour() {
    let pre = PolicyEvaluatorPre::new((), (), "g", PolicyExecutionMode::OpaGatekeeper);
    assert_eq!(
        pre.protocol,
        ProtocolPre::ConstraintLanguage { entrypoint_id: 0, execution_mode: RegoPolicyExecutionMode::Gatekeeper }
    );
    assert!(RegoPolicyExecutionMode::from_execution_mode(PolicyExecutionMode::KubewardenWapc).is_err());
}

#[test]
fn guest_callback_pre_without_instance_id_fails() {
    let mut registry = InstanceRegistry::new();
    let pre = PolicyEvaluatorPre::new((), (), "w", PolicyExecutionMode::KubewardenWapc);
    let r = pre.build::<(), ()>(None, None, None, &mut registry);
    assert!(matches!(r, Err(BuildError::MissingInstanceId)));
    assert_eq!(registry.len(), 0);
}

#[test]
fn missing_settings_default_to_empty() {
    let mut registry = InstanceRegistry::new();
    let pre = PolicyEvaluatorPre::new((), (), "s", PolicyExecutionMode::Opa);
    let ev = pre.build::<Vec<(String, String)>, ()>(None, None, None, &mut registry).unwrap();
    assert!(ev.settings.is_empty());
    let pre = PolicyEvaluatorPre::new((), (), "s", PolicyExecutionMode::Opa);
    let ev = pre.build::<Vec<u8>, ()>(Some(vec![7u8]), None, None, &mut registry).unwrap();
    assert_eq!(ev.settings, vec![7u8]);
}

#[test]
fn constraint_language_records_keep_no_instance_id() {
    let mut registry = InstanceRegistry::new();
    let pre = PolicyEvaluatorPre::new((), (), "r", PolicyExecutionMode::OpaGatekeeper);
    let copy = pre.clone();
    let ev = pre.build::<(), ()>(None, None, Some(5), &mut registry).unwrap();
    assert_eq!(ev.policy.instance_id, None);
    assert_eq!(registry.len(), 0);
    let ev = copy.build::<(), ()>(None, None, None, &mut registry).unwrap();
    assert_eq!(ev.policy.policy_id, "r");
}
