use policy_evaluator::builder::{EngineSource, ModuleSource, PolicyEvaluatorBuilder};
use policy_evaluator::mode::{BuildError, PolicyExecutionMode};

type Builder = PolicyEvaluatorBuilder<&'static str, &'static str, (), ()>;

fn builder() -> Builder {
    PolicyEvaluatorBuilder::new("policy".to_string())
}

#[test]
fn file_and_contents_are_refused() {
    let r = builder()
        .policy_file("/tmp/policy.wasm")
        .policy_contents(&[0u8, 97, 115, 109])
        .execution_mode(PolicyExecutionMode::KubewardenWapc)
        .build_pre();
    assert!(matches!(r, Err(BuildError::FileAndContents)));
}

#[test]
fn file_and_module_are_refused() {
    let r = builder()
        .engine("engine")
        .policy_file("/tmp/policy.wasm")
        .policy_module("module")
        .execution_mode(PolicyExecutionMode::Opa)
        .build_pre();
    assert!(matches!(r, Err(BuildError::FileAndModule)));
}

#[test]
fn contents_and_module_are_refused() {
    let r = builder()
        .engine("engine")
        .policy_contents(&[1u8])
        .policy_module("module")
        .execution_mode(PolicyExecutionMode::Opa)
        .build_pre();
    assert!(matches!(r, Err(BuildError::ContentsAndModule)));
}

#[test]
fn no_source_is_refused() {
    let r = builder().execution_mode(PolicyExecutionMode::Opa).build_pre();
    assert!(matches!(r, Err(BuildError::NoSource)));
}

#[test]
fn module_without_engine_is_refused() {
    let r = builder()
        .policy_module("module")
        .execution_mode(PolicyExecutionMode::KubewardenWapc)
        .build_pre();
    assert!(matches!(r, Err(BuildError::ModuleWithoutEngine)));
}

#[test]
fn missing_execution_mode_is_refused() {
    let r = builder().policy_contents(&[1u8, 2]).build_pre();
    assert!(matches!(r, Err(BuildError::NoExecutionMode)));
}

#[test]
fn contents_with_default_cached_engine() {
    let r = builder()
        .policy_contents(&[1u8, 2, 3])
        .enable_wasmtime_cache()
        .execution_mode(PolicyExecutionMode::OpaGatekeeper)
        .build_pre();
    let plan = match r {
        Ok(p) => p,
        Err(e) => panic!("unexpected error {:?}", e),
    };
    assert_eq!(plan.policy_id, "policy");
    assert_eq!(plan.execution_mode, PolicyExecutionMode::OpaGatekeeper);
    assert!(matches!(plan.engine, EngineSource::Default { cache: true }));
    match plan.source {
        ModuleSource::Contents(c) => assert_eq!(c, vec![1u8, 2, 3]),
        _ => panic!("wrong source"),
    }
}

#[test]
fn module_with_given_engine() {
    let plan = match builder()
        .engine("engine")
        .policy_module("module")
        .settings(Some(()))
        .callback_channel(())
        .execution_mode(PolicyExecutionMode::KubewardenWapc)
        .build_pre()
    {
        Ok(p) => p,
        Err(e) => panic!("unexpected error {:?}", e),
    };
    assert!(matches!(plan.engine, EngineSource::Given("engine")));
    assert!(matches!(plan.source, ModuleSource::Compiled("module")));
}

#[test]
fn file_with_default_engine_without_cache() {
    let plan = match builder()
        .policy_file("/srv/p.wasm")
        .execution_mode(PolicyExecutionMode::Opa)
        .build_pre()
    {
        Ok(p) => p,
        Err(e) => panic!("unexpected error {:?}", e),
    };
    assert!(matches!(plan.engine, EngineSource::Default { cache: false }));
    match plan.source {
        ModuleSource::File(f) => assert_eq!(f, "/srv/p.wasm"),
        _ => panic!("wrong source"),
    }
}
