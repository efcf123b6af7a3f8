use policy_evaluator::builder::PolicyEvaluatorBuilder;
use policy_evaluator::compile::{build_pre_from_plan, prepare_engine, CompileError};
use policy_evaluator::builder::EngineSource;
use policy_evaluator::mode::PolicyExecutionMode;
use policy_evaluator::pre::ProtocolPre;
use wasmtime_provider::wasmtime;

const EMPTY_MODULE: [u8; 8] = [0, 97, 115, 109, 1, 0, 0, 0];

type Builder = PolicyEvaluatorBuilder<wasmtime::Engine, wasmtime::Module, (), ()>;

#[test]
fn contents_compile_into_a_pre_built_evaluator() {
    let plan = match Builder::new("p".to_string())
        .policy_contents(&EMPTY_MODULE)
        .execution_mode(PolicyExecutionMode::KubewardenWapc)
        .build_pre()
    {
        Ok(p) => p,
        Err(e) => panic!("unexpected {:?}", e),
    };
    let pre = match build_pre_from_plan(plan, None) {
        Ok(p) => p,
        Err(_) => panic!("the empty module must compile"),
    };
    assert_eq!(pre.policy_id, "p");
    assert_eq!(pre.protocol, ProtocolPre::GuestCallback);
}

#[test]
fn malformed_bytecode_is_a_compilation_error() {
    let plan = match Builder::new("p".to_string())
        .policy_contents(&[1u8, 2, 3])
        .execution_mode(PolicyExecutionMode::Opa)
        .build_pre()
    {
        Ok(p) => p,
        Err(e) => panic!("unexpected {:?}", e),
    };
    assert!(matches!(build_pre_from_plan(plan, None), Err(CompileError::Module(_))));
}

#[test]
fn file_plan_needs_its_contents() {
    let plan = match Builder::new("p".to_string())
        .policy_file("/nonexistent/p.wasm")
        .execution_mode(PolicyExecutionMode::Opa)
        .build_pre()
    {
        Ok(p) => p,
        Err(e) => panic!("unexpected {:?}", e),
    };
    assert!(matches!(build_pre_from_plan(plan, None), Err(CompileError::FileNotRead)));
}

#[test]
fn file_contents_are_compiled() {
    let plan = match Builder::new("f".to_string())
        .policy_file("/srv/f.wasm")
        .execution_mode(PolicyExecutionMode::OpaGatekeeper)
        .build_pre()
    {
        Ok(p) => p,
        Err(e) => panic!("unexpected {:?}", e),
    };
    let pre = match build_pre_from_plan(plan, Some(EMPTY_MODULE.to_vec())) {
        Ok(p) => p,
        Err(_) => panic!("the empty module must compile"),
    };
    assert_eq!(pre.execution_mode, PolicyExecutionMode::OpaGatekeeper);
}

#[test]
fn precompiled_module_is_reused_with_its_engine() {
    let engine = match prepare_engine(EngineSource::Default { cache: false }) {
        Ok(e) => e,
        Err(_) => panic!("default engine"),
    };
    let module = wasmtime::Module::new(&engine, EMPTY_MODULE).unwrap();
    let plan = match Builder::new("m".to_string())
        .engine(engine)
        .policy_module(module)
        .execution_mode(PolicyExecutionMode::KubewardenWapc)
        .build_pre()
    {
        Ok(p) => p,
        Err(e) => panic!("unexpected {:?}", e),
    };
    assert!(build_pre_from_plan(plan, None).is_ok());
}
