use vstd::prelude::*;
use wasmtime_provider::wasmtime;

use crate::builder::{BuildPlan, EngineSource, ModuleSource};
use crate::pre::{protocol_of, PolicyEvaluatorPre};

verus! {

#[verifier::external_type_specification]
#[verifier::external_body]
pub struct ExEngine(wasmtime::Engine);

#[verifier::external_type_specification]
#[verifier::external_body]
pub struct ExModule(wasmtime::Module);

#[verifier::external_type_specification]
#[verifier::external_body]
pub struct ExConfig(wasmtime::Config);

#[verifier::external_type_specification]
#[verifier::external_body]
pub struct ExCache(wasmtime::Cache);

#[verifier::external_type_specification]
#[verifier::external_body]
pub struct ExWasmError(wasmtime::Error);

/// Errors of turning a validated plan into a compiled module.
pub enum CompileError {
    /// The default engine could not be created.
    Engine(String),
    /// The bytecode did not compile.
    Module(String),
    /// The plan reads a file whose contents were not supplied.
    FileNotRead,
}

/// Relies on `wasmtime::Config::new`: a default configuration.
#[verifier::external_body]
fn default_config() -> wasmtime::Config {
    wasmtime::Config::new()
}

/// Relies on `wasmtime::Cache::from_file(None)`: loads the compilation cache
/// settings from the system default path, which may fail.
#[verifier::external_body]
fn load_default_cache() -> Result<wasmtime::Cache, wasmtime::Error> {
    wasmtime::Cache::from_file(None)
}

/// Relies on `wasmtime::Config::cache`: makes the configuration use `cache`.
#[verifier::external_body]
fn use_cache(config: &mut wasmtime::Config, cache: wasmtime::Cache) {
    config.cache(Some(cache));
}

/// Relies on `wasmtime::Engine::new`: an engine for `config`, which may fail.
#[verifier::external_body]
fn new_engine(config: &wasmtime::Config) -> Result<wasmtime::Engine, wasmtime::Error> {
    wasmtime::Engine::new(config)
}

/// Relies on `wasmtime::Module::new`: compiles binary or text bytecode with
/// `engine`, which may fail.
#[verifier::external_body]
fn compile_bytes(engine: &wasmtime::Engine, bytes: &[u8]) -> Result<wasmtime::Module, wasmtime::Error> {
    wasmtime::Module::new(engine, bytes)
}

/// Relies on the `Debug` text of `wasmtime::Error`.
#[verifier::external_body]
fn error_text(e: &wasmtime::Error) -> String {
    format!("{:?}", e)
}

/// The engine a plan asks for: the given one as it is, or a new default
/// one, with on-disk compilation caching when asked.
pub fn prepare_engine(source: EngineSource<wasmtime::Engine>) -> (r: Result<wasmtime::Engine, CompileError>)
    ensures
        source matches EngineSource::Given(e) ==> r matches Ok(x) && x == e,
        source is Default ==> (r is Ok || r matches Err(CompileError::Engine(_))),
{
    match source {
        EngineSource::Given(e) => Ok(e),
        EngineSource::Default { cache } => {
            let mut config = default_config();
            if cache {
                match load_default_cache() {
                    Ok(c) => use_cache(&mut config, c),
                    Err(e) => {
                        return Err(CompileError::Engine(error_text(&e)));
                    },
                }
            }
            match new_engine(&config) {
                Ok(e) => Ok(e),
                Err(e) => Err(CompileError::Engine(error_text(&e))),
            }
        },
    }
}

/// Compiles a validated plan once into a pre-built evaluator. When the
/// plan's source is a file, `file_contents` holds what the caller read
/// from it. An already compiled module is used as it is, with no
/// compilation.
pub fn build_pre_from_plan(
    plan: BuildPlan<wasmtime::Engine, wasmtime::Module>,
    file_contents: Option<Vec<u8>>,
) -> (r: Result<PolicyEvaluatorPre<wasmtime::Engine, wasmtime::Module>, CompileError>)
    ensures
        plan.source is File && file_contents is None ==> r matches Err(CompileError::FileNotRead),
        r matches Ok(p) ==> {
            &&& p.policy_id@ == plan.policy_id@
            &&& p.execution_mode == plan.execution_mode
            &&& p.protocol == protocol_of(plan.execution_mode)
            &&& (plan.engine matches EngineSource::Given(e) ==> p.engine == e)
            &&& (plan.source matches ModuleSource::Compiled(m) ==> p.module == m)
        },
        (plan.engine is Given && plan.source is Compiled) ==> r is Ok,
        r matches Err(CompileError::Engine(_)) ==> plan.engine is Default,
        r matches Err(CompileError::FileNotRead) ==> plan.source is File && file_contents is None,
        r matches Err(CompileError::Module(_)) ==> !(plan.source is Compiled),
{
    if let ModuleSource::File(_) = &plan.source {
        if file_contents.is_none() {
            return Err(CompileError::FileNotRead);
        }
    }
    let engine = prepare_engine(plan.engine)?;
    let module = match plan.source {
        ModuleSource::Compiled(m) => m,
        ModuleSource::Contents(bytes) => match compile_bytes(&engine, bytes.as_slice()) {
            Ok(m) => m,
            Err(e) => {
                return Err(CompileError::Module(error_text(&e)));
            },
        },
        ModuleSource::File(_) => match file_contents {
            Some(bytes) => match compile_bytes(&engine, bytes.as_slice()) {
                Ok(m) => m,
                Err(e) => {
                    return Err(CompileError::Module(error_text(&e)));
                },
            },
            None => {
                return Err(CompileError::FileNotRead);
            },
        },
    };
    Ok(PolicyEvaluatorPre::new(engine, module, plan.policy_id.as_str(), plan.execution_mode))
}

} // verus!
