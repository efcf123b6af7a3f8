use vstd::prelude::*;

use crate::mode::{BuildError, PolicyExecutionMode};

verus! {

/// Where the engine used to compile and run a module comes from.
pub enum EngineSource<E> {
    /// An engine supplied by the caller, shared with other policies.
    Given(E),
    /// A default engine to be created, optionally with on-disk compilation
    /// caching.
    Default { cache: bool },
}

/// The one bytecode source of a module.
pub enum ModuleSource<M> {
    /// A file to read and compile.
    File(String),
    /// Bytes to compile.
    Contents(Vec<u8>),
    /// An already compiled module.
    Compiled(M),
}

/// What a builder has validated: everything needed to compile the module
/// once, before any compilation has happened.
pub struct BuildPlan<E, M> {
    pub policy_id: String,
    pub engine: EngineSource<E>,
    pub source: ModuleSource<M>,
    pub execution_mode: PolicyExecutionMode,
}

/// Collects the options of a policy evaluator. `E` is the compilation
/// engine, `M` a compiled module, `S` a settings document and `C` the
/// channel towards the callback bridge.
pub struct PolicyEvaluatorBuilder<E, M, S, C> {
    pub engine: Option<E>,
    pub policy_id: String,
    pub policy_file: Option<String>,
    pub policy_contents: Option<Vec<u8>>,
    pub policy_module: Option<M>,
    pub execution_mode: Option<PolicyExecutionMode>,
    pub settings: Option<S>,
    pub callback_channel: Option<C>,
    pub wasmtime_cache: bool,
}

/// The configuration error of a builder, if any, in the order the checks
/// are made.
pub open spec fn config_error<E, M, S, C>(b: PolicyEvaluatorBuilder<E, M, S, C>) -> Option<BuildError> {
    if b.policy_file is Some && b.policy_contents is Some {
        Some(BuildError::FileAndContents)
    } else if b.policy_file is Some && b.policy_module is Some {
        Some(BuildError::FileAndModule)
    } else if b.policy_contents is Some && b.policy_module is Some {
        Some(BuildError::ContentsAndModule)
    } else if b.policy_file is None && b.policy_contents is None && b.policy_module is None {
        Some(BuildError::NoSource)
    } else if b.engine is None && b.policy_module is Some {
        Some(BuildError::ModuleWithoutEngine)
    } else if b.execution_mode is None {
        Some(BuildError::NoExecutionMode)
    } else {
        None
    }
}

/// The plan a well-configured builder yields.
pub open spec fn plan_of<E, M, S, C>(b: PolicyEvaluatorBuilder<E, M, S, C>) -> BuildPlan<E, M> {
    BuildPlan {
        policy_id: b.policy_id,
        engine: match b.engine {
            Some(e) => EngineSource::Given(e),
            None => EngineSource::Default { cache: b.wasmtime_cache },
        },
        source: if b.policy_module is Some {
            ModuleSource::Compiled(b.policy_module->Some_0)
        } else if b.policy_file is Some {
            ModuleSource::File(b.policy_file->Some_0)
        } else {
            ModuleSource::Contents(b.policy_contents->Some_0)
        },
        execution_mode: b.execution_mode->Some_0,
    }
}

impl<E, M, S, C> PolicyEvaluatorBuilder<E, M, S, C> {
    /// A builder for the policy `policy_id`, with no other option set.
    pub fn new(policy_id: String) -> (r: Self)
        ensures
            r.policy_id == policy_id,
            r.engine is None,
            r.policy_file is None,
            r.policy_contents is None,
            r.policy_module is None,
            r.execution_mode is None,
            r.settings is None,
            r.callback_channel is None,
            !r.wasmtime_cache,
    {
        PolicyEvaluatorBuilder {
            engine: None,
            policy_id,
            policy_file: None,
            policy_contents: None,
            policy_module: None,
            execution_mode: None,
            settings: None,
            callback_channel: None,
            wasmtime_cache: false,
        }
    }

    /// Uses `engine` to compile and run the module; its settings (caching
    /// and the like) are the caller's.
    pub fn engine(self, engine: E) -> (r: Self)
        ensures
            r == (PolicyEvaluatorBuilder { engine: Some(engine), ..self }),
    {
        PolicyEvaluatorBuilder { engine: Some(engine), ..self }
    }

    /// Reads the bytecode from the file at `path`.
    pub fn policy_file(self, path: &str) -> (r: Self)
        ensures
            r.policy_file matches Some(p) && p@ == path@,
            r == (PolicyEvaluatorBuilder { policy_file: r.policy_file, ..self }),
    {
        PolicyEvaluatorBuilder { policy_file: Some(path.to_string()), ..self }
    }

    /// Compiles the bytecode held in `data`.
    pub fn policy_contents(self, data: &[u8]) -> (r: Self)
        ensures
            r.policy_contents matches Some(c) && c@ == data@,
            r == (PolicyEvaluatorBuilder { policy_contents: r.policy_contents, ..self }),
    {
        PolicyEvaluatorBuilder { policy_contents: Some(vstd::slice::slice_to_vec(data)), ..self }
    }

    /// Uses an already compiled module; the engine that compiled it must
    /// be given too.
    pub fn policy_module(self, module: M) -> (r: Self)
        ensures
            r == (PolicyEvaluatorBuilder { policy_module: Some(module), ..self }),
    {
        PolicyEvaluatorBuilder { policy_module: Some(module), ..self }
    }

    /// Sets the execution mode.
    pub fn execution_mode(self, mode: PolicyExecutionMode) -> (r: Self)
        ensures
            r == (PolicyEvaluatorBuilder { execution_mode: Some(mode), ..self }),
    {
        PolicyEvaluatorBuilder { execution_mode: Some(mode), ..self }
    }

    /// Enables on-disk compilation caching of a default engine.
    pub fn enable_wasmtime_cache(self) -> (r: Self)
        ensures
            r == (PolicyEvaluatorBuilder { wasmtime_cache: true, ..self }),
    {
        PolicyEvaluatorBuilder { wasmtime_cache: true, ..self }
    }

    /// Sets the settings document used at evaluation time.
    pub fn settings(self, s: Option<S>) -> (r: Self)
        ensures
            r == (PolicyEvaluatorBuilder { settings: s, ..self }),
    {
        PolicyEvaluatorBuilder { settings: s, ..self }
    }

    /// Sets the channel towards the callback bridge. Without one, capability
    /// requests of the guest fail at evaluation time.
    pub fn callback_channel(self, channel: C) -> (r: Self)
        ensures
            r == (PolicyEvaluatorBuilder { callback_channel: Some(channel), ..self }),
    {
        PolicyEvaluatorBuilder { callback_channel: Some(channel), ..self }
    }

    /// Checks the options and yields what is to be compiled, with which
    /// engine and mode. Fails with a configuration error, before anything
    /// is compiled, unless exactly one bytecode source and a mode are given,
    /// and a compiled module comes with its engine.
    pub fn build_pre(self) -> (r: Result<BuildPlan<E, M>, BuildError>)
        ensures
            config_error(self) matches Some(e) ==> r == Err::<BuildPlan<E, M>, BuildError>(e),
            config_error(self) is None ==> r == Ok::<BuildPlan<E, M>, BuildError>(plan_of(self)),
    {
        if self.policy_file.is_some() && self.policy_contents.is_some() {
            return Err(BuildError::FileAndContents);
        }
        if self.policy_file.is_some() && self.policy_module.is_some() {
            return Err(BuildError::FileAndModule);
        }
        if self.policy_contents.is_some() && self.policy_module.is_some() {
            return Err(BuildError::ContentsAndModule);
        }
        if self.policy_file.is_none() && self.policy_contents.is_none() && self.policy_module.is_none() {
            return Err(BuildError::NoSource);
        }
        if self.engine.is_none() && self.policy_module.is_some() {
            return Err(BuildError::ModuleWithoutEngine);
        }
        let execution_mode = match self.execution_mode {
            Some(m) => m,
            None => {
                return Err(BuildError::NoExecutionMode);
            },
        };
        let engine = match self.engine {
            Some(e) => EngineSource::Given(e),
            None => EngineSource::Default { cache: self.wasmtime_cache },
        };
        let source = match self.policy_module {
            Some(m) => ModuleSource::Compiled(m),
            None => match self.policy_file {
                Some(f) => ModuleSource::File(f),
                None => match self.policy_contents {
                    Some(c) => ModuleSource::Contents(c),
                    None => {
                        return Err(BuildError::NoSource);
                    },
                },
            },
        };
        Ok(BuildPlan { policy_id: self.policy_id, engine, source, execution_mode })
    }
}

/// A builder given both a bytecode file and bytecode in memory is refused
/// with a configuration error, whatever else it holds.
pub proof fn lemma_file_and_contents_refused<E, M, S, C>(b: PolicyEvaluatorBuilder<E, M, S, C>)
    requires
        b.policy_file is Some,
        b.policy_contents is Some,
    ensures
        config_error(b) == Some(BuildError::FileAndContents),
{
}

/// A builder given a compiled module without an engine is refused with a
/// configuration error.
pub proof fn lemma_module_needs_engine<E, M, S, C>(b: PolicyEvaluatorBuilder<E, M, S, C>)
    requires
        b.policy_module is Some,
        b.engine is None,
    ensures
        config_error(b) is Some,
        b.policy_file is None && b.policy_contents is None ==> config_error(b) == Some(BuildError::ModuleWithoutEngine),
{
}

} // verus!
