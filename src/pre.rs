use vstd::prelude::*;

use crate::mode::{rego_flavour, BuildError, PolicyExecutionMode, RegoPolicyExecutionMode};
use crate::registry::{InstanceRegistry, PolicyRecord};

verus! {

/// Entrypoint of a constraint-language module that is evaluated: always
/// the first declared rule set.
pub const CONSTRAINT_ENTRYPOINT: i32 = 0;

/// Mode-specific state prepared once, before any instantiation.
#[derive(PartialEq, Eq, Structural, Clone, Copy, Debug)]
pub enum ProtocolPre {
    /// The guest-callback protocol needs the engine and module only.
    GuestCallback,
    /// The constraint-language protocol evaluates a fixed entrypoint under
    /// one of its two flavours.
    ConstraintLanguage { entrypoint_id: i32, execution_mode: RegoPolicyExecutionMode },
}

/// The protocol state that a mode calls for.
pub open spec fn protocol_of(mode: PolicyExecutionMode) -> ProtocolPre {
    match rego_flavour(mode) {
        None => ProtocolPre::GuestCallback,
        Some(f) => ProtocolPre::ConstraintLanguage {
            entrypoint_id: CONSTRAINT_ENTRYPOINT,
            execution_mode: f,
        },
    }
}

/// A compiled module with its engine, from which many evaluators are
/// instantiated without compiling again; copies share the compiled module.
#[derive(Clone)]
pub struct PolicyEvaluatorPre<E, M> {
    pub policy_id: String,
    pub execution_mode: PolicyExecutionMode,
    pub engine: E,
    pub module: M,
    pub protocol: ProtocolPre,
}

/// One evaluation session of a policy: its record, its mode, the compiled
/// module to instantiate, its settings and its channel to the bridge.
pub struct PolicyEvaluator<E, M, S, C> {
    pub policy: PolicyRecord,
    pub execution_mode: PolicyExecutionMode,
    pub engine: E,
    pub module: M,
    pub protocol: ProtocolPre,
    pub settings: S,
    pub callback_channel: Option<C>,
}

/// The instance identifier a record keeps: only the guest-callback
/// protocol has one.
pub open spec fn recorded_id(mode: PolicyExecutionMode, instance_id: Option<u64>) -> Option<u64> {
    if mode.spec_is_guest_callback() {
        instance_id
    } else {
        None
    }
}

/// What registering a record for a mode does to the registry.
pub open spec fn registered(
    before: Map<u64, PolicyRecord>,
    record: PolicyRecord,
    mode: PolicyExecutionMode,
) -> Map<u64, PolicyRecord> {
    if mode.spec_is_guest_callback() {
        before.insert(record.instance_id->Some_0, record)
    } else {
        before
    }
}

impl<E, M> PolicyEvaluatorPre<E, M> {
    /// Prepares the mode-specific state of a compiled module.
    pub fn new(engine: E, module: M, policy_id: &str, execution_mode: PolicyExecutionMode) -> (r: Self)
        ensures
            r.policy_id@ == policy_id@,
            r.execution_mode == execution_mode,
            r.engine == engine,
            r.module == module,
            r.protocol == protocol_of(execution_mode),
    {
        let protocol = match RegoPolicyExecutionMode::from_execution_mode(execution_mode) {
            Ok(f) => ProtocolPre::ConstraintLanguage {
                entrypoint_id: CONSTRAINT_ENTRYPOINT,
                execution_mode: f,
            },
            Err(_) => ProtocolPre::GuestCallback,
        };
        PolicyEvaluatorPre { policy_id: policy_id.to_string(), execution_mode, engine, module, protocol }
    }

    /// Creates the evaluator of one session. `instance_id` is the
    /// identifier of the sandbox instance created for it; a guest-callback
    /// evaluator needs one and is registered under it, a constraint-language
    /// evaluator is never registered. Without settings the evaluator gets
    /// the default, empty, settings document.
    pub fn build<S: Default, C>(
        self,
        settings: Option<S>,
        callback_channel: Option<C>,
        instance_id: Option<u64>,
        registry: &mut InstanceRegistry,
    ) -> (r: Result<PolicyEvaluator<E, M, S, C>, BuildError>)
        ensures
            self.execution_mode.spec_is_guest_callback() && instance_id is None
                ==> r is Err && r->Err_0 == BuildError::MissingInstanceId && final(registry)@ == old(registry)@,
            !self.execution_mode.spec_is_guest_callback() || instance_id is Some ==> {
                &&& r is Ok
                &&& r->Ok_0.policy == PolicyRecord { policy_id: self.policy_id, instance_id: recorded_id(self.execution_mode, instance_id) }
                &&& r->Ok_0.execution_mode == self.execution_mode
                &&& r->Ok_0.engine == self.engine
                &&& r->Ok_0.module == self.module
                &&& r->Ok_0.protocol == self.protocol
                &&& (settings matches Some(s) ==> r->Ok_0.settings == s)
                &&& (settings is None ==> call_ensures(S::default, (), r->Ok_0.settings))
                &&& r->Ok_0.callback_channel == callback_channel
                &&& final(registry)@ == registered(old(registry)@, r->Ok_0.policy, self.execution_mode)
            },
    {
        let policy = from_contents_internal(self.policy_id, instance_id, self.execution_mode, registry)?;
        let settings = match settings {
            Some(s) => s,
            None => S::default(),
        };
        Ok(PolicyEvaluator {
            policy,
            execution_mode: self.execution_mode,
            engine: self.engine,
            module: self.module,
            protocol: self.protocol,
            settings,
            callback_channel,
        })
    }
}

/// Makes the record of a policy and, for the guest-callback protocol alone,
/// registers it under its instance identifier, which that protocol needs.
/// Records of the other protocol keep no identifier.
pub fn from_contents_internal(
    id: String,
    instance_id: Option<u64>,
    policy_execution_mode: PolicyExecutionMode,
    registry: &mut InstanceRegistry,
) -> (r: Result<PolicyRecord, BuildError>)
    ensures
        policy_execution_mode.spec_is_guest_callback() && instance_id is None
            ==> r == Err::<PolicyRecord, BuildError>(BuildError::MissingInstanceId)
                && final(registry)@ == old(registry)@,
        !policy_execution_mode.spec_is_guest_callback() || instance_id is Some
            ==> r == Ok::<PolicyRecord, BuildError>(PolicyRecord { policy_id: id, instance_id: recorded_id(policy_execution_mode, instance_id) })
                && final(registry)@ == registered(old(registry)@, r->Ok_0, policy_execution_mode),
{
    if policy_execution_mode.is_guest_callback() {
        match instance_id {
            Some(i) => {
                let policy = PolicyRecord::new(id, Some(i));
                registry.register(i, policy.duplicate());
                Ok(policy)
            },
            None => Err(BuildError::MissingInstanceId),
        }
    } else {
        Ok(PolicyRecord::new(id, None))
    }
}

/// Building a guest-callback evaluator adds exactly one registry entry,
/// under its instance identifier; building a constraint-language evaluator
/// adds none.
pub proof fn lemma_registration(before: Map<u64, PolicyRecord>, record: PolicyRecord, mode: PolicyExecutionMode)
    requires
        mode.spec_is_guest_callback() ==> record.instance_id is Some,
    ensures
        mode.spec_is_guest_callback() ==> {
            let id = record.instance_id->Some_0;
            &&& registered(before, record, mode).dom() == before.dom().insert(id)
            &&& registered(before, record, mode)[id] == record
            &&& forall|k: u64| k != id && #[trigger] before.contains_key(k)
                ==> registered(before, record, mode)[k] == before[k]
            &&& (before.dom().finite() && !before.contains_key(id)
                ==> registered(before, record, mode).len() == before.len() + 1)
        },
        !mode.spec_is_guest_callback() ==> registered(before, record, mode) == before,
{
}

} // verus!
