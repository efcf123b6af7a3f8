use vstd::prelude::*;

verus! {

/// The sandbox protocol a policy module speaks.
#[derive(PartialEq, Eq, Structural, Clone, Copy, Debug)]
pub enum PolicyExecutionMode {
    /// Guest-callback protocol: the guest calls host capabilities through a
    /// single synchronous entrypoint.
    KubewardenWapc,
    /// Constraint-language protocol, plain flavour.
    Opa,
    /// Constraint-language protocol, gatekeeper flavour.
    OpaGatekeeper,
}

/// The two flavours of the constraint-language protocol.
#[derive(PartialEq, Eq, Structural, Clone, Copy, Debug)]
pub enum RegoPolicyExecutionMode {
    Opa,
    Gatekeeper,
}

/// Errors raised while configuring or building an evaluator.
#[derive(PartialEq, Eq, Structural, Clone, Copy, Debug)]
pub enum BuildError {
    /// Both a file path and in-memory bytes were given.
    FileAndContents,
    /// Both a file path and a compiled module were given.
    FileAndModule,
    /// Both in-memory bytes and a compiled module were given.
    ContentsAndModule,
    /// No bytecode source was given.
    NoSource,
    /// A compiled module was given without the engine that produced it.
    ModuleWithoutEngine,
    /// No execution mode was given.
    NoExecutionMode,
    /// The execution mode has no constraint-language flavour.
    NotConstraintLanguage,
    /// A guest-callback evaluator has no instance identifier.
    MissingInstanceId,
}

impl PolicyExecutionMode {
    /// Whether this mode uses the guest-callback protocol.
    pub open spec fn spec_is_guest_callback(self) -> bool {
        self == PolicyExecutionMode::KubewardenWapc
    }

    /// Whether this mode uses the guest-callback protocol, the only one
    /// with an asynchronous capability path.
    pub fn is_guest_callback(&self) -> (r: bool)
        ensures
            r == self.spec_is_guest_callback(),
    {
        match self {
            PolicyExecutionMode::KubewardenWapc => true,
            _ => false,
        }
    }
}

/// The constraint-language flavour of a mode, if it has one.
pub open spec fn rego_flavour(mode: PolicyExecutionMode) -> Option<RegoPolicyExecutionMode> {
    match mode {
        PolicyExecutionMode::KubewardenWapc => None,
        PolicyExecutionMode::Opa => Some(RegoPolicyExecutionMode::Opa),
        PolicyExecutionMode::OpaGatekeeper => Some(RegoPolicyExecutionMode::Gatekeeper),
    }
}

impl RegoPolicyExecutionMode {
    /// Converts an execution mode to its constraint-language flavour;
    /// the guest-callback mode has none.
    pub fn from_execution_mode(mode: PolicyExecutionMode) -> (r: Result<RegoPolicyExecutionMode, BuildError>)
        ensures
            rego_flavour(mode) matches Some(f) ==> r == Ok::<RegoPolicyExecutionMode, BuildError>(f),
            rego_flavour(mode) is None ==> r == Err::<RegoPolicyExecutionMode, BuildError>(BuildError::NotConstraintLanguage),
    {
        match mode {
            PolicyExecutionMode::KubewardenWapc => Err(BuildError::NotConstraintLanguage),
            PolicyExecutionMode::Opa => Ok(RegoPolicyExecutionMode::Opa),
            PolicyExecutionMode::OpaGatekeeper => Ok(RegoPolicyExecutionMode::Gatekeeper),
        }
    }
}

} // verus!
