use vstd::prelude::*;
use std::collections::HashMap;

verus! {

broadcast use vstd::std_specs::hash::group_hash_axioms;

/// Metadata of a running guest-callback policy instance.
#[derive(Debug)]
pub struct PolicyRecord {
    pub policy_id: String,
    pub instance_id: Option<u64>,
}

impl PolicyRecord {
    /// A record for `policy_id`, running as `instance_id` if it has one.
    pub fn new(policy_id: String, instance_id: Option<u64>) -> (r: PolicyRecord)
        ensures
            r.policy_id == policy_id,
            r.instance_id == instance_id,
    {
        PolicyRecord { policy_id, instance_id }
    }

    /// A copy of this record.
    pub fn duplicate(&self) -> (r: PolicyRecord)
        ensures
            r == *self,
    {
        PolicyRecord { policy_id: self.policy_id.clone(), instance_id: self.instance_id }
    }
}

/// Maps the identifier of a running sandbox instance to the policy it runs,
/// so that a handle-less callback can find out which policy is calling.
/// Entries live as long as the registry: identifiers are not reused.
pub struct InstanceRegistry {
    records: HashMap<u64, PolicyRecord>,
}

impl View for InstanceRegistry {
    type V = Map<u64, PolicyRecord>;

    closed spec fn view(&self) -> Map<u64, PolicyRecord> {
        self.records@
    }
}

impl InstanceRegistry {
    /// An empty registry.
    pub fn new() -> (r: InstanceRegistry)
        ensures
            r@ == Map::<u64, PolicyRecord>::empty(),
    {
        InstanceRegistry { records: HashMap::new() }
    }

    /// Records that `instance_id` runs `record`.
    pub fn register(&mut self, instance_id: u64, record: PolicyRecord)
        ensures
            final(self)@ == old(self)@.insert(instance_id, record),
    {
        self.records.insert(instance_id, record);
    }

    /// The record of `instance_id`, if it was registered.
    pub fn lookup(&self, instance_id: u64) -> (r: Option<PolicyRecord>)
        ensures
            self@.contains_key(instance_id) ==> r == Some(self@[instance_id]),
            !self@.contains_key(instance_id) ==> r is None,
    {
        match self.records.get(&instance_id) {
            Some(rec) => Some(rec.duplicate()),
            None => None,
        }
    }

    /// The number of registered instances.
    pub fn len(&self) -> (r: usize)
        ensures
            r as nat == self@.len(),
    {
        self.records.len()
    }
}

} // verus!
