//! The selector of a backend kind.

use vstd::prelude::*;

verus! {

/// The backend kind a handle is built for; fixed for the handle's lifetime.
#[derive(Debug, Clone, Copy, PartialEq, Eq, Hash, Structural)]
pub enum ResourceType {
    IBMDirectAccess,
    IBMQiskitRuntimeService,
    PasqalCloud,
}

/// The name under which a resource type is reported.
pub open spec fn kind_label(t: ResourceType) -> Seq<char> {
    match t {
        ResourceType::IBMDirectAccess => "IBMDirectAccess"@,
        ResourceType::IBMQiskitRuntimeService => "IBMQiskitRuntimeService"@,
        ResourceType::PasqalCloud => "PasqalCloud"@,
    }
}

impl ResourceType {
    pub fn name(&self) -> (r: &'static str)
        ensures
            r@ == kind_label(*self),
    {
        match self {
            ResourceType::IBMDirectAccess => "IBMDirectAccess",
            ResourceType::IBMQiskitRuntimeService => "IBMQiskitRuntimeService",
            ResourceType::PasqalCloud => "PasqalCloud",
        }
    }
}

} // verus!
