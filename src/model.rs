use vstd::prelude::*;

verus! {

/// Identifying metadata of a digital twin model document.
pub struct Metadata {
    pub model: String,
}

/// What the service registry answered for a lookup: where the service lives and
/// how it is reached.
pub struct DiscoveredService {
    pub uri: String,
    pub communication_kind: String,
    pub communication_reference: String,
}

/// One advertised access point of a digital twin entity.
pub struct EndpointInfo {
    pub protocol: String,
    pub operations: Vec<String>,
    pub uri: String,
    pub context: String,
}

/// The directory's record of an entity, with all of its access points.
pub struct EntityAccessInfo {
    pub name: String,
    pub id: String,
    pub description: String,
    pub endpoint_info_list: Vec<EndpointInfo>,
}

/// A single named requirement on a managed subscription.
pub struct Constraint {
    pub constraint_type: String,
    pub value: String,
}

/// Where and under which topic a managed subscription is delivered.
pub struct SubscriptionInfo {
    pub uri: String,
    pub context: String,
}

/// Failures of the resolution pipeline before streaming begins.
#[derive(Debug, Clone, Copy, PartialEq, Eq, Structural)]
pub enum ResolutionError {
    /// The registry has no service under the requested name.
    NotFound,
    /// The registry's service differs in both transport kind and reference.
    Mismatch,
    /// The directory has no record of the entity.
    NoEntity,
    /// No access point of the entity offers the protocol and operations asked for.
    NoMatchingEndpoint,
    /// Entity resolution failed on every attempt the retry policy allows.
    ResolutionExhausted,
    /// The managed-subscribe call failed or its answer lacked a broker or topic.
    NegotiationFailed,
}

} // verus!
