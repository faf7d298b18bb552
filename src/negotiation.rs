use vstd::prelude::*;
use vstd::string::StringExecFns;
use crate::model::{Constraint, ResolutionError, SubscriptionInfo};

verus! {

/// The constraint type that bounds how often updates are delivered.
pub const FREQUENCY_MS: &'static str = "frequency_ms";

/// The constraint that asks for updates every `value` milliseconds.
pub fn frequency_constraint(value: String) -> (c: Constraint)
    ensures
        c.constraint_type@ == FREQUENCY_MS@,
        c.value == value,
{
    Constraint { constraint_type: String::from_str(FREQUENCY_MS), value }
}

/// Checks the managed-subscribe answer: a broker address and a topic are both
/// needed, and either one empty is `NegotiationFailed`.
pub fn check_subscription_info(uri: String, context: String) -> (r: Result<
    SubscriptionInfo,
    ResolutionError,
>)
    ensures
        (uri@.len() == 0 || context@.len() == 0) ==> r == Err::<
            SubscriptionInfo,
            ResolutionError,
        >(ResolutionError::NegotiationFailed),
        (uri@.len() > 0 && context@.len() > 0) ==> (r matches Ok(info) && info.uri == uri
            && info.context == context),
{
    if uri.as_str().unicode_len() == 0 || context.as_str().unicode_len() == 0 {
        Err(ResolutionError::NegotiationFailed)
    } else {
        Ok(SubscriptionInfo { uri, context })
    }
}

} // verus!
