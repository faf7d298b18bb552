use vstd::prelude::*;
use crate::model::{DiscoveredService, EndpointInfo, EntityAccessInfo, ResolutionError};

verus! {

/// Every member of `sub` occurs (by text) somewhere in `sup`.
pub open spec fn subset_of(sub: Seq<String>, sup: Seq<String>) -> bool {
    forall|i: int| 0 <= i < sub.len() ==> #[trigger] contains_text(sup, sub[i]@)
}

/// Some member of `s` has the text `t`.
pub open spec fn contains_text(s: Seq<String>, t: Seq<char>) -> bool {
    exists|j: int| 0 <= j < s.len() && (#[trigger] s[j])@ == t
}

/// An access point speaks `protocol` and offers every operation in `operations`.
pub open spec fn endpoint_satisfies(
    e: EndpointInfo,
    protocol: Seq<char>,
    operations: Seq<String>,
) -> bool {
    e.protocol@ == protocol && subset_of(operations, e.operations@)
}

/// `i` is the position of the first access point in `list` that satisfies the
/// requirement.
pub open spec fn is_first_match(
    list: Seq<EndpointInfo>,
    protocol: Seq<char>,
    operations: Seq<String>,
    i: int,
) -> bool {
    &&& 0 <= i < list.len()
    &&& endpoint_satisfies(list[i], protocol, operations)
    &&& forall|k: int| 0 <= k < i ==> !endpoint_satisfies(#[trigger] list[k], protocol, operations)
}

/// Whether the service found by the registry is rejected: only when both its
/// transport kind and its transport reference differ from the expected ones.
pub open spec fn service_mismatch(
    s: DiscoveredService,
    kind: Seq<char>,
    reference: Seq<char>,
) -> bool {
    s.communication_kind@ != kind && s.communication_reference@ != reference
}

/// The empty set of required operations is met by any set of operations.
pub proof fn lemma_empty_is_subset(sup: Seq<String>)
    ensures
        subset_of(Seq::empty(), sup),
{
}

/// Whether every string of `subset` also occurs in `superset`.
pub fn is_subset(subset: &[String], superset: &[String]) -> (r: bool)
    ensures
        r == subset_of(subset@, superset@),
{
    let mut i: usize = 0;
    while i < subset.len()
        invariant
            0 <= i <= subset@.len(),
            forall|k: int| 0 <= k < i ==> #[trigger] contains_text(superset@, subset@[k]@),
        decreases subset@.len() - i,
    {
        let mut found = false;
        let mut j: usize = 0;
        while j < superset.len()
            invariant
                0 <= i < subset@.len(),
                0 <= j <= superset@.len(),
                found == exists|m: int| 0 <= m < j && (#[trigger] superset@[m])@ == subset@[i as int]@,
            decreases superset@.len() - j,
        {
            if subset[i] == superset[j] {
                found = true;
            }
            j = j + 1;
        }
        if !found {
            assert(!contains_text(superset@, subset@[i as int]@));
            return false;
        }
        i = i + 1;
    }
    true
}

/// Checks the registry's answer for a lookup and gives the service's address.
///
/// No service is `NotFound`; a service whose transport kind and transport
/// reference both differ from the expected ones is `Mismatch`; any other
/// service is accepted, also one that matches on a single axis.
pub fn check_discovered_service(
    service: Option<DiscoveredService>,
    communication_kind: &str,
    communication_reference: &str,
) -> (r: Result<String, ResolutionError>)
    ensures
        service is None ==> r == Err::<String, ResolutionError>(ResolutionError::NotFound),
        service matches Some(s) ==> {
            if service_mismatch(s, communication_kind@, communication_reference@) {
                r == Err::<String, ResolutionError>(ResolutionError::Mismatch)
            } else {
                r matches Ok(uri) && uri == s.uri
            }
        },
{
    match service {
        None => Err(ResolutionError::NotFound),
        Some(s) => {
            let kind_differs = !str_eq(s.communication_kind.as_str(), communication_kind);
            let reference_differs = !str_eq(
                s.communication_reference.as_str(),
                communication_reference,
            );
            if kind_differs && reference_differs {
                Err(ResolutionError::Mismatch)
            } else {
                Ok(s.uri)
            }
        },
    }
}

/// Whether two strings hold the same characters.
fn str_eq(a: &str, b: &str) -> (r: bool)
    ensures
        r == (a@ == b@),
{
    let a_len = a.unicode_len();
    let b_len = b.unicode_len();
    if a_len != b_len {
        return false;
    }
    let mut i: usize = 0;
    while i < a_len
        invariant
            a_len == a@.len(),
            b_len == b@.len(),
            a_len == b_len,
            0 <= i <= a_len,
            forall|k: int| 0 <= k < i ==> a@[k] == b@[k],
        decreases a_len - i,
    {
        if a.get_char(i) != b.get_char(i) {
            return false;
        }
        i = i + 1;
    }
    assert(a@ =~= b@);
    true
}

/// Selects the access point of an entity that the consumer will use: the first,
/// in the directory's order, that speaks `protocol` and offers every operation
/// of `operations`.
///
/// No record is `NoEntity`; a record without such an access point is
/// `NoMatchingEndpoint`.
pub fn select_endpoint(
    entity: Option<EntityAccessInfo>,
    protocol: &str,
    operations: &[String],
) -> (r: Result<EndpointInfo, ResolutionError>)
    ensures
        entity is None ==> r == Err::<EndpointInfo, ResolutionError>(ResolutionError::NoEntity),
        entity matches Some(e) ==> {
            let list = e.endpoint_info_list@;
            match r {
                Ok(ep) => exists|i: int|
                    is_first_match(list, protocol@, operations@, i) && list[i] == ep,
                Err(err) => err == ResolutionError::NoMatchingEndpoint && forall|i: int|
                    0 <= i < list.len() ==> !endpoint_satisfies(
                        #[trigger] list[i],
                        protocol@,
                        operations@,
                    ),
            }
        },
{
    match entity {
        None => Err(ResolutionError::NoEntity),
        Some(e) => {
            let mut list = e.endpoint_info_list;
            let ghost listed = list@;
            let n = list.len();
            let mut i: usize = 0;
            while i < n
                invariant
                    entity matches Some(e0) && e0.endpoint_info_list@ == listed,
                    n == list@.len(),
                    list@ == listed,
                    0 <= i <= n,
                    forall|k: int| 0 <= k < i ==> !endpoint_satisfies(#[trigger] listed[k], protocol@, operations@),
                decreases n - i,
            {
                let ok = str_eq(list[i].protocol.as_str(), protocol)
                    && is_subset(operations, list[i].operations.as_slice());
                if ok {
                    let ep = list.swap_remove(i);
                    assert(is_first_match(listed, protocol@, operations@, i as int));
                    return Ok(ep);
                }
                i = i + 1;
            }
            Err(ResolutionError::NoMatchingEndpoint)
        },
    }
}

} // verus!
