//! Identifier assignment for extensions and methods.
//!
//! An identifier is the declared override when one is present — an
//! explicit small integer taken as is, or a string that is itself
//! hashed — and otherwise the top sixteen bits of the hash of the
//! declared name. Extension and method identifiers combine into the one
//! 32-bit composite identifier carried on the wire.

use vstd::prelude::*;
use crate::hash::{into_u16, spec_into_u16};

verus! {

/// A declared identifier override: an explicit integer, or a name that
/// stands in for the declared one and is hashed in its place.
#[derive(Debug)]
pub enum IdOverride {
    Numeric(u16),
    Named(String),
}

/// The identifier assignment rule: the override when present (a named
/// override is hashed), else the hash-derived identifier of the name.
pub open spec fn spec_assign_id(name: Seq<char>, ov: Option<IdOverride>) -> u16 {
    match ov {
        Some(IdOverride::Numeric(n)) => n,
        Some(IdOverride::Named(s)) => spec_into_u16(s@),
        None => spec_into_u16(name),
    }
}

/// Assign the identifier of a declared name, honouring an override.
/// Assignment cannot fail; the same declaration always yields the same
/// identifier.
pub fn assign_id(name: &str, ov: &Option<IdOverride>) -> (id: u16)
    ensures
        id == spec_assign_id(name@, *ov),
{
    match ov {
        Some(IdOverride::Numeric(n)) => *n,
        Some(IdOverride::Named(s)) => into_u16(s.as_str()),
        None => into_u16(name),
    }
}

/// The composite call identifier: extension identifier in the high
/// sixteen bits, method identifier in the low sixteen.
pub open spec fn spec_composite_id(ext_id: u16, method_id: u16) -> u32 {
    (((ext_id as u32) << 16) | (method_id as u32)) as u32
}

/// Combine an extension and a method identifier into the composite
/// identifier carried on the wire.
pub fn composite_id(ext_id: u16, method_id: u16) -> (r: u32)
    ensures
        r == spec_composite_id(ext_id, method_id),
{
    ((ext_id as u32) << 16) | (method_id as u32)
}

/// The extension half of a composite identifier.
pub fn split_ext_id(composite: u32) -> (r: u16)
    ensures
        forall|e: u16, m: u16| composite == spec_composite_id(e, m) ==> r == e,
{
    let r = (composite >> 16) as u16;
    proof {
        assert forall|e: u16, m: u16| composite == spec_composite_id(e, m) implies r == e by {
            assert(composite == ((e as u32) << 16 | (m as u32)) ==> (composite >> 16) as u16
                == e) by (bit_vector);
        }
    }
    r
}

/// The method half of a composite identifier.
pub fn split_method_id(composite: u32) -> (r: u16)
    ensures
        forall|e: u16, m: u16| composite == spec_composite_id(e, m) ==> r == m,
{
    let r = (composite & 0xFFFF) as u16;
    proof {
        assert forall|e: u16, m: u16| composite == spec_composite_id(e, m) implies r == m by {
            assert(composite == ((e as u32) << 16 | (m as u32)) ==> (composite & 0xFFFF) as u16
                == m) by (bit_vector);
        }
    }
    r
}

/// The identifier lookup surface: given an extension and a method
/// declaration known at build time, the same identifier pair and
/// composite identifier the dispatcher will compute.
pub fn lookup_ids(
    extension_name: &str,
    extension_override: &Option<IdOverride>,
    method_name: &str,
    method_override: &Option<IdOverride>,
) -> (r: (u16, u16, u32))
    ensures
        r.0 == spec_assign_id(extension_name@, *extension_override),
        r.1 == spec_assign_id(method_name@, *method_override),
        r.2 == spec_composite_id(r.0, r.1),
{
    let ext_id = assign_id(extension_name, extension_override);
    let method_id = assign_id(method_name, method_override);
    (ext_id, method_id, composite_id(ext_id, method_id))
}

/// Identifier assignment is idempotent: two runs of the assignment rule
/// on one declaration give one identifier.
pub proof fn lemma_assignment_idempotent(
    name: Seq<char>,
    ov: Option<IdOverride>,
    first: u16,
    second: u16,
)
    requires
        first == spec_assign_id(name, ov),
        second == spec_assign_id(name, ov),
    ensures
        first == second,
{
}

/// The composite identifier is injective: equal composites come from
/// equal extension and method identifiers, so distinct methods of one
/// extension, or methods of distinct extensions, never collide on the
/// wire.
pub proof fn lemma_composite_id_injective(e1: u16, m1: u16, e2: u16, m2: u16)
    requires
        spec_composite_id(e1, m1) == spec_composite_id(e2, m2),
    ensures
        e1 == e2,
        m1 == m2,
{
    assert(((e1 as u32) << 16 | (m1 as u32)) == ((e2 as u32) << 16 | (m2 as u32)) ==> e1 == e2
        && m1 == m2) by (bit_vector);
}

} // verus!
