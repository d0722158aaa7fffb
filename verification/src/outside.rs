//! Outside types that the part file logic carries through without looking inside.
use vstd::prelude::*;

verus! {

/// A point of the modeling kernel (`cgmath::Point3`).
#[verifier::external_type_specification]
#[verifier::external_body]
#[verifier::reject_recursive_types(S)]
pub struct ExPoint3<S>(cgmath::Point3<S>);

/// The curve geometry of the modeling kernel.
#[verifier::external_type_specification]
#[verifier::external_body]
pub struct ExCurve(truck_modeling::Curve);

/// The surface geometry of the modeling kernel.
#[verifier::external_type_specification]
#[verifier::external_body]
pub struct ExSurface(truck_modeling::Surface);

/// A boundary-represented solid of the topology kernel.
#[verifier::external_type_specification]
#[verifier::external_body]
#[verifier::reject_recursive_types(P)]
#[verifier::reject_recursive_types(C)]
#[verifier::reject_recursive_types(S)]
pub struct ExSolid<P, C, S>(truck_topology::Solid<P, C, S>);

/// The plain, serializable form of a solid.
#[verifier::external_type_specification]
#[verifier::external_body]
#[verifier::reject_recursive_types(P)]
#[verifier::reject_recursive_types(C)]
#[verifier::reject_recursive_types(S)]
pub struct ExCompressedSolid<P, C, S>(truck_topology::compress::CompressedSolid<P, C, S>);

/// The error that the topology kernel reports when a compressed solid is not a valid solid.
#[verifier::external_type_specification]
#[verifier::external_body]
pub struct ExTopologyError(truck_topology::errors::Error);

/// The error of the JSON library.
#[verifier::external_type_specification]
#[verifier::external_body]
pub struct ExJsonError(serde_json::Error);

} // verus!
