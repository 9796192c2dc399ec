//! What the crate takes from the entity-component store: the store itself,
//! the identifiers of its components, and the Rust type behind an identifier.

use bevy_ecs::component::{ComponentId, ComponentInfo};
use bevy_ecs::world::World;
use std::any::TypeId;
use vstd::prelude::*;

verus! {

/// `bevy_ecs::world::World`, the data store. Nothing inside it is visible here.
#[verifier::external_type_specification]
#[verifier::external_body]
pub struct ExWorld(bevy_ecs::world::World);

/// `bevy_ecs::component::ComponentId`, which identifies a component or
/// resource within one world.
#[verifier::external_type_specification]
#[verifier::external_body]
pub struct ExComponentId(bevy_ecs::component::ComponentId);

/// `std::any::TypeId`, which identifies a Rust type.
#[verifier::external_type_specification]
#[verifier::external_body]
pub struct ExTypeId(std::any::TypeId);

/// The Rust types that `world` has on record: each component that the world
/// knows together with a Rust type, mapped to the identifier of that type.
pub uninterp spec fn component_types(world: World) -> Map<ComponentId, TypeId>;

/// The Rust type that `world` has on record for the component `id`: `None`
/// where the world knows no such component, or knows it without a Rust type.
pub open spec fn declared_type(world: World, id: ComponentId) -> Option<TypeId> {
    component_types(world).get(id)
}

/// Looks the component `id` up in `world` with `World::components` and
/// `Components::get_info`, and reads the entry found with
/// `ComponentInfo::type_id`. The lookup reads the world and nothing else, so
/// its answer is the entry of `component_types(*world)` for `id`, if there
/// is one.
#[verifier::external_body]
pub(crate) fn component_type_id(world: &World, id: ComponentId) -> (resolved: Option<TypeId>)
    ensures
        resolved == component_types(*world).get(id),
{
    world.components().get_info(id).and_then(ComponentInfo::type_id)
}

/// `==` of `std::any::TypeId`: two identifiers compare equal exactly when
/// they are the same identifier.
#[verifier::external_body]
pub(crate) fn same_type_id(left: &TypeId, right: &TypeId) -> (same: bool)
    ensures
        same == (*left == *right),
{
    left == right
}

} // verus!
