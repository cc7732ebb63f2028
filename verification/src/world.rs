//! The store of the objects of a game, kept in a `hecs::World`.
//!
//! What the store holds is stated over [`world_objects`]: for each object in
//! it, what is attached to the object.

use crate::components::{Component, Components, Object, ObjectId};
use crate::player::Zone;
use hecs::{Entity, EntityBuilder, With, World};
use vstd::prelude::*;

verus! {

#[verifier::external_type_specification]
#[verifier::external_body]
pub struct ExWorld(hecs::World);

#[verifier::external_type_specification]
#[verifier::external_body]
pub struct ExEntityBuilder(hecs::EntityBuilder);

/// The live entities of a world, each by the bits of its handle, with what
/// is attached to it: for each component type of this library, the value of
/// that type that the entity has, if it has one.
pub uninterp spec fn world_objects(world: World) -> Map<ObjectId, Components>;

/// The components that were added to a builder since it was made or last
/// built.
pub uninterp spec fn builder_components(builder: EntityBuilder) -> Components;

/// `World::new`: a world without entities.
#[verifier::external_body]
pub(crate) fn world_new() -> (world: World)
    ensures
        world_objects(world).dom() == Set::<ObjectId>::empty(),
{
    World::new()
}

/// `World::len`: the number of live entities.
#[verifier::external_body]
pub(crate) fn world_len(world: &World) -> (len: u32)
    ensures
        len == world_objects(*world).dom().len(),
{
    world.len()
}

/// `EntityBuilder::new`: a builder without components.
#[verifier::external_body]
pub(crate) fn builder_new() -> (builder: EntityBuilder)
    ensures
        builder_components(builder) == Components::none(),
{
    EntityBuilder::new()
}

/// `EntityBuilder::add`: the component is added to the builder, in place of
/// one of the same type that was added before; what else was added stays.
#[verifier::external_body]
pub(crate) fn builder_add<T: Component + Send + Sync + 'static>(
    builder: &mut EntityBuilder,
    component: T,
)
    ensures
        builder_components(*final(builder)) == T::attach(
            builder_components(*old(builder)),
            component@,
        ),
{
    builder.add(component);
}

/// `World::spawn` on what `EntityBuilder::build` gives: a new entity with
/// the components of the builder. Its handle is that of no entity that was
/// alive before, the other entities stay as they were, and the builder is
/// left without components. `spawn` fails on a world that is full, which a
/// world with fewer than `u32::MAX` entities is not.
#[verifier::external_body]
pub(crate) fn world_spawn(world: &mut World, builder: &mut EntityBuilder) -> (id: ObjectId)
    requires
        world_objects(*old(world)).dom().finite(),
        world_objects(*old(world)).dom().len() < u32::MAX,
    ensures
        !world_objects(*old(world)).dom().contains(id),
        world_objects(*final(world)) == world_objects(*old(world)).insert(
            id,
            builder_components(*old(builder)),
        ),
        builder_components(*final(builder)) == Components::none(),
{
    ObjectId(world.spawn(builder.build()).to_bits().get())
}

/// `Entity::from_bits` and `World::get`: a copy of the component of type
/// `T` of the entity with the given handle; `None` where no live entity
/// has that handle or the entity has no such component.
#[verifier::external_body]
pub(crate) fn world_get<T: Component + Clone + Send + Sync + 'static>(
    world: &World,
    id: ObjectId,
) -> (component: Option<T>)
    ensures
        match component {
            Some(value) => world_objects(*world).dom().contains(id) && T::attached(
                world_objects(*world)[id],
            ) == Some(value@),
            None => !world_objects(*world).dom().contains(id) || T::attached(
                world_objects(*world)[id],
            ) is None,
        },
{
    let entity = Entity::from_bits(id.0)?;
    let component = world.get::<&T>(entity).ok()?;
    Some((*component).clone())
}

/// `World::query` and `QueryBorrow::iter`: every live entity that is marked
/// as an object and has a zone, once, with its zone, in no stated order.
#[verifier::external_body]
pub(crate) fn world_zones(world: &World) -> (found: Vec<(ObjectId, Zone)>)
    ensures
        forall|i: int|
            0 <= i < found@.len() ==> {
                &&& world_objects(*world).dom().contains((#[trigger] found@[i]).0)
                &&& world_objects(*world)[found@[i].0].object is Some
                &&& world_objects(*world)[found@[i].0].zone == Some(found@[i].1)
            },
        forall|i: int, j: int|
            0 <= i < j < found@.len() ==> (#[trigger] found@[i]).0 != (#[trigger] found@[j]).0,
        forall|id: ObjectId|
            world_objects(*world).dom().contains(id) && world_objects(*world)[id].object is Some
                && world_objects(*world)[id].zone is Some ==> exists|i: int|
                0 <= i < found@.len() && (#[trigger] found@[i]).0 == id,
{
    let mut query = world.query::<With<(Entity, &Zone), &Object>>();
    query.iter().map(|(entity, zone)| (ObjectId(entity.to_bits().get()), *zone)).collect()
}

} // verus!
