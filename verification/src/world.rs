//! The entity store.
//!
//! Entity/component storage is an external collaborator of the runtime, not
//! part of it: the scheduler hands every system a mutable reference to the
//! store, and what systems do with it is their own business. The store is
//! therefore held opaquely — a thin owned wrapper around `hecs::World` whose
//! operations are taken on trust from that crate — and no contract here
//! models its contents.

use vstd::prelude::*;

verus! {

#[verifier::external_type_specification]
#[verifier::external_body]
pub struct ExHecsWorld(hecs::World);

#[verifier::external_type_specification]
#[verifier::external_body]
pub struct ExHecsEntity(hecs::Entity);

/// Marker for types that can be attached to an entity.
pub trait Component: Send + Sync + 'static {

}

impl<T: Send + Sync + 'static> Component for T {

}

/// A handle naming one entity of the store.
#[derive(Debug, Clone, Copy, PartialEq, Eq, Hash)]
pub struct EntityId {
    /// The `hecs` entity id this handle stands for.
    pub id: hecs::Entity,
}

/// The entity store every system receives next to the resource registry.
pub struct EntityStore {
    /// The underlying `hecs` world. Exposed so that platform or rendering
    /// code outside the runtime can run queries the runtime itself never
    /// needs.
    pub store: hecs::World,
}

impl EntityStore {
    /// Creates an empty store. Relies on `hecs::World::new`.
    #[verifier::external_body]
    pub fn new() -> EntityStore {
        EntityStore { store: hecs::World::new() }
    }

    /// Creates an entity holding `component`. Relies on `hecs::World::spawn`.
    #[verifier::external_body]
    pub fn spawn<T: Component>(&mut self, component: T) -> EntityId {
        EntityId { id: self.store.spawn((component,)) }
    }

    /// Destroys `entity`; `false` if it did not exist. Relies on
    /// `hecs::World::despawn`.
    #[verifier::external_body]
    pub fn despawn(&mut self, entity: EntityId) -> bool {
        self.store.despawn(entity.id).is_ok()
    }

    /// Attaches `component` to `entity`, replacing a component of the same
    /// type; `false` if the entity did not exist. Relies on
    /// `hecs::World::insert_one`.
    #[verifier::external_body]
    pub fn insert<T: Component>(&mut self, entity: EntityId, component: T) -> bool {
        self.store.insert_one(entity.id, component).is_ok()
    }

    /// Detaches and returns `entity`'s component of type `T`, if the entity
    /// exists and has one. Relies on `hecs::World::remove_one`.
    #[verifier::external_body]
    pub fn remove<T: Component>(&mut self, entity: EntityId) -> Option<T> {
        self.store.remove_one::<T>(entity.id).ok()
    }

    /// Whether `entity` still exists. Relies on `hecs::World::contains`.
    #[verifier::external_body]
    pub fn contains(&self, entity: EntityId) -> bool {
        self.store.contains(entity.id)
    }
}

} // verus!
