//! Rules that choose which data-access conflicts are reported.

use crate::ecs::{component_type_id, declared_type, same_type_id};
use bevy_ecs::component::ComponentId;
use bevy_ecs::world::World;
use std::any::TypeId;
use vstd::prelude::*;
use vstd::slice::slice_to_vec;

verus! {

/// A rule that decides whether the conflict between two systems is reported.
///
/// A conflict is the pair of systems, given by their names, and the
/// components that both access. The world is there to be read: it tells
/// which Rust type stands behind a component. `accepts` is a function of
/// these values alone. What a rule holds does not change once it is made,
/// and threads may share it.
pub trait AmbiguityPredicate: Send + Sync {
    /// Whether the rule reports the conflict over `conflicts` between the
    /// systems called `first` and `second`.
    spec fn accepts(
        &self,
        first: Seq<char>,
        second: Seq<char>,
        conflicts: Seq<ComponentId>,
        world: World,
    ) -> bool;

    fn test(&self, first: &str, second: &str, conflicts: &[ComponentId], world: &World) -> (reported: bool)
        ensures
            reported == self.accepts(first@, second@, conflicts@, *world),
    ;
}

/// Whether the conflict over `conflicts` is one over exactly one component,
/// whose Rust type, as `world` has it on record, is one of `type_ids`.
pub open spec fn single_ambiguity_on(
    type_ids: Seq<TypeId>,
    conflicts: Seq<ComponentId>,
    world: World,
) -> bool {
    &&& conflicts.len() == 1
    &&& declared_type(world, conflicts[0]) matches Some(type_id)
    &&& type_ids.contains(type_id)
}

/// Drops the conflicts over exactly one component whose Rust type is one of
/// `type_ids`, and reports every other conflict: one over no component or
/// over several, and one whose component the world cannot resolve to a Rust
/// type.
pub struct SingleAmbiguityExclusion {
    pub type_ids: Vec<TypeId>,
}

impl SingleAmbiguityExclusion {
    /// The rule that drops the single conflicts on `type_ids`.
    pub fn new(type_ids: &[TypeId]) -> (rule: SingleAmbiguityExclusion)
        ensures
            rule.type_ids@ == type_ids@,
    {
        SingleAmbiguityExclusion { type_ids: slice_to_vec(type_ids) }
    }

    /// Whether a conflict over one component is reported, where `resolved` is
    /// the Rust type that the world has on record for that component.
    pub open spec fn keeps(&self, resolved: Option<TypeId>) -> bool {
        match resolved {
            Some(type_id) => !self.type_ids@.contains(type_id),
            None => true,
        }
    }

    /// Decides a conflict over one component from the type it resolved to.
    pub fn test_resolved(&self, resolved: Option<TypeId>) -> (reported: bool)
        ensures
            reported == self.keeps(resolved),
    {
        match resolved {
            Some(type_id) => {
                let mut i: usize = 0;
                while i < self.type_ids.len()
                    invariant
                        resolved == Some(type_id),
                        i <= self.type_ids.len(),
                        forall|j: int| 0 <= j < i ==> self.type_ids[j] != type_id,
                    decreases self.type_ids.len() - i,
                {
                    if same_type_id(&self.type_ids[i], &type_id) {
                        assert(self.type_ids@[i as int] == type_id);
                        return false;
                    }
                    i += 1;
                }
                true
            },
            None => true,
        }
    }
}

impl AmbiguityPredicate for SingleAmbiguityExclusion {
    open spec fn accepts(
        &self,
        first: Seq<char>,
        second: Seq<char>,
        conflicts: Seq<ComponentId>,
        world: World,
    ) -> bool {
        !single_ambiguity_on(self.type_ids@, conflicts, world)
    }

    fn test(&self, first: &str, second: &str, conflicts: &[ComponentId], world: &World) -> (reported: bool) {
        if conflicts.len() == 1 {
            self.test_resolved(component_type_id(world, conflicts[0]))
        } else {
            true
        }
    }
}

} // verus!
