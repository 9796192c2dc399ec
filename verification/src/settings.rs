//! The configuration that a graph builder is handed.

use crate::ambiguity::{single_ambiguity_on, AmbiguityPredicate, SingleAmbiguityExclusion};
use crate::names::{begins_with_any, NamePrefix, NamePrefixes, SystemPredicate};
use crate::style::Style;
use bevy_ecs::component::ComponentId;
use bevy_ecs::world::World;
use std::any::TypeId;
use vstd::prelude::*;

verus! {

/// How a schedule is drawn: the theme, which systems and which conflicts are
/// shown, and four switches.
pub struct Settings {
    pub style: Style,
    /// When set, only the systems that the rule keeps are drawn, together
    /// with the sets they belong to.
    pub include_system: Option<Box<dyn SystemPredicate>>,
    /// Whether a set that holds a single system is merged into that system.
    pub collapse_single_system_sets: bool,
    /// Whether conflicts are looked for at all.
    pub ambiguity_enable: bool,
    /// Whether conflicts that come from access to the whole world count.
    pub ambiguity_enable_on_world: bool,
    /// When set, only the conflicts that the rule accepts are reported.
    pub include_ambiguity: Option<Box<dyn AmbiguityPredicate>>,
    /// Whether the full names of systems are shortened for display.
    pub prettify_system_names: bool,
}

impl Settings {
    /// Whether the system called `name` is drawn: every system where no rule
    /// is set, else those that the rule keeps.
    pub open spec fn includes_system(&self, name: Seq<char>) -> bool {
        match self.include_system {
            Some(rule) => rule.accepts(name),
            None => true,
        }
    }

    /// Whether the conflict over `conflicts` between the systems called
    /// `first` and `second` is reported: every conflict where no rule is set,
    /// else those that the rule accepts.
    pub open spec fn includes_ambiguity(
        &self,
        first: Seq<char>,
        second: Seq<char>,
        conflicts: Seq<ComponentId>,
        world: World,
    ) -> bool {
        match self.include_ambiguity {
            Some(rule) => rule.accepts(first, second, conflicts, world),
            None => true,
        }
    }

    /// Whether `self` and `other` agree on everything but the rule for systems.
    pub open spec fn same_but_include_system(&self, other: Settings) -> bool {
        &&& self.style == other.style
        &&& self.collapse_single_system_sets == other.collapse_single_system_sets
        &&& self.ambiguity_enable == other.ambiguity_enable
        &&& self.ambiguity_enable_on_world == other.ambiguity_enable_on_world
        &&& self.include_ambiguity == other.include_ambiguity
        &&& self.prettify_system_names == other.prettify_system_names
    }

    /// Whether `self` and `other` agree on everything but the rule for conflicts.
    pub open spec fn same_but_include_ambiguity(&self, other: Settings) -> bool {
        &&& self.style == other.style
        &&& self.include_system == other.include_system
        &&& self.collapse_single_system_sets == other.collapse_single_system_sets
        &&& self.ambiguity_enable == other.ambiguity_enable
        &&& self.ambiguity_enable_on_world == other.ambiguity_enable_on_world
        &&& self.prettify_system_names == other.prettify_system_names
    }

    /// Asks the rule for systems, if one is set, about the system called `name`.
    pub fn system_included(&self, name: &str) -> (included: bool)
        ensures
            included == self.includes_system(name@),
            self.include_system is None ==> included,
    {
        match &self.include_system {
            Some(rule) => rule.test(name),
            None => true,
        }
    }

    /// Asks the rule for conflicts, if one is set, about one conflict.
    pub fn ambiguity_included(
        &self,
        first: &str,
        second: &str,
        conflicts: &[ComponentId],
        world: &World,
    ) -> (included: bool)
        ensures
            included == self.includes_ambiguity(first@, second@, conflicts@, *world),
            self.include_ambiguity is None ==> included,
    {
        match &self.include_ambiguity {
            Some(rule) => rule.test(first, second, conflicts, world),
            None => true,
        }
    }

    /// Draws only the systems whose name begins with `crate_`.
    pub fn filter_in_crate(self, crate_: &str) -> (settings: Settings)
        ensures
            settings.include_system is Some,
            forall|name: Seq<char>|
                #[trigger] settings.includes_system(name) == crate_@.is_prefix_of(name),
            settings.same_but_include_system(self),
    {
        let mut settings = self;
        settings.include_system = Some(Box::new(NamePrefix::new(crate_)));
        settings
    }

    /// Draws only the systems whose name begins with one of `crates`.
    pub fn filter_in_crates(self, crates: &[&str]) -> (settings: Settings)
        ensures
            settings.include_system is Some,
            forall|name: Seq<char>|
                #[trigger] settings.includes_system(name) == begins_with_any(
                    name,
                    crates.deep_view(),
                ),
            settings.same_but_include_system(self),
    {
        let mut settings = self;
        settings.include_system = Some(Box::new(NamePrefixes::new(crates)));
        settings
    }

    /// Stops reporting the conflicts over exactly one component whose Rust
    /// type is one of `type_ids`. A conflict over no component or over
    /// several, and one whose component the world cannot resolve to a Rust
    /// type, is still reported.
    pub fn without_single_ambiguities_on(self, type_ids: &[TypeId]) -> (settings: Settings)
        ensures
            settings.include_ambiguity is Some,
            forall|first: Seq<char>, second: Seq<char>, conflicts: Seq<ComponentId>, world: World|
                #[trigger] settings.includes_ambiguity(first, second, conflicts, world)
                    == !single_ambiguity_on(type_ids@, conflicts, world),
            settings.same_but_include_ambiguity(self),
    {
        let mut settings = self;
        settings.include_ambiguity = Some(Box::new(SingleAmbiguityExclusion::new(type_ids)));
        settings
    }
}

impl Default for Settings {
    fn default() -> (settings: Settings)
        ensures
            settings.style@ == Style::dark_github_view(),
            settings.include_system is None,
            !settings.collapse_single_system_sets,
            settings.ambiguity_enable,
            !settings.ambiguity_enable_on_world,
            settings.include_ambiguity is None,
            settings.prettify_system_names,
    {
        Settings {
            style: Style::default(),
            include_system: None,
            collapse_single_system_sets: false,
            ambiguity_enable: true,
            ambiguity_enable_on_world: false,
            include_ambiguity: None,
            prettify_system_names: true,
        }
    }
}

} // verus!
