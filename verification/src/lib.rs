//! Filtering and styling policy for drawing a scheduler's systems, their
//! grouping sets and the edges between them.
//!
//! The crate decides which systems and which data-access conflicts a graph
//! builder should show, and with which layout direction, edge shape and
//! colours. It walks no schedule and emits no graph.

pub mod ambiguity;
pub mod ecs;
pub mod names;
pub mod prefix;
pub mod settings;
pub mod style;

pub use ambiguity::{single_ambiguity_on, AmbiguityPredicate, SingleAmbiguityExclusion};
pub use ecs::{component_types, declared_type};
pub use names::{begins_with_any, NamePrefix, NamePrefixes, SystemPredicate};
pub use settings::Settings;
pub use style::{
    edge_palette, lemma_dot_tokens_spelled, lemma_presets_share_edge_palette, EdgeStyle, RankDir,
    Style, StyleView,
};
