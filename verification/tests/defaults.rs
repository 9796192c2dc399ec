use bevy_ecs::world::World;
use schedule_graph::{EdgeStyle, RankDir, Settings};

#[test]
fn default_settings() {
    let settings = Settings::default();
    assert!(settings.ambiguity_enable);
    assert!(!settings.ambiguity_enable_on_world);
    assert!(!settings.collapse_single_system_sets);
    assert!(settings.prettify_system_names);
    assert!(settings.include_system.is_none());
    assert!(settings.include_ambiguity.is_none());
}

#[test]
fn default_settings_use_the_dark_github_theme() {
    let style = Settings::default().style;
    assert_eq!(style.schedule_rankdir, RankDir::LeftRight);
    assert_eq!(style.edge_style, EdgeStyle::Spline);
    assert_eq!(style.fontname, "Helvetica");
    assert_eq!(style.color_background, "#0d1117");
    assert_eq!(style.color_system, "#eff1f3");
    assert_eq!(style.color_system_border, "#eff1f3");
    assert_eq!(style.color_set, "#6f90ad");
    assert_eq!(style.color_set_border, "black");
    assert_eq!(style.color_edge.len(), 11);
    assert_eq!(style.color_edge[0], "#eede00");
    assert_eq!(style.color_edge[10], "#99d955");
    assert_eq!(style.multiple_set_edge_color, "blue");
    assert_eq!(style.ambiguity_color, "#c93526");
    assert_eq!(style.ambiguity_bgcolor, "#c6e6ff");
    assert_eq!(style.penwidth_edge, 2000);
}

#[test]
fn default_settings_show_everything() {
    let settings = Settings::default();
    let world = World::new();
    assert!(settings.system_included("any::system"));
    assert!(settings.ambiguity_included("any::system", "other::system", &[], &world));
}

fn shareable<T: Send + Sync>(_: &T) {}

#[test]
fn settings_can_be_shared() {
    let settings = Settings::default()
        .filter_in_crate("game")
        .without_single_ambiguities_on(&[std::any::TypeId::of::<u8>()]);
    shareable(&settings);
    let first = &settings;
    let second = &settings;
    assert!(first.system_included("game::a"));
    assert!(!second.system_included("engine::b"));
    assert!(first.system_included("game::a"));
}
