use schedule_graph::{EdgeStyle, RankDir, Style};

const EDGE_PALETTE: [&str; 11] = [
    "#eede00", "#881877", "#00b0cc", "#aa3a55", "#44d488", "#0090cc", "#ee9e44", "#663699",
    "#3363bb", "#22c2bb", "#99d955",
];

#[test]
fn light_theme_fields() {
    let style = Style::light();
    assert_eq!(style.schedule_rankdir, RankDir::LeftRight);
    assert_eq!(style.edge_style, EdgeStyle::Spline);
    assert_eq!(style.fontname, "Helvetica");
    assert_eq!(style.color_background, "white");
    assert_eq!(style.color_system, "white");
    assert_eq!(style.color_system_border, "black");
    assert_eq!(style.color_set, "white");
    assert_eq!(style.color_set_border, "black");
    assert_eq!(style.color_edge, EDGE_PALETTE);
    assert_eq!(style.multiple_set_edge_color, "blue");
    assert_eq!(style.ambiguity_color, "#c93526");
    assert_eq!(style.ambiguity_bgcolor, "#d3d3d3");
    assert_eq!(style.penwidth_edge, 2000);
}

#[test]
fn dark_discord_theme_fields() {
    let style = Style::dark_discord();
    assert_eq!(style.schedule_rankdir, RankDir::LeftRight);
    assert_eq!(style.edge_style, EdgeStyle::Spline);
    assert_eq!(style.fontname, "Helvetica");
    assert_eq!(style.color_background, "#35393f");
    assert_eq!(style.color_system, "#eff1f3");
    assert_eq!(style.color_system_border, "#eff1f3");
    assert_eq!(style.color_set, "#99aab5");
    assert_eq!(style.color_set_border, "black");
    assert_eq!(style.color_edge, EDGE_PALETTE);
    assert_eq!(style.multiple_set_edge_color, "blue");
    assert_eq!(style.ambiguity_color, "#c93526");
    assert_eq!(style.ambiguity_bgcolor, "#c5daeb");
    assert_eq!(style.penwidth_edge, 2000);
}

#[test]
fn dark_github_theme_fields() {
    let style = Style::dark_github();
    assert_eq!(style.schedule_rankdir, RankDir::LeftRight);
    assert_eq!(style.edge_style, EdgeStyle::Spline);
    assert_eq!(style.fontname, "Helvetica");
    assert_eq!(style.color_background, "#0d1117");
    assert_eq!(style.color_system, "#eff1f3");
    assert_eq!(style.color_system_border, "#eff1f3");
    assert_eq!(style.color_set, "#6f90ad");
    assert_eq!(style.color_set_border, "black");
    assert_eq!(style.color_edge, EDGE_PALETTE);
    assert_eq!(style.multiple_set_edge_color, "blue");
    assert_eq!(style.ambiguity_color, "#c93526");
    assert_eq!(style.ambiguity_bgcolor, "#c6e6ff");
    assert_eq!(style.penwidth_edge, 2000);
}

#[test]
fn themes_share_eleven_edge_colors() {
    let light = Style::light();
    let discord = Style::dark_discord();
    let github = Style::dark_github();
    assert_eq!(light.color_edge.len(), 11);
    assert_eq!(discord.color_edge.len(), 11);
    assert_eq!(github.color_edge.len(), 11);
    assert_eq!(light.color_edge, discord.color_edge);
    assert_eq!(light.color_edge, github.color_edge);
}

#[test]
fn themes_differ_in_background_and_highlight() {
    let light = Style::light();
    let discord = Style::dark_discord();
    let github = Style::dark_github();
    assert_ne!(light.color_background, discord.color_background);
    assert_ne!(light.color_background, github.color_background);
    assert_ne!(discord.color_background, github.color_background);
    assert_ne!(light.ambiguity_bgcolor, discord.ambiguity_bgcolor);
    assert_ne!(discord.ambiguity_bgcolor, github.ambiguity_bgcolor);
    assert_ne!(discord.color_set, github.color_set);
}

#[test]
fn edge_colors_are_hex_tokens() {
    for color in Style::light().color_edge {
        assert_eq!(color.len(), 7);
        assert!(color.starts_with('#'));
        assert!(color[1..].chars().all(|c| c.is_ascii_hexdigit()));
    }
}

#[test]
fn default_style_is_dark_github() {
    let style = Style::default();
    let github = Style::dark_github();
    assert_eq!(style.schedule_rankdir, github.schedule_rankdir);
    assert_eq!(style.edge_style, github.edge_style);
    assert_eq!(style.fontname, github.fontname);
    assert_eq!(style.color_background, "#0d1117");
    assert_eq!(style.color_system, github.color_system);
    assert_eq!(style.color_system_border, github.color_system_border);
    assert_eq!(style.color_set, "#6f90ad");
    assert_eq!(style.color_set_border, github.color_set_border);
    assert_eq!(style.color_edge, github.color_edge);
    assert_eq!(style.multiple_set_edge_color, github.multiple_set_edge_color);
    assert_eq!(style.ambiguity_color, github.ambiguity_color);
    assert_eq!(style.ambiguity_bgcolor, "#c6e6ff");
    assert_eq!(style.penwidth_edge, github.penwidth_edge);
}

#[test]
fn default_directives() {
    assert_eq!(RankDir::default(), RankDir::LeftRight);
    assert_eq!(EdgeStyle::default(), EdgeStyle::Spline);
}

#[test]
fn clone_keeps_every_field() {
    let mut style = Style::dark_discord();
    style.schedule_rankdir = RankDir::TopDown;
    style.edge_style = EdgeStyle::Ortho;
    style.fontname = "Courier".to_owned();
    style.color_edge = vec!["red".to_owned(), "green".to_owned()];
    style.penwidth_edge = 1500;
    let copy = style.clone();
    assert_eq!(copy.schedule_rankdir, RankDir::TopDown);
    assert_eq!(copy.edge_style, EdgeStyle::Ortho);
    assert_eq!(copy.fontname, "Courier");
    assert_eq!(copy.color_background, "#35393f");
    assert_eq!(copy.color_system, "#eff1f3");
    assert_eq!(copy.color_system_border, "#eff1f3");
    assert_eq!(copy.color_set, "#99aab5");
    assert_eq!(copy.color_set_border, "black");
    assert_eq!(copy.color_edge, ["red", "green"]);
    assert_eq!(copy.multiple_set_edge_color, "blue");
    assert_eq!(copy.ambiguity_color, "#c93526");
    assert_eq!(copy.ambiguity_bgcolor, "#c5daeb");
    assert_eq!(copy.penwidth_edge, 1500);
}
