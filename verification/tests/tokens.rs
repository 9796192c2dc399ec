use schedule_graph::{EdgeStyle, RankDir};

#[test]
fn rank_dir_tokens() {
    assert_eq!(RankDir::TopDown.as_dot(), "TD");
    assert_eq!(RankDir::LeftRight.as_dot(), "LR");
}

#[test]
fn edge_style_tokens() {
    assert_eq!(EdgeStyle::NoEdges.as_dot(), "none");
    assert_eq!(EdgeStyle::Line.as_dot(), "line");
    assert_eq!(EdgeStyle::Polyline.as_dot(), "polyline");
    assert_eq!(EdgeStyle::Curved.as_dot(), "curved");
    assert_eq!(EdgeStyle::Ortho.as_dot(), "ortho");
    assert_eq!(EdgeStyle::Spline.as_dot(), "spline");
}
