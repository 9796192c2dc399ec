//! Layout directives and colour themes.

use vstd::prelude::*;

verus! {

/// Direction in which the layout engine ranks the nodes of a graph.
#[derive(Clone, Copy, Debug, PartialEq, Eq, Structural)]
pub enum RankDir {
    TopDown,
    LeftRight,
}

impl RankDir {
    /// The token of the rendering engine for this direction.
    pub open spec fn dot_token(self) -> Seq<char> {
        match self {
            RankDir::TopDown => "TD"@,
            RankDir::LeftRight => "LR"@,
        }
    }

    pub fn as_dot(&self) -> (token: &'static str)
        ensures
            token@ == self.dot_token(),
    {
        match self {
            RankDir::TopDown => "TD",
            RankDir::LeftRight => "LR",
        }
    }
}

impl Default for RankDir {
    fn default() -> (dir: RankDir)
        ensures
            dir == RankDir::LeftRight,
    {
        RankDir::LeftRight
    }
}

/// Shape in which the layout engine draws an edge.
#[derive(Clone, Copy, Debug, PartialEq, Eq, Structural)]
pub enum EdgeStyle {
    /// Edges are not drawn.
    NoEdges,
    Line,
    Polyline,
    Curved,
    Ortho,
    Spline,
}

impl EdgeStyle {
    /// The token of the rendering engine for this edge shape.
    pub open spec fn dot_token(self) -> Seq<char> {
        match self {
            EdgeStyle::NoEdges => "none"@,
            EdgeStyle::Line => "line"@,
            EdgeStyle::Polyline => "polyline"@,
            EdgeStyle::Curved => "curved"@,
            EdgeStyle::Ortho => "ortho"@,
            EdgeStyle::Spline => "spline"@,
        }
    }

    pub fn as_dot(&self) -> (token: &'static str)
        ensures
            token@ == self.dot_token(),
    {
        match self {
            EdgeStyle::NoEdges => "none",
            EdgeStyle::Line => "line",
            EdgeStyle::Polyline => "polyline",
            EdgeStyle::Curved => "curved",
            EdgeStyle::Ortho => "ortho",
            EdgeStyle::Spline => "spline",
        }
    }
}

impl Default for EdgeStyle {
    fn default() -> (style: EdgeStyle)
        ensures
            style == EdgeStyle::Spline,
    {
        EdgeStyle::Spline
    }
}

/// Each token is spelled in lower-case letters, but for the two capitals of
/// a rank direction, and no two variants of one directive share a token.
pub proof fn lemma_dot_tokens_spelled()
    ensures
        RankDir::TopDown.dot_token() == seq!['T', 'D'],
        RankDir::LeftRight.dot_token() == seq!['L', 'R'],
        EdgeStyle::NoEdges.dot_token() == seq!['n', 'o', 'n', 'e'],
        EdgeStyle::Line.dot_token() == seq!['l', 'i', 'n', 'e'],
        EdgeStyle::Polyline.dot_token() == seq!['p', 'o', 'l', 'y', 'l', 'i', 'n', 'e'],
        EdgeStyle::Curved.dot_token() == seq!['c', 'u', 'r', 'v', 'e', 'd'],
        EdgeStyle::Ortho.dot_token() == seq!['o', 'r', 't', 'h', 'o'],
        EdgeStyle::Spline.dot_token() == seq!['s', 'p', 'l', 'i', 'n', 'e'],
        forall|a: RankDir, b: RankDir| a.dot_token() == b.dot_token() ==> a == b,
        forall|a: EdgeStyle, b: EdgeStyle| a.dot_token() == b.dot_token() ==> a == b,
{
    reveal_strlit("TD");
    reveal_strlit("LR");
    reveal_strlit("none");
    reveal_strlit("line");
    reveal_strlit("polyline");
    reveal_strlit("curved");
    reveal_strlit("ortho");
    reveal_strlit("spline");
    assert("TD"@ =~= seq!['T', 'D']);
    assert("LR"@ =~= seq!['L', 'R']);
    assert("none"@ =~= seq!['n', 'o', 'n', 'e']);
    assert("line"@ =~= seq!['l', 'i', 'n', 'e']);
    assert("polyline"@ =~= seq!['p', 'o', 'l', 'y', 'l', 'i', 'n', 'e']);
    assert("curved"@ =~= seq!['c', 'u', 'r', 'v', 'e', 'd']);
    assert("ortho"@ =~= seq!['o', 'r', 't', 'h', 'o']);
    assert("spline"@ =~= seq!['s', 'p', 'l', 'i', 'n', 'e']);
    assert forall|a: RankDir, b: RankDir| a.dot_token() == b.dot_token() implies a == b by {
        assert(a.dot_token()[0] == b.dot_token()[0]);
    }
    assert forall|a: EdgeStyle, b: EdgeStyle| a.dot_token() == b.dot_token() implies a == b by {
        assert(a.dot_token().len() == b.dot_token().len());
        assert(a.dot_token()[0] == b.dot_token()[0]);
    }
}

/// A visual theme: layout, font, colours and stroke width.
///
/// Colours are tokens of the renderer's colour grammar, a colour name or
/// `#rrggbb`.
pub struct Style {
    pub schedule_rankdir: RankDir,
    pub edge_style: EdgeStyle,
    pub fontname: String,
    pub color_background: String,
    pub color_system: String,
    pub color_system_border: String,
    pub color_set: String,
    pub color_set_border: String,
    /// Colours that edges cycle through, in this order.
    pub color_edge: Vec<String>,
    /// Colour of an edge that stands for several relations.
    pub multiple_set_edge_color: String,
    pub ambiguity_color: String,
    pub ambiguity_bgcolor: String,
    /// Width of an edge's stroke, in thousandths of a point.
    pub penwidth_edge: u32,
}

/// What a [`Style`] holds, as mathematical values.
pub struct StyleView {
    pub schedule_rankdir: RankDir,
    pub edge_style: EdgeStyle,
    pub fontname: Seq<char>,
    pub color_background: Seq<char>,
    pub color_system: Seq<char>,
    pub color_system_border: Seq<char>,
    pub color_set: Seq<char>,
    pub color_set_border: Seq<char>,
    pub color_edge: Seq<Seq<char>>,
    pub multiple_set_edge_color: Seq<char>,
    pub ambiguity_color: Seq<char>,
    pub ambiguity_bgcolor: Seq<char>,
    pub penwidth_edge: nat,
}

impl View for Style {
    type V = StyleView;

    open spec fn view(&self) -> StyleView {
        StyleView {
            schedule_rankdir: self.schedule_rankdir,
            edge_style: self.edge_style,
            fontname: self.fontname@,
            color_background: self.color_background@,
            color_system: self.color_system@,
            color_system_border: self.color_system_border@,
            color_set: self.color_set@,
            color_set_border: self.color_set_border@,
            color_edge: self.color_edge.deep_view(),
            multiple_set_edge_color: self.multiple_set_edge_color@,
            ambiguity_color: self.ambiguity_color@,
            ambiguity_bgcolor: self.ambiguity_bgcolor@,
            penwidth_edge: self.penwidth_edge as nat,
        }
    }
}

impl Clone for Style {
    fn clone(&self) -> (copy: Style)
        ensures
            copy@ == self@,
    {
        Style {
            schedule_rankdir: self.schedule_rankdir,
            edge_style: self.edge_style,
            fontname: self.fontname.clone(),
            color_background: self.color_background.clone(),
            color_system: self.color_system.clone(),
            color_system_border: self.color_system_border.clone(),
            color_set: self.color_set.clone(),
            color_set_border: self.color_set_border.clone(),
            color_edge: self.color_edge.clone(),
            multiple_set_edge_color: self.multiple_set_edge_color.clone(),
            ambiguity_color: self.ambiguity_color.clone(),
            ambiguity_bgcolor: self.ambiguity_bgcolor.clone(),
            penwidth_edge: self.penwidth_edge,
        }
    }
}

/// The colours that the edges of every built-in theme cycle through.
pub open spec fn edge_palette() -> Seq<Seq<char>> {
    seq![
        "#eede00"@,
        "#881877"@,
        "#00b0cc"@,
        "#aa3a55"@,
        "#44d488"@,
        "#0090cc"@,
        "#ee9e44"@,
        "#663699"@,
        "#3363bb"@,
        "#22c2bb"@,
        "#99d955"@,
    ]
}

fn edge_palette_colors() -> (colors: Vec<String>)
    ensures
        colors.deep_view() == edge_palette(),
{
    let mut colors: Vec<String> = Vec::new();
    colors.push("#eede00".to_owned());
    colors.push("#881877".to_owned());
    colors.push("#00b0cc".to_owned());
    colors.push("#aa3a55".to_owned());
    colors.push("#44d488".to_owned());
    colors.push("#0090cc".to_owned());
    colors.push("#ee9e44".to_owned());
    colors.push("#663699".to_owned());
    colors.push("#3363bb".to_owned());
    colors.push("#22c2bb".to_owned());
    colors.push("#99d955".to_owned());
    assert(colors.deep_view() =~= edge_palette());
    colors
}

impl Style {
    /// The light theme.
    pub open spec fn light_view() -> StyleView {
        StyleView {
            schedule_rankdir: RankDir::LeftRight,
            edge_style: EdgeStyle::Spline,
            fontname: "Helvetica"@,
            color_background: "white"@,
            color_system: "white"@,
            color_system_border: "black"@,
            color_set: "white"@,
            color_set_border: "black"@,
            color_edge: edge_palette(),
            multiple_set_edge_color: "blue"@,
            ambiguity_color: "#c93526"@,
            ambiguity_bgcolor: "#d3d3d3"@,
            penwidth_edge: 2000,
        }
    }

    pub fn light() -> (style: Style)
        ensures
            style@ == Style::light_view(),
    {
        Style {
            schedule_rankdir: RankDir::default(),
            edge_style: EdgeStyle::default(),
            fontname: "Helvetica".to_owned(),
            color_background: "white".to_owned(),
            color_system: "white".to_owned(),
            color_system_border: "black".to_owned(),
            color_set: "white".to_owned(),
            color_set_border: "black".to_owned(),
            color_edge: edge_palette_colors(),
            multiple_set_edge_color: "blue".to_owned(),
            ambiguity_color: "#c93526".to_owned(),
            ambiguity_bgcolor: "#d3d3d3".to_owned(),
            penwidth_edge: 2000,
        }
    }

    /// The theme for embeds in a dark chat client.
    pub open spec fn dark_discord_view() -> StyleView {
        StyleView {
            schedule_rankdir: RankDir::LeftRight,
            edge_style: EdgeStyle::Spline,
            fontname: "Helvetica"@,
            color_background: "#35393f"@,
            color_system: "#eff1f3"@,
            color_system_border: "#eff1f3"@,
            color_set: "#99aab5"@,
            color_set_border: "black"@,
            color_edge: edge_palette(),
            multiple_set_edge_color: "blue"@,
            ambiguity_color: "#c93526"@,
            ambiguity_bgcolor: "#c5daeb"@,
            penwidth_edge: 2000,
        }
    }

    pub fn dark_discord() -> (style: Style)
        ensures
            style@ == Style::dark_discord_view(),
    {
        Style {
            schedule_rankdir: RankDir::default(),
            edge_style: EdgeStyle::default(),
            fontname: "Helvetica".to_owned(),
            color_background: "#35393f".to_owned(),
            color_system: "#eff1f3".to_owned(),
            color_system_border: "#eff1f3".to_owned(),
            color_set: "#99aab5".to_owned(),
            color_set_border: "black".to_owned(),
            color_edge: edge_palette_colors(),
            multiple_set_edge_color: "blue".to_owned(),
            ambiguity_color: "#c93526".to_owned(),
            ambiguity_bgcolor: "#c5daeb".to_owned(),
            penwidth_edge: 2000,
        }
    }

    /// The theme for a dark code-hosting site.
    pub open spec fn dark_github_view() -> StyleView {
        StyleView {
            schedule_rankdir: RankDir::LeftRight,
            edge_style: EdgeStyle::Spline,
            fontname: "Helvetica"@,
            color_background: "#0d1117"@,
            color_system: "#eff1f3"@,
            color_system_border: "#eff1f3"@,
            color_set: "#6f90ad"@,
            color_set_border: "black"@,
            color_edge: edge_palette(),
            multiple_set_edge_color: "blue"@,
            ambiguity_color: "#c93526"@,
            ambiguity_bgcolor: "#c6e6ff"@,
            penwidth_edge: 2000,
        }
    }

    pub fn dark_github() -> (style: Style)
        ensures
            style@ == Style::dark_github_view(),
    {
        Style {
            schedule_rankdir: RankDir::default(),
            edge_style: EdgeStyle::default(),
            fontname: "Helvetica".to_owned(),
            color_background: "#0d1117".to_owned(),
            color_system: "#eff1f3".to_owned(),
            color_system_border: "#eff1f3".to_owned(),
            color_set: "#6f90ad".to_owned(),
            color_set_border: "black".to_owned(),
            color_edge: edge_palette_colors(),
            multiple_set_edge_color: "blue".to_owned(),
            ambiguity_color: "#c93526".to_owned(),
            ambiguity_bgcolor: "#c6e6ff".to_owned(),
            penwidth_edge: 2000,
        }
    }
}

impl Default for Style {
    fn default() -> (style: Style)
        ensures
            style@ == Style::dark_github_view(),
    {
        Style::dark_github()
    }
}

/// The three built-in themes cycle their edges through the same eleven
/// colours, in the same order.
pub proof fn lemma_presets_share_edge_palette()
    ensures
        edge_palette().len() == 11,
        Style::light_view().color_edge == edge_palette(),
        Style::dark_discord_view().color_edge == edge_palette(),
        Style::dark_github_view().color_edge == edge_palette(),
{
}

} // verus!
