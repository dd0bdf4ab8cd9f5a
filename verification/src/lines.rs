//! Lines and markers: what a segment looks like in the scene, how a scene is
//! rebuilt from placements, and how the lines are read back.

use crate::scene::{
    add_sub_layer, clear_sub_layers, layer_children, layer_needs_update, layer_node, new_layer,
    request_layout, set_color, set_position, set_rotation, sub_layer_at, sub_layer_count, Node,
};
use rust_animation::layer::Layer;
use vstd::prelude::*;

verus! {

/// The side of the square that marks an endpoint.
pub const MARKER_SIZE: u32 = 10;

/// The width of a line layer; its height is the length of the segment.
pub const LINE_WIDTH: u32 = 1;

/// The geometry of a line layer: its position, its length (kept as the
/// layer's height) and its rotation in whole degrees.
#[derive(Clone, Copy, Debug, PartialEq, Eq, Structural)]
pub struct LineNode {
    pub x: i32,
    pub y: i32,
    pub height: u32,
    pub rotation: i32,
}

/// Where the three layers of one segment go: a marker at each endpoint and
/// the line between them.
#[derive(Clone, Copy, Debug, PartialEq, Eq, Structural)]
pub struct Placement {
    pub start_x: i32,
    pub start_y: i32,
    pub end_x: i32,
    pub end_y: i32,
    pub line: LineNode,
}

impl Node {
    /// The layer is tagged as a line.
    pub open spec fn is_line(self) -> bool {
        self.name == "line"@
    }

    /// The layer is tagged as the marker of an endpoint.
    pub open spec fn is_marker(self) -> bool {
        self.name == "start_marker"@ || self.name == "end_marker"@
    }

    /// The layer is a line from which a segment can be reconstructed: a line
    /// of length zero has no direction.
    pub open spec fn is_sound_line(self) -> bool {
        self.is_line() && self.height > 0
    }

    /// The geometry of the layer.
    pub open spec fn line(self) -> LineNode {
        LineNode { x: self.x, y: self.y, height: self.height, rotation: self.rotation }
    }
}

impl LineNode {
    /// The vertical centre of the line: `y` plus half the height, rounded
    /// towards zero, and no more than the largest coordinate.
    pub open spec fn spec_center_y(&self) -> int {
        let twice = 2 * self.y + self.height;
        let half = if twice >= 0 {
            twice / 2
        } else {
            -((-twice) / 2)
        };
        if half > i32::MAX {
            i32::MAX as int
        } else {
            half
        }
    }

    /// The centre of the line, about which it is rotated: `x` as it is, and
    /// the vertical centre.
    pub fn center(&self) -> (c: (i32, i32))
        ensures
            c.0 == self.x,
            c.1 == self.spec_center_y(),
    {
        let twice: i64 = 2 * (self.y as i64) + (self.height as i64);
        let half: i64 = if twice >= 0 {
            twice / 2
        } else {
            -((-twice) / 2)
        };
        if half > i32::MAX as i64 {
            (self.x, i32::MAX)
        } else {
            (self.x, half as i32)
        }
    }
}

impl Placement {
    /// The marker of the start point: a red square at the start.
    pub open spec fn start_marker(&self) -> Node {
        Node {
            name: "start_marker"@,
            x: self.start_x,
            y: self.start_y,
            width: MARKER_SIZE,
            height: MARKER_SIZE,
            rotation: 0,
            color: (1, 0, 0),
        }
    }

    /// The marker of the end point: a blue square at the end.
    pub open spec fn end_marker(&self) -> Node {
        Node {
            name: "end_marker"@,
            x: self.end_x,
            y: self.end_y,
            width: MARKER_SIZE,
            height: MARKER_SIZE,
            rotation: 0,
            color: (0, 0, 1),
        }
    }

    /// The line itself: green, one unit wide, as long as the segment.
    pub open spec fn line_node(&self) -> Node {
        Node {
            name: "line"@,
            x: self.line.x,
            y: self.line.y,
            width: LINE_WIDTH,
            height: self.line.height,
            rotation: self.line.rotation,
            color: (0, 1, 0),
        }
    }

    /// The three layers of one segment, in the order in which they are added.
    pub open spec fn nodes(&self) -> Seq<Node> {
        seq![self.start_marker(), self.end_marker(), self.line_node()]
    }
}

/// The sub-layers of a scene that was built from the given placements: the
/// three layers of each, in the order of the placements.
pub open spec fn drawn(placements: Seq<Placement>) -> Seq<Node>
    decreases placements.len(),
{
    if placements.len() == 0 {
        Seq::empty()
    } else {
        drawn(placements.drop_last()) + placements.last().nodes()
    }
}

/// The lines among the given layers from which a segment can be
/// reconstructed, in the order of the layers.
pub open spec fn lines_in(nodes: Seq<Node>) -> Seq<LineNode> {
    nodes.filter(|n: Node| n.is_sound_line()).map_values(|n: Node| n.line())
}

/// How many of the given layers are tagged as lines.
pub open spec fn line_count(nodes: Seq<Node>) -> nat {
    nodes.filter(|n: Node| n.is_line()).len()
}

/// How many of the given layers are tagged as markers.
pub open spec fn marker_count(nodes: Seq<Node>) -> nat {
    nodes.filter(|n: Node| n.is_marker()).len()
}

/// Adds the two markers and the line of one segment behind the sub-layers
/// that are there, and asks for layout.
pub fn draw_line(layer: &mut Layer, placement: &Placement)
    ensures
        layer_children(*final(layer)) == layer_children(*old(layer)) + placement.nodes(),
        layer_node(*final(layer)) == layer_node(*old(layer)),
        layer_needs_update(*final(layer)),
{
    let mut start_marker = new_layer("start_marker", MARKER_SIZE, MARKER_SIZE);
    set_position(&mut start_marker, placement.start_x, placement.start_y);
    set_color(&mut start_marker, 1, 0, 0);
    add_sub_layer(layer, start_marker);

    let mut end_marker = new_layer("end_marker", MARKER_SIZE, MARKER_SIZE);
    set_position(&mut end_marker, placement.end_x, placement.end_y);
    set_color(&mut end_marker, 0, 0, 1);
    add_sub_layer(layer, end_marker);

    let mut line = new_layer("line", LINE_WIDTH, placement.line.height);
    set_position(&mut line, placement.line.x, placement.line.y);
    set_rotation(&mut line, placement.line.rotation);
    set_color(&mut line, 0, 1, 0);
    add_sub_layer(layer, line);

    request_layout(layer);
    assert(layer_children(*layer) =~= layer_children(*old(layer)) + placement.nodes());
}

/// Replaces whatever the scene held by the layers of the given placements,
/// and asks for layout.
pub fn rebuild(layer: &mut Layer, placements: &Vec<Placement>)
    ensures
        layer_children(*final(layer)) == drawn(placements@),
        layer_node(*final(layer)) == layer_node(*old(layer)),
        layer_needs_update(*final(layer)),
{
    clear_sub_layers(layer);
    request_layout(layer);
    let mut i: usize = 0;
    while i < placements.len()
        invariant
            i <= placements.len(),
            layer_children(*layer) == drawn(placements@.take(i as int)),
            layer_node(*layer) == layer_node(*old(layer)),
            layer_needs_update(*layer),
        decreases placements.len() - i,
    {
        draw_line(layer, &placements[i]);
        proof {
            let next = placements@.take(i + 1);
            assert(next.drop_last() =~= placements@.take(i as int));
            assert(next.last() == placements@[i as int]);
        }
        i += 1;
    }
    assert(placements@.take(i as int) =~= placements@);
}

/// Replaces whatever the scene held by the layers of one segment.
pub fn seed(layer: &mut Layer, placement: &Placement)
    ensures
        layer_children(*final(layer)) == placement.nodes(),
        layer_node(*final(layer)) == layer_node(*old(layer)),
        layer_needs_update(*final(layer)),
{
    clear_sub_layers(layer);
    draw_line(layer, placement);
    assert(Seq::<Node>::empty() + placement.nodes() =~= placement.nodes());
}

/// Reads the lines of the scene, in the order of its sub-layers. Markers and
/// other layers are passed over, and so is a line of length zero.
pub fn line_nodes(layer: &Layer) -> (lines: Vec<LineNode>)
    ensures
        lines@ == lines_in(layer_children(*layer)),
{
    let tag: String = "line".to_owned();
    let count = sub_layer_count(layer);
    let mut lines: Vec<LineNode> = Vec::new();
    let mut i: usize = 0;
    while i < count
        invariant
            i <= count,
            count == layer_children(*layer).len(),
            tag@ == "line"@,
            lines@ == lines_in(layer_children(*layer).take(i as int)),
        decreases count - i,
    {
        let child = sub_layer_at(layer, i);
        proof {
            lemma_lines_in_take(layer_children(*layer), i as int);
        }
        if child.name == tag && child.height > 0 {
            lines.push(
                LineNode { x: child.x, y: child.y, height: child.height, rotation: child.rotation },
            );
        }
        i += 1;
    }
    assert(layer_children(*layer).take(i as int) =~= layer_children(*layer));
    lines
}

/// Reading one layer more adds its line, where it is a sound one, and
/// nothing otherwise.
proof fn lemma_lines_in_take(nodes: Seq<Node>, i: int)
    requires
        0 <= i < nodes.len(),
    ensures
        lines_in(nodes.take(i + 1)) == if nodes[i].is_sound_line() {
            lines_in(nodes.take(i)).push(nodes[i].line())
        } else {
            lines_in(nodes.take(i))
        },
{
    lemma_lines_in_push(nodes.take(i), nodes[i]);
    assert(nodes.take(i + 1) =~= nodes.take(i).push(nodes[i]));
}

/// The lines of a list with one layer more at its end.
pub proof fn lemma_lines_in_push(nodes: Seq<Node>, node: Node)
    ensures
        lines_in(nodes.push(node)) == if node.is_sound_line() {
            lines_in(nodes).push(node.line())
        } else {
            lines_in(nodes)
        },
{
    let sound = |n: Node| n.is_sound_line();
    let line = |n: Node| n.line();
    nodes.lemma_filter_push(node, sound);
    if node.is_sound_line() {
        assert(nodes.filter(sound).push(node).map_values(line) =~= nodes.filter(sound).map_values(
            line,
        ).push(node.line()));
    }
}

/// The layers of one segment are two markers and one line, the line last.
pub proof fn lemma_nodes_of_one(placement: Placement)
    ensures
        placement.nodes().len() == 3,
        placement.start_marker().is_marker() && !placement.start_marker().is_line(),
        placement.end_marker().is_marker() && !placement.end_marker().is_line(),
        placement.line_node().is_line() && !placement.line_node().is_marker(),
        placement.line_node().line() == placement.line,
{
    reveal_strlit("line");
    reveal_strlit("start_marker");
    reveal_strlit("end_marker");
    assert("line"@.len() == 4);
    assert("start_marker"@.len() == 12);
    assert("end_marker"@.len() == 10);
}

/// A scene built from `n` placements holds `n` lines and `2 * n` markers,
/// and nothing else.
pub proof fn lemma_drawn_counts(placements: Seq<Placement>)
    ensures
        drawn(placements).len() == 3 * placements.len(),
        line_count(drawn(placements)) == placements.len(),
        marker_count(drawn(placements)) == 2 * placements.len(),
    decreases placements.len(),
{
    if placements.len() > 0 {
        let rest = placements.drop_last();
        let p = placements.last();
        lemma_drawn_counts(rest);
        lemma_nodes_of_one(p);
        let one = drawn(rest).push(p.start_marker());
        let two = one.push(p.end_marker());
        assert(drawn(placements) =~= two.push(p.line_node()));
        let line = |n: Node| n.is_line();
        let marker = |n: Node| n.is_marker();
        drawn(rest).lemma_filter_push(p.start_marker(), line);
        one.lemma_filter_push(p.end_marker(), line);
        two.lemma_filter_push(p.line_node(), line);
        drawn(rest).lemma_filter_push(p.start_marker(), marker);
        one.lemma_filter_push(p.end_marker(), marker);
        two.lemma_filter_push(p.line_node(), marker);
    }
}

/// Reading back what was drawn gives the geometry that was placed: the lines
/// of the placements, in their order, those of length zero left out.
pub proof fn lemma_lines_of_drawn(placements: Seq<Placement>)
    ensures
        lines_in(drawn(placements)) == placements.filter(|p: Placement| p.line.height > 0).map_values(
            |p: Placement| p.line,
        ),
    decreases placements.len(),
{
    let long = |p: Placement| p.line.height > 0;
    let line = |p: Placement| p.line;
    if placements.len() > 0 {
        let rest = placements.drop_last();
        let p = placements.last();
        lemma_lines_of_drawn(rest);
        lemma_nodes_of_one(p);
        let one = drawn(rest).push(p.start_marker());
        let two = one.push(p.end_marker());
        assert(drawn(placements) =~= two.push(p.line_node()));
        lemma_lines_in_push(drawn(rest), p.start_marker());
        lemma_lines_in_push(one, p.end_marker());
        lemma_lines_in_push(two, p.line_node());
        assert(placements =~= rest.push(p));
        rest.lemma_filter_push(p, long);
        if p.line.height > 0 {
            assert(rest.filter(long).push(p).map_values(line) =~= rest.filter(long).map_values(
                line,
            ).push(p.line));
        }
    } else {
        assert(placements.filter(long).map_values(line) =~= Seq::<LineNode>::empty());
        assert(lines_in(drawn(placements)) =~= Seq::<LineNode>::empty());
    }
}

/// Seeding leaves one line and two markers, whatever the scene held before.
pub proof fn lemma_seeded_counts(placement: Placement)
    ensures
        line_count(placement.nodes()) == 1,
        marker_count(placement.nodes()) == 2,
{
    let one = seq![placement];
    assert(one.drop_last() =~= Seq::<Placement>::empty());
    assert(drawn(one.drop_last()) =~= Seq::<Node>::empty());
    assert(drawn(one) =~= placement.nodes());
    lemma_drawn_counts(one);
}

} // verus!
