//! The scene: a container layer whose sub-layers are the markers and lines
//! of the current iteration.

use rust_animation::layer::Layer;
use rust_animation::play::Play;
use vstd::prelude::*;

verus! {

/// `rust_animation::layer::Layer`: a node of the scene graph, which owns its
/// sub-layers. Verified code sees it only through the names and wrappers below.
#[verifier::external_type_specification]
#[verifier::external_body]
pub struct ExLayer(Layer);

/// What the library reads and writes of one layer: its name, its position,
/// its size, its rotation in whole degrees and its colour. A colour component
/// is a whole number; the library sets 0 and 1 only.
pub ghost struct Node {
    pub name: Seq<char>,
    pub x: i32,
    pub y: i32,
    pub width: u32,
    pub height: u32,
    pub rotation: i32,
    pub color: (u8, u8, u8),
}

/// The attributes of the layer itself.
pub uninterp spec fn layer_node(layer: Layer) -> Node;

/// The attributes of the layer's sub-layers, in the order of its list.
pub uninterp spec fn layer_children(layer: Layer) -> Seq<Node>;

/// Whether the layer asks for its layout to be computed anew.
pub uninterp spec fn layer_needs_update(layer: Layer) -> bool;

/// `Play::new_layer`, without an event handler: a layer of the given name and
/// size at the origin, not rotated, white, without sub-layers, that asks for
/// layout.
#[verifier::external_body]
pub(crate) fn new_layer(name: &str, width: u32, height: u32) -> (layer: Layer)
    ensures
        layer_node(layer) == (Node {
            name: name@,
            x: 0,
            y: 0,
            width,
            height,
            rotation: 0,
            color: (1, 1, 1),
        }),
        layer_children(layer) == Seq::<Node>::empty(),
        layer_needs_update(layer),
{
    Play::new_layer(name.to_string(), width, height, None)
}

/// `Layer::set_position`: stores the two coordinates and touches nothing else.
#[verifier::external_body]
pub(crate) fn set_position(layer: &mut Layer, x: i32, y: i32)
    ensures
        layer_node(*final(layer)) == (Node { x, y, ..layer_node(*old(layer)) }),
        layer_children(*final(layer)) == layer_children(*old(layer)),
        layer_needs_update(*final(layer)) == layer_needs_update(*old(layer)),
{
    layer.set_position(x, y)
}

/// Assigns the public field `rotation` of a layer and touches nothing else.
#[verifier::external_body]
pub(crate) fn set_rotation(layer: &mut Layer, rotation: i32)
    ensures
        layer_node(*final(layer)) == (Node { rotation, ..layer_node(*old(layer)) }),
        layer_children(*final(layer)) == layer_children(*old(layer)),
        layer_needs_update(*final(layer)) == layer_needs_update(*old(layer)),
{
    layer.rotation = rotation;
}

/// `Layer::set_color`, with each component handed over as the same whole
/// number: stores the three components and touches nothing else.
#[verifier::external_body]
pub(crate) fn set_color(layer: &mut Layer, red: u8, green: u8, blue: u8)
    ensures
        layer_node(*final(layer)) == (Node { color: (red, green, blue), ..layer_node(*old(layer)) }),
        layer_children(*final(layer)) == layer_children(*old(layer)),
        layer_needs_update(*final(layer)) == layer_needs_update(*old(layer)),
{
    layer.set_color(red.into(), green.into(), blue.into())
}

/// `Layer::add_sub_layer`: the child becomes the last sub-layer.
#[verifier::external_body]
pub(crate) fn add_sub_layer(layer: &mut Layer, child: Layer)
    ensures
        layer_children(*final(layer)) == layer_children(*old(layer)).push(layer_node(child)),
        layer_node(*final(layer)) == layer_node(*old(layer)),
        layer_needs_update(*final(layer)) == layer_needs_update(*old(layer)),
{
    layer.add_sub_layer(child)
}

/// `Vec::clear` on the public list `sub_layer_list`: no sub-layer is left.
#[verifier::external_body]
pub(crate) fn clear_sub_layers(layer: &mut Layer)
    ensures
        layer_children(*final(layer)) == Seq::<Node>::empty(),
        layer_node(*final(layer)) == layer_node(*old(layer)),
        layer_needs_update(*final(layer)) == layer_needs_update(*old(layer)),
{
    layer.sub_layer_list.clear()
}

/// Sets the public field `needs_update`, which the renderer reads before it
/// lays the layer out, and touches nothing else.
#[verifier::external_body]
pub(crate) fn request_layout(layer: &mut Layer)
    ensures
        layer_needs_update(*final(layer)),
        layer_node(*final(layer)) == layer_node(*old(layer)),
        layer_children(*final(layer)) == layer_children(*old(layer)),
{
    layer.needs_update = true;
}

/// `Vec::len` on the public list `sub_layer_list`.
#[verifier::external_body]
pub(crate) fn sub_layer_count(layer: &Layer) -> (count: usize)
    ensures
        count == layer_children(*layer).len(),
{
    layer.sub_layer_list.len()
}

/// What verified code reads of one sub-layer.
pub(crate) struct Attributes {
    pub name: String,
    pub x: i32,
    pub y: i32,
    pub width: u32,
    pub height: u32,
    pub rotation: i32,
}

impl Attributes {
    /// The attributes are those of `node`, colour aside.
    pub(crate) open spec fn shows(&self, node: Node) -> bool {
        &&& self.name@ == node.name
        &&& self.x == node.x
        &&& self.y == node.y
        &&& self.width == node.width
        &&& self.height == node.height
        &&& self.rotation == node.rotation
    }
}

/// Reads the public fields `name`, `x`, `y`, `width`, `height` and `rotation`
/// of the sub-layer at `index` in the public list `sub_layer_list`.
#[verifier::external_body]
pub(crate) fn sub_layer_at(layer: &Layer, index: usize) -> (attributes: Attributes)
    requires
        index < layer_children(*layer).len(),
    ensures
        attributes.shows(layer_children(*layer)[index as int]),
{
    let child = &layer.sub_layer_list[index];
    Attributes {
        name: child.name.clone(),
        x: child.x,
        y: child.y,
        width: child.width,
        height: child.height,
        rotation: child.rotation,
    }
}

} // verus!
