//! The two commands, carried out on a scene with the caller's geometry.

use crate::geometry::{Geometry, Segment, SEED_SIDE};
use crate::lines::{
    drawn, lemma_drawn_counts, lemma_seeded_counts, line_count, line_nodes, lines_in,
    marker_count, rebuild, seed, LineNode, Placement,
};
use crate::scene::{layer_children, layer_needs_update, layer_node, Node};
use rust_animation::layer::Layer;
use stretch::geometry::Point;
use vstd::prelude::*;

verus! {

impl<
    T: Copy,
    R: Fn(u32) -> Point<T>,
    E: Fn(LineNode) -> Segment<T>,
    B: Fn(Point<T>, Point<T>, u32, u32) -> Point<T>,
    C: Fn(Point<T>, Point<T>) -> (Point<T>, Point<T>),
    P: Fn(Segment<T>) -> Placement,
> Geometry<R, E, B, C, P> {
    /// `after` is a scene seeded anew: two points were drawn from the seed
    /// square, first the start and then the end, the segment between them
    /// was placed, and `after` holds its two markers and its line and
    /// nothing else.
    pub open spec fn seeded(&self, after: Layer) -> bool {
        exists|start: Point<T>, end: Point<T>, placement: Placement|
            {
                &&& self.random_point.ensures((SEED_SIDE,), start)
                &&& self.random_point.ensures((SEED_SIDE,), end)
                &&& #[trigger] self.place.ensures((Segment { start, end },), placement)
                &&& layer_children(after) == placement.nodes()
            }
    }

    /// `after` is `before` advanced by one refinement: the endpoints of every
    /// sound line of `before` were reconstructed, the segments were refined
    /// under some choices, every segment that came out was placed, and
    /// `after` holds the layers of these placements, in their order, and
    /// nothing else.
    pub open spec fn advanced(&self, before: Layer, after: Layer) -> bool {
        let lines = lines_in(layer_children(before));
        exists|
            segments: Seq<Segment<T>>,
            choices: Seq<bool>,
            out: Seq<Segment<T>>,
            placements: Seq<Placement>,
        |
            #![trigger self.refines(segments, choices, out), drawn(placements)]
            {
                &&& segments.len() == lines.len()
                &&& forall|i: int|
                    0 <= i < lines.len() ==> self.endpoints.ensures(
                        (lines[i],),
                        #[trigger] segments[i],
                    )
                &&& choices.len() == lines.len()
                &&& self.refines(segments, choices, out)
                &&& placements.len() == out.len()
                &&& forall|k: int|
                    0 <= k < out.len() ==> self.place.ensures((out[k],), #[trigger] placements[k])
                &&& layer_children(after) == drawn(placements)
            }
    }

    /// Throws away what the scene held and starts from one segment between
    /// two points drawn from the seed square; asks for layout.
    pub fn seed(&self, layer: &mut Layer)
        requires
            self.usable(),
        ensures
            self.seeded(*final(layer)),
            layer_node(*final(layer)) == layer_node(*old(layer)),
            layer_needs_update(*final(layer)),
    {
        let start = (self.random_point)(SEED_SIDE);
        let end = (self.random_point)(SEED_SIDE);
        let placement = (self.place)(Segment { start, end });
        seed(layer, &placement);
    }

    /// Replaces every sound line of the scene by its chain of four, each
    /// with its bump on a side drawn at random, and asks for layout. Markers,
    /// lines of length zero and other layers are dropped; a scene without
    /// sound lines is left empty.
    pub fn advance(&self, layer: &mut Layer)
        requires
            self.usable(),
        ensures
            self.advanced(*old(layer), *final(layer)),
            layer_node(*final(layer)) == layer_node(*old(layer)),
            layer_needs_update(*final(layer)),
    {
        let lines = line_nodes(layer);
        proof {
            lemma_lines_are_sound(layer_children(*layer));
        }
        let mut segments: Vec<Segment<T>> = Vec::new();
        let mut i: usize = 0;
        while i < lines.len()
            invariant
                i <= lines.len(),
                segments.len() == i,
                self.usable(),
                forall|j: int| 0 <= j < lines.len() ==> (#[trigger] lines@[j]).height > 0,
                forall|j: int|
                    0 <= j < i ==> self.endpoints.ensures((lines@[j],), #[trigger] segments@[j]),
            decreases lines.len() - i,
        {
            segments.push((self.endpoints)(lines[i]));
            i += 1;
        }
        let out = self.refine_at_random(&segments);
        let ghost choices = choose|choices: Seq<bool>|
            choices.len() == segments.len() && #[trigger] self.refines(segments@, choices, out@);
        let mut placements: Vec<Placement> = Vec::new();
        let mut k: usize = 0;
        while k < out.len()
            invariant
                k <= out.len(),
                placements.len() == k,
                self.usable(),
                forall|j: int|
                    0 <= j < k ==> self.place.ensures((out@[j],), #[trigger] placements@[j]),
            decreases out.len() - k,
        {
            placements.push((self.place)(out[k]));
            k += 1;
        }
        rebuild(layer, &placements);
        assert(self.refines(segments@, choices, out@) && layer_children(*layer) == drawn(
            placements@,
        ));
    }

    /// Seeding leaves exactly one line and two markers, whatever the scene
    /// held before and whatever points were drawn; so seeding twice in a row
    /// leaves one line and two markers as well.
    pub proof fn lemma_seeded_scene(&self, after: Layer)
        requires
            self.seeded(after),
        ensures
            layer_children(after).len() == 3,
            line_count(layer_children(after)) == 1,
            marker_count(layer_children(after)) == 2,
    {
        let (start, end, placement) = choose|start: Point<T>, end: Point<T>, placement: Placement|
            {
                &&& self.random_point.ensures((SEED_SIDE,), start)
                &&& self.random_point.ensures((SEED_SIDE,), end)
                &&& #[trigger] self.place.ensures((Segment { start, end },), placement)
                &&& layer_children(after) == placement.nodes()
            };
        lemma_seeded_counts(placement);
    }

    /// One advance quadruples the lines: a scene with `n` sound lines holds
    /// `4 * n` lines and `8 * n` markers afterwards, and nothing else.
    pub proof fn lemma_advanced_scene(&self, before: Layer, after: Layer)
        requires
            self.advanced(before, after),
        ensures
            layer_children(after).len() == 12 * lines_in(layer_children(before)).len(),
            line_count(layer_children(after)) == 4 * lines_in(layer_children(before)).len(),
            marker_count(layer_children(after)) == 8 * lines_in(layer_children(before)).len(),
    {
        let lines = lines_in(layer_children(before));
        let (segments, choices, out, placements) = choose|
            segments: Seq<Segment<T>>,
            choices: Seq<bool>,
            out: Seq<Segment<T>>,
            placements: Seq<Placement>,
        |
            #![trigger self.refines(segments, choices, out), drawn(placements)]
            {
                &&& segments.len() == lines.len()
                &&& forall|i: int|
                    0 <= i < lines.len() ==> self.endpoints.ensures(
                        (lines[i],),
                        #[trigger] segments[i],
                    )
                &&& choices.len() == lines.len()
                &&& self.refines(segments, choices, out)
                &&& placements.len() == out.len()
                &&& forall|k: int|
                    0 <= k < out.len() ==> self.place.ensures((out[k],), #[trigger] placements[k])
                &&& layer_children(after) == drawn(placements)
            };
        self.lemma_refines_len(segments, choices, out);
        lemma_drawn_counts(placements);
    }

    /// Advancing a scene without sound lines is no error: it leaves the
    /// scene empty.
    pub proof fn lemma_advanced_empty(&self, before: Layer, after: Layer)
        requires
            self.advanced(before, after),
            lines_in(layer_children(before)).len() == 0,
        ensures
            layer_children(after) == Seq::<Node>::empty(),
    {
        self.lemma_advanced_scene(before, after);
        assert(layer_children(after) =~= Seq::<Node>::empty());
    }
}

/// Every line that is read from a scene is longer than zero.
pub proof fn lemma_lines_are_sound(nodes: Seq<Node>)
    ensures
        forall|i: int| 0 <= i < lines_in(nodes).len() ==> (#[trigger] lines_in(nodes)[i]).height > 0,
{
    let sound = |n: Node| n.is_sound_line();
    let kept = nodes.filter(sound);
    assert forall|i: int| 0 <= i < lines_in(nodes).len() implies (#[trigger] lines_in(
        nodes,
    )[i]).height > 0 by {
        nodes.lemma_filter_pred(sound, i);
        assert(sound(kept[i]));
    }
}

} // verus!
