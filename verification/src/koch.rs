//! The refinement step: every segment becomes a chain of four.

use crate::geometry::{Division, Geometry, Segment};
use crate::lines::{LineNode, Placement};
use stretch::geometry::Point;
use vstd::prelude::*;

verus! {

/// The four segments that replace one divided segment, in order:
/// start to first third, first third to apex, apex to second third,
/// second third to end.
pub open spec fn chain<T: Copy>(d: Division<T>, pick_first: bool) -> Seq<Segment<T>> {
    seq![
        Segment { start: d.segment.start, end: d.first_third },
        Segment { start: d.first_third, end: d.apex(pick_first) },
        Segment { start: d.apex(pick_first), end: d.second_third },
        Segment { start: d.second_third, end: d.segment.end },
    ]
}

/// One refinement of a whole list: the chains of the divisions, one after the
/// other, the `i`-th built with the `i`-th choice.
pub open spec fn refined<T: Copy>(divisions: Seq<Division<T>>, choices: Seq<bool>) -> Seq<
    Segment<T>,
> {
    Seq::new(4 * divisions.len(), |k: int| chain(divisions[k / 4], choices[k / 4])[k % 4])
}

/// Refines with the given choices, one for each division. There is a result
/// exactly when there are as many choices as divisions.
pub fn refine<T: Copy>(divisions: &Vec<Division<T>>, choices: &Vec<bool>) -> (out: Option<
    Vec<Segment<T>>,
>)
    ensures
        out.is_some() <==> choices.len() == divisions.len(),
        out matches Some(segments) ==> segments@ == refined(divisions@, choices@),
{
    if choices.len() == divisions.len() {
        Some(refine_each(divisions, choices))
    } else {
        None
    }
}

/// The refinement itself, where every division has its choice.
fn refine_each<T: Copy>(divisions: &Vec<Division<T>>, choices: &Vec<bool>) -> (segments: Vec<
    Segment<T>,
>)
    requires
        choices.len() == divisions.len(),
    ensures
        segments@ == refined(divisions@, choices@),
{
    let mut segments: Vec<Segment<T>> = Vec::new();
    let mut i: usize = 0;
    while i < divisions.len()
        invariant
            i <= divisions.len(),
            choices.len() == divisions.len(),
            segments@.len() == 4 * i,
            forall|k: int|
                0 <= k < 4 * i ==> segments@[k] == chain(divisions@[k / 4], choices@[k / 4])[k
                    % 4],
        decreases divisions.len() - i,
    {
        let d = &divisions[i];
        let apex = d.apex(choices[i]);
        segments.push(Segment { start: d.segment.start, end: d.first_third });
        segments.push(Segment { start: d.first_third, end: apex });
        segments.push(Segment { start: apex, end: d.second_third });
        segments.push(Segment { start: d.second_third, end: d.segment.end });
        i += 1;
    }
    assert(segments@ =~= refined(divisions@, choices@));
    segments
}

/// `rand::random::<bool>()`: one toss of a coin, drawn from the generator of
/// the running thread. Nothing is claimed of the outcome. The generator is
/// seeded from the operating system when a thread first draws from it; where
/// that fails the program ends there, before any command has changed a scene.
#[verifier::external_body]
fn toss() -> bool {
    rand::random()
}

/// Draws one choice for each of `count` segments.
pub fn random_choices(count: usize) -> (choices: Vec<bool>)
    ensures
        choices.len() == count,
{
    let mut choices: Vec<bool> = Vec::new();
    let mut i: usize = 0;
    while i < count
        invariant
            i <= count,
            choices.len() == i,
        decreases count - i,
    {
        choices.push(toss());
        i += 1;
    }
    choices
}

/// Refines with a freshly drawn choice for every division. Whatever was
/// drawn, the result is the refinement under some list of choices, one for
/// each division.
pub fn refine_at_random<T: Copy>(divisions: &Vec<Division<T>>) -> (out: Vec<Segment<T>>)
    ensures
        exists|choices: Seq<bool>|
            choices.len() == divisions.len() && out@ == #[trigger] refined(divisions@, choices),
{
    let choices = random_choices(divisions.len());
    refine_each(divisions, &choices)
}

impl<
    T: Copy,
    R: Fn(u32) -> Point<T>,
    E: Fn(LineNode) -> Segment<T>,
    B: Fn(Point<T>, Point<T>, u32, u32) -> Point<T>,
    C: Fn(Point<T>, Point<T>) -> (Point<T>, Point<T>),
    P: Fn(Segment<T>) -> Placement,
> Geometry<R, E, B, C, P> {
    /// `out` is one refinement of `segments` under `choices`: every segment
    /// was divided, and `out` holds the chains of the divisions, one after
    /// the other, the `i`-th built with the `i`-th choice.
    pub open spec fn refines(
        &self,
        segments: Seq<Segment<T>>,
        choices: Seq<bool>,
        out: Seq<Segment<T>>,
    ) -> bool {
        exists|divisions: Seq<Division<T>>|
            {
                &&& divisions.len() == segments.len()
                &&& forall|i: int|
                    0 <= i < segments.len() ==> self.divides(segments[i], #[trigger] divisions[i])
                &&& out == #[trigger] refined(divisions, choices)
            }
    }

    /// Divides every segment, in order.
    pub fn divide_each(&self, segments: &Vec<Segment<T>>) -> (divisions: Vec<Division<T>>)
        requires
            self.usable(),
        ensures
            divisions.len() == segments.len(),
            forall|i: int|
                0 <= i < segments.len() ==> self.divides(segments@[i], #[trigger] divisions@[i]),
    {
        let mut divisions: Vec<Division<T>> = Vec::new();
        let mut i: usize = 0;
        while i < segments.len()
            invariant
                i <= segments.len(),
                divisions.len() == i,
                self.usable(),
                forall|j: int| 0 <= j < i ==> self.divides(segments@[j], #[trigger] divisions@[j]),
            decreases segments.len() - i,
        {
            divisions.push(self.divide(segments[i]));
            i += 1;
        }
        divisions
    }

    /// One refinement with the given choices, one for each segment: each
    /// segment is divided and replaced by its chain of four. There is a
    /// result exactly when there are as many choices as segments.
    pub fn refine(&self, segments: &Vec<Segment<T>>, choices: &Vec<bool>) -> (out: Option<
        Vec<Segment<T>>,
    >)
        requires
            self.usable(),
        ensures
            out.is_some() <==> choices.len() == segments.len(),
            out matches Some(refinement) ==> self.refines(segments@, choices@, refinement@),
    {
        if choices.len() == segments.len() {
            let divisions = self.divide_each(segments);
            Some(refine_each(&divisions, choices))
        } else {
            None
        }
    }

    /// One refinement with a freshly drawn choice for every segment.
    /// Whatever was drawn, the result is a refinement under some list of
    /// choices, one for each segment.
    pub fn refine_at_random(&self, segments: &Vec<Segment<T>>) -> (out: Vec<Segment<T>>)
        requires
            self.usable(),
        ensures
            exists|choices: Seq<bool>|
                choices.len() == segments.len() && #[trigger] self.refines(
                    segments@,
                    choices,
                    out@,
                ),
    {
        let choices = random_choices(segments.len());
        let divisions = self.divide_each(segments);
        let out = refine_each(&divisions, &choices);
        assert(self.refines(segments@, choices@, out@));
        out
    }

    /// Cardinality: a refinement of `n` segments holds `4 * n` segments.
    pub proof fn lemma_refines_len(
        &self,
        segments: Seq<Segment<T>>,
        choices: Seq<bool>,
        out: Seq<Segment<T>>,
    )
        requires
            self.refines(segments, choices, out),
        ensures
            out.len() == 4 * segments.len(),
    {
    }

    /// Endpoints are kept: in a refinement the chain of the `i`-th segment
    /// begins where that segment began and ends where it ended.
    pub proof fn lemma_refines_keeps_endpoints(
        &self,
        segments: Seq<Segment<T>>,
        choices: Seq<bool>,
        out: Seq<Segment<T>>,
        i: int,
    )
        requires
            self.refines(segments, choices, out),
            0 <= i < segments.len(),
        ensures
            out[4 * i].start == segments[i].start,
            out[4 * i + 3].end == segments[i].end,
    {
        let divisions = choose|divisions: Seq<Division<T>>|
            {
                &&& divisions.len() == segments.len()
                &&& forall|i: int|
                    0 <= i < segments.len() ==> self.divides(segments[i], #[trigger] divisions[i])
                &&& out == #[trigger] refined(divisions, choices)
            };
        lemma_refined_keeps_endpoints(divisions, choices, i);
        assert(self.divides(segments[i], divisions[i]));
    }

    /// Continuity: in a refinement the four segments that replace the `i`-th
    /// segment follow one another, each beginning where the one before it
    /// ended.
    pub proof fn lemma_refines_is_contiguous(
        &self,
        segments: Seq<Segment<T>>,
        choices: Seq<bool>,
        out: Seq<Segment<T>>,
        i: int,
    )
        requires
            self.refines(segments, choices, out),
            0 <= i < segments.len(),
        ensures
            out[4 * i].end == out[4 * i + 1].start,
            out[4 * i + 1].end == out[4 * i + 2].start,
            out[4 * i + 2].end == out[4 * i + 3].start,
    {
        let divisions = choose|divisions: Seq<Division<T>>|
            {
                &&& divisions.len() == segments.len()
                &&& forall|i: int|
                    0 <= i < segments.len() ==> self.divides(segments[i], #[trigger] divisions[i])
                &&& out == #[trigger] refined(divisions, choices)
            };
        lemma_refined_is_contiguous(divisions, choices, i);
    }
}

/// A refinement holds four segments for each segment that went in.
pub proof fn lemma_refined_len<T: Copy>(divisions: Seq<Division<T>>, choices: Seq<bool>)
    ensures
        refined(divisions, choices).len() == 4 * divisions.len(),
{
}

/// The chain that replaces the `i`-th segment stands at positions `4 * i` to
/// `4 * i + 3`, so the order of the segments that went in is kept.
pub proof fn lemma_refined_chain_at<T: Copy>(
    divisions: Seq<Division<T>>,
    choices: Seq<bool>,
    i: int,
)
    requires
        0 <= i < divisions.len(),
    ensures
        refined(divisions, choices).subrange(4 * i, 4 * i + 4) == chain(divisions[i], choices[i]),
{
    let r = refined(divisions, choices);
    let c = chain(divisions[i], choices[i]);
    assert forall|j: int| 0 <= j < 4 implies #[trigger] r[4 * i + j] == c[j] by {
        assert((4 * i + j) / 4 == i);
        assert((4 * i + j) % 4 == j);
    }
    assert(r.subrange(4 * i, 4 * i + 4) =~= c);
}

/// Endpoints are kept: the chain of the `i`-th segment begins where that
/// segment began and ends where it ended.
pub proof fn lemma_refined_keeps_endpoints<T: Copy>(
    divisions: Seq<Division<T>>,
    choices: Seq<bool>,
    i: int,
)
    requires
        0 <= i < divisions.len(),
    ensures
        refined(divisions, choices)[4 * i].start == divisions[i].segment.start,
        refined(divisions, choices)[4 * i + 3].end == divisions[i].segment.end,
{
    assert((4 * i) / 4 == i && (4 * i) % 4 == 0);
    assert((4 * i + 3) / 4 == i && (4 * i + 3) % 4 == 3);
}

/// Continuity: within the chain of the `i`-th segment each segment begins
/// where the one before it ended.
pub proof fn lemma_refined_is_contiguous<T: Copy>(
    divisions: Seq<Division<T>>,
    choices: Seq<bool>,
    i: int,
)
    requires
        0 <= i < divisions.len(),
    ensures
        refined(divisions, choices)[4 * i].end == refined(divisions, choices)[4 * i + 1].start,
        refined(divisions, choices)[4 * i + 1].end == refined(divisions, choices)[4 * i + 2].start,
        refined(divisions, choices)[4 * i + 2].end == refined(divisions, choices)[4 * i + 3].start,
{
    assert((4 * i) / 4 == i && (4 * i) % 4 == 0);
    assert((4 * i + 1) / 4 == i && (4 * i + 1) % 4 == 1);
    assert((4 * i + 2) / 4 == i && (4 * i + 2) % 4 == 2);
    assert((4 * i + 3) / 4 == i && (4 * i + 3) % 4 == 3);
}

/// With the choices fixed a refinement is determined by what went in: two
/// runs over divisions that agree, under choices that agree on every
/// division, give the same segments.
pub proof fn lemma_refined_is_determined<T: Copy>(
    divisions: Seq<Division<T>>,
    first: Seq<bool>,
    second: Seq<bool>,
)
    requires
        forall|i: int| 0 <= i < divisions.len() ==> first[i] == second[i],
    ensures
        refined(divisions, first) == refined(divisions, second),
{
    assert(refined(divisions, first) =~= refined(divisions, second));
}

} // verus!
