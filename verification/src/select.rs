//! Queue-family selection: given what the platform reports about each queue
//! family of a physical device, pick the family the demos run on. Both
//! selections take the first family that qualifies, in the order the
//! platform lists them.

use vstd::prelude::*;

verus! {

/// What the platform reports about one queue family, as plain values.
#[derive(Copy, Clone, Debug, PartialEq, Eq, Structural)]
pub struct QueueFamilySupport {
    /// The family supports graphics operations.
    pub graphics: bool,
    /// The family can present to the surface being rendered to.
    pub surface: bool,
}

/// A queue family the render loop can run on: it must support graphics
/// operations and be able to present to the surface.
pub open spec fn render_candidate(f: QueueFamilySupport) -> bool {
    f.graphics && f.surface
}

/// Index `i` is the first entry of `graphics` that is set.
pub open spec fn is_first_graphics_family(graphics: Seq<bool>, i: int) -> bool {
    &&& 0 <= i < graphics.len()
    &&& graphics[i]
    &&& forall|j: int| 0 <= j < i ==> !graphics[j]
}

/// Some entry of `graphics` is set.
pub open spec fn has_graphics_family(graphics: Seq<bool>) -> bool {
    exists|j: int| 0 <= j < graphics.len() && graphics[j]
}

/// Index of the first queue family that supports graphics operations, or
/// `None` when no family does.
pub fn first_graphics_family(graphics: &Vec<bool>) -> (r: Option<usize>)
    ensures
        match r {
            Some(i) => is_first_graphics_family(graphics@, i as int),
            None => !has_graphics_family(graphics@),
        },
{
    let mut i: usize = 0;
    while i < graphics.len()
        invariant
            i <= graphics@.len(),
            forall|j: int| 0 <= j < i ==> !graphics@[j],
        decreases graphics@.len() - i,
    {
        if graphics[i] {
            return Some(i);
        }
        i = i + 1;
    }
    None
}

/// Index of the first queue family that can drive the render loop (graphics
/// support and surface support), or `None` when no family qualifies.
pub fn rendering_queue_family(families: &Vec<QueueFamilySupport>) -> (r: Option<usize>)
    ensures
        match r {
            Some(i) => i < families@.len() && render_candidate(families@[i as int]) && forall|
                j: int,
            | 0 <= j < i ==> !render_candidate(families@[j]),
            None => forall|j: int| 0 <= j < families@.len() ==> !render_candidate(families@[j]),
        },
{
    let mut i: usize = 0;
    while i < families.len()
        invariant
            i <= families@.len(),
            forall|j: int| 0 <= j < i ==> !render_candidate(families@[j]),
        decreases families@.len() - i,
    {
        let f = families[i];
        if f.graphics && f.surface {
            return Some(i);
        }
        i = i + 1;
    }
    None
}

} // verus!
