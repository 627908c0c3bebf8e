//! Filling the frame: each cell's colour comes from its own escape outcome
//! alone, so the cells are shaded in parallel and gathered in row-major
//! order.

use vstd::prelude::*;

use rayon::iter::{IndexedParallelIterator, IntoParallelRefIterator, ParallelIterator};

use crate::buffer::{flatten, nest, PixelBuffer};
use crate::gate::RenderGate;
use crate::pixel::{escape_within, shade, Pixel};

verus! {

/// Width of the frame, in pixels.
pub const WIDTH: usize = 1920;

/// Height of the frame, in pixels.
pub const HEIGHT: usize = 1080;

/// Every escape outcome fits the iteration cap.
pub open spec fn all_within(escapes: Seq<Option<u32>>, cap: u32) -> bool {
    forall|i: int| 0 <= i < escapes.len() ==> escape_within(#[trigger] escapes[i], cap)
}

/// The colours of a sequence of escape outcomes, cell by cell.
pub open spec fn shaded(escapes: Seq<Option<u32>>, cap: u32) -> Seq<Pixel> {
    escapes.map_values(|e: Option<u32>| shade(e, cap))
}

/// The frame's bytes for the escape outcomes of its cells, in row-major
/// order.
pub open spec fn frame_of(escapes: Seq<Option<u32>>, cap: u32) -> Seq<u8> {
    flatten(shaded(escapes, cap))
}

/// Column and row of the cell with row-major index `idx`.
pub fn grid_position(idx: usize) -> (pos: (usize, usize))
    ensures
        pos == (idx % WIDTH, idx / WIDTH),
{
    (idx % WIDTH, idx / WIDTH)
}

/// Relies on rayon's `par_iter`, `map` and `collect_into_vec`: the indexed
/// parallel map keeps the order of its items, and `collect_into_vec` clears
/// `target` and then holds exactly the mapped items, in that order.
#[verifier::external_body]
fn shade_into(escapes: &Vec<Option<u32>>, cap: u32, target: &mut Vec<Pixel>)
    requires
        all_within(escapes@, cap),
    ensures
        final(target)@ == shaded(escapes@, cap),
{
    escapes.par_iter().map(|e| Pixel::from_escape(*e, cap)).collect_into_vec(target);
}

/// Brings the frame up to date. With a dirty gate every cell is shaded from
/// its escape outcome and the render gate becomes clean; with a clean one nothing
/// changes.
pub fn recompute(
    buffer: &mut PixelBuffer,
    gate: &mut RenderGate,
    escapes: &Vec<Option<u32>>,
    cap: u32,
)
    requires
        old(buffer).is_held(),
        old(buffer).bytes().len() == 4 * escapes@.len(),
        all_within(escapes@, cap),
    ensures
        *old(gate) == RenderGate::Dirty ==> final(buffer).data() == Some(frame_of(escapes@, cap)),
        *old(gate) == RenderGate::Clean ==> *final(buffer) == *old(buffer),
        *final(gate) == RenderGate::Clean,
        final(buffer).row_len() == old(buffer).row_len(),
{
    if gate.needs_recompute() {
        proof {
            buffer.lemma_bytes_fit();
        }
        let mut set = buffer.take();
        shade_into(escapes, cap, &mut set);
        buffer.replace(set);
        gate.mark_clean();
    }
}

/// Recomputing is deterministic: the frame that a recompute leaves holds
/// nothing of the storage's earlier contents, so any two recomputes from the
/// same escape outcomes and cap leave the same bytes, and the cell with
/// row-major index `idx` holds the colour of its own outcome.
pub proof fn lemma_recompute_deterministic(
    first: PixelBuffer,
    second: PixelBuffer,
    escapes: Seq<Option<u32>>,
    cap: u32,
    idx: int,
)
    requires
        first.data() == Some(frame_of(escapes, cap)),
        second.data() == Some(frame_of(escapes, cap)),
        0 <= idx < escapes.len(),
    ensures
        first.bytes() == second.bytes(),
        nest(first.bytes())[idx] == shade(escapes[idx], cap),
{
    crate::buffer::lemma_nest_flatten(shaded(escapes, cap));
}

} // verus!
