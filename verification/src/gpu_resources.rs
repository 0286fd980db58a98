use vstd::prelude::*;
use crate::compute::{dispatch_result, next_state, spec_dispatch_count, lemma_covering_dispatch};
use crate::constants::{COLS, INDICES, ROWS};
use crate::game_data::{StateBuffers, dead_cells};
use crate::uniforms::ComputeUniforms;

verus! {

/// What the swapped pair of state buffers holds: the current generation,
/// what the next compute dispatch overwrites, and the grid they are laid
/// out for.
#[verifier::ext_equal]
pub struct Resources {
    pub current: Seq<u32>,
    pub next: Seq<u32>,
    pub rows: u32,
    pub cols: u32,
    pub num_indices: u32,
}

impl Resources {
    /// Both buffers hold one word for each cell of the grid.
    pub open spec fn wf(self) -> bool {
        &&& self.current.len() == self.rows * self.cols
        &&& self.next.len() == self.current.len()
    }

    /// The pair with the two buffers exchanged.
    pub open spec fn swapped(self) -> Resources {
        Resources { current: self.next, next: self.current, ..self }
    }

    /// The pair after a compute dispatch of `groups_x` by `groups_y`
    /// workgroups: the current buffer is as it was, the next one holds what
    /// the dispatch wrote.
    pub open spec fn dispatched(self, groups_x: int, groups_y: int) -> Resources {
        Resources {
            next: dispatch_result(
                self.current,
                self.next,
                self.rows as int,
                self.cols as int,
                groups_x,
                groups_y,
            ),
            ..self
        }
    }

    /// The pair that flagged buffers stand for: their current buffer and
    /// their next target.
    pub open spec fn of(buffers: StateBuffers, num_indices: u32) -> Resources {
        Resources {
            current: buffers.current(),
            next: buffers.next_target(),
            rows: buffers.rows,
            cols: buffers.cols,
            num_indices,
        }
    }
}

/// Exchanging the buffers and flipping a flag are the same protocol: a
/// dispatch and a swap on the pair that flagged buffers stand for gives the
/// pair that the stepped flagged buffers stand for. Two swaps give the pair
/// back.
pub proof fn lemma_swap_strategies_agree(
    buffers: StateBuffers,
    num_indices: u32,
    groups_x: int,
    groups_y: int,
)
    ensures
        Resources::of(buffers, num_indices).dispatched(groups_x, groups_y).swapped()
            == Resources::of(buffers.stepped(groups_x, groups_y), num_indices),
        Resources::of(buffers, num_indices).swapped() == Resources::of(
            buffers.swapped(),
            num_indices,
        ),
        Resources::of(buffers, num_indices).swapped().swapped() == Resources::of(
            buffers,
            num_indices,
        ),
{
}

/// The state buffers of a renderer that exchanges its buffers after each
/// step, for the built-in grid of `ROWS` by `COLS` cells.
pub struct GpuResources {
    pub compute_uniform: ComputeUniforms,
    pub current_state_buffer: Vec<u32>,
    pub next_state_buffer: Vec<u32>,
    pub num_indices: u32,
}

impl View for GpuResources {
    type V = Resources;

    open spec fn view(&self) -> Resources {
        Resources {
            current: self.current_state_buffer@,
            next: self.next_state_buffer@,
            rows: self.compute_uniform.spec_rows(),
            cols: self.compute_uniform.spec_cols(),
            num_indices: self.num_indices,
        }
    }
}

impl GpuResources {
    /// What new buffers hold for `initial_state`: the current buffer holds
    /// it, the next buffer is as long and holds no live cell.
    pub open spec fn new_view(initial_state: Seq<u32>) -> Resources {
        Resources {
            current: initial_state,
            next: dead_cells(initial_state.len()),
            rows: ROWS as u32,
            cols: COLS as u32,
            num_indices: 6,
        }
    }

    /// The buffers for `initial_state`, laid out for the built-in grid.
    pub fn new(initial_state: &[u32]) -> (resources: Self)
        ensures
            resources@ == Self::new_view(initial_state@),
    {
        let mut current_state_buffer: Vec<u32> = Vec::new();
        let mut next_state_buffer: Vec<u32> = Vec::new();
        let mut i: usize = 0;
        while i < initial_state.len()
            invariant
                i <= initial_state.len(),
                current_state_buffer@ == initial_state@.take(i as int),
                next_state_buffer@ == dead_cells(i as nat),
            decreases initial_state.len() - i,
        {
            current_state_buffer.push(initial_state[i]);
            next_state_buffer.push(0);
            i = i + 1;
            assert(current_state_buffer@ =~= initial_state@.take(i as int));
            assert(next_state_buffer@ =~= dead_cells(i as nat));
        }
        assert(initial_state@.take(i as int) =~= initial_state@);
        Self {
            compute_uniform: ComputeUniforms::new(),
            current_state_buffer,
            next_state_buffer,
            num_indices: INDICES.len() as u32,
        }
    }

    /// Exchanges the two buffers: what the last dispatch wrote becomes the
    /// current generation, and the old one is what the next dispatch
    /// overwrites.
    pub fn swap_buffers(&mut self)
        ensures
            final(self)@ == old(self)@.swapped(),
    {
        core::mem::swap(&mut self.current_state_buffer, &mut self.next_state_buffer);
    }
}

/// A step of exchanged buffers with a dispatch that covers the grid makes
/// the next generation current.
pub proof fn lemma_swapped_step(resources: Resources, groups_x: int, groups_y: int)
    requires
        resources.wf(),
        groups_x >= spec_dispatch_count(resources.cols as int),
        groups_y >= spec_dispatch_count(resources.rows as int),
    ensures
        resources.dispatched(groups_x, groups_y).swapped().wf(),
        resources.dispatched(groups_x, groups_y).swapped().current == next_state(
            resources.current,
            resources.rows as int,
            resources.cols as int,
        ),
        resources.dispatched(groups_x, groups_y).swapped().next == resources.current,
{
    lemma_covering_dispatch(
        resources.current,
        resources.next,
        resources.rows as int,
        resources.cols as int,
        groups_x,
        groups_y,
    );
}

} // verus!
