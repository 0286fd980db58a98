use vstd::prelude::*;
use rand::rngs::ThreadRng;
use crate::compute::{
    ComputePass, all_dead, dispatch_result, lemma_covering_dispatch, lemma_dead_grid_stays_dead,
    next_state, spec_dispatch_count,
};
use crate::config::AppConfig;
use crate::random::{drawn_with, random_state};

verus! {

/// Uniform block of the compute stage: the grid's dimensions, padded to the
/// sixteen bytes a uniform binding is aligned to.
#[derive(Copy, Clone, Debug)]
pub struct ComputeUniform {
    rows: u32,
    cols: u32,
    _pad: [u32; 2],
}

impl ComputeUniform {
    /// Rows the block announces to the compute stage.
    pub closed spec fn spec_rows(&self) -> u32 {
        self.rows
    }

    /// Columns the block announces to the compute stage.
    pub closed spec fn spec_cols(&self) -> u32 {
        self.cols
    }

    /// The four words of the block, in the order the GPU reads them.
    pub closed spec fn spec_words(&self) -> Seq<u32> {
        seq![self.rows, self.cols, self._pad[0], self._pad[1]]
    }

    pub fn new(rows: u32, cols: u32) -> (block: Self)
        ensures
            block.spec_rows() == rows,
            block.spec_cols() == cols,
            block.spec_words() == seq![rows, cols, 0u32, 0u32],
    {
        Self { rows, cols, _pad: [0, 0] }
    }

    #[verifier::when_used_as_spec(spec_rows)]
    pub fn rows(&self) -> (rows: u32)
        ensures
            rows == self.spec_rows(),
    {
        self.rows
    }

    #[verifier::when_used_as_spec(spec_cols)]
    pub fn cols(&self) -> (cols: u32)
        ensures
            cols == self.spec_cols(),
    {
        self.cols
    }

    /// The block as the words the GPU reads: the rows, the columns, and the
    /// padding.
    pub fn words(&self) -> (words: [u32; 4])
        ensures
            words@ == self.spec_words(),
            words@[0] == self.spec_rows(),
            words@[1] == self.spec_cols(),
    {
        [self.rows, self.cols, self._pad[0], self._pad[1]]
    }
}

/// One of the two state buffers.
#[derive(Copy, Clone, Debug, PartialEq, Eq, Structural)]
pub enum BufferHandle {
    A,
    B,
}

impl BufferHandle {
    /// The buffer that is not this one.
    pub open spec fn spec_other(self) -> BufferHandle {
        match self {
            BufferHandle::A => BufferHandle::B,
            BufferHandle::B => BufferHandle::A,
        }
    }

    /// The buffer that is not this one.
    #[verifier::when_used_as_spec(spec_other)]
    pub fn other(self) -> (handle: BufferHandle)
        ensures
            handle == self.spec_other(),
    {
        match self {
            BufferHandle::A => BufferHandle::B,
            BufferHandle::B => BufferHandle::A,
        }
    }
}

/// The bindings of the compute stage: the buffer it reads the current
/// generation from, and the buffer it writes the next one to.
#[derive(Copy, Clone, Debug, PartialEq, Eq, Structural)]
pub struct ComputeBindGroup {
    pub source: BufferHandle,
    pub target: BufferHandle,
}

/// The binding of the render stage: the buffer it reads cell states from.
#[derive(Copy, Clone, Debug, PartialEq, Eq, Structural)]
pub struct RenderBindGroup {
    pub source: BufferHandle,
}

/// `buffer` after `data` was written to it from its start: the cells that
/// `data` covers hold `data`, the others are as they were.
pub open spec fn overwritten(buffer: Seq<u32>, data: Seq<u32>) -> Seq<u32> {
    data + buffer.skip(data.len() as int)
}

/// `state` with the painted cells of `paint` brought to life: a cell is one
/// where `paint` marks it, and as it was elsewhere.
pub open spec fn merged(state: Seq<u32>, paint: Seq<u32>) -> Seq<u32> {
    Seq::new(
        state.len(),
        |i: int|
            if i < paint.len() && paint[i] != 0 {
                1u32
            } else {
                state[i]
            },
    )
}

/// A buffer of `len` dead cells.
pub open spec fn dead_cells(len: nat) -> Seq<u32> {
    Seq::new(len, |i: int| 0u32)
}

/// What the two state buffers hold, which of them is current, and the grid
/// they are laid out for.
#[verifier::ext_equal]
pub struct StateBuffers {
    pub a: Seq<u32>,
    pub b: Seq<u32>,
    pub is_a_current: bool,
    pub rows: u32,
    pub cols: u32,
}

impl StateBuffers {
    /// Both buffers hold one word for each cell of the grid.
    pub open spec fn wf(self) -> bool {
        &&& self.a.len() == self.rows * self.cols
        &&& self.b.len() == self.a.len()
    }

    /// The buffer that is current: the one that the render stage and the
    /// compute stage read.
    pub open spec fn read_current(self) -> BufferHandle {
        if self.is_a_current {
            BufferHandle::A
        } else {
            BufferHandle::B
        }
    }

    /// The buffer that the next compute dispatch writes: the one that is not
    /// current.
    pub open spec fn read_next_target(self) -> BufferHandle {
        self.read_current().spec_other()
    }

    /// What the buffer behind `handle` holds.
    pub open spec fn contents(self, handle: BufferHandle) -> Seq<u32> {
        match handle {
            BufferHandle::A => self.a,
            BufferHandle::B => self.b,
        }
    }

    /// The current generation.
    pub open spec fn current(self) -> Seq<u32> {
        self.contents(self.read_current())
    }

    /// What the next compute dispatch overwrites.
    pub open spec fn next_target(self) -> Seq<u32> {
        self.contents(self.read_next_target())
    }

    /// The buffers with their roles exchanged.
    pub open spec fn swapped(self) -> StateBuffers {
        StateBuffers { is_a_current: !self.is_a_current, ..self }
    }

    /// The buffers with buffer A made the current one.
    pub open spec fn rewound(self) -> StateBuffers {
        StateBuffers { is_a_current: true, ..self }
    }

    /// The buffers after `data` was written to both from their start.
    pub open spec fn written(self, data: Seq<u32>) -> StateBuffers {
        StateBuffers { a: overwritten(self.a, data), b: overwritten(self.b, data), ..self }
    }

    /// The buffers after the cells that `paint` marks were brought to life
    /// in both.
    pub open spec fn painted(self, paint: Seq<u32>) -> StateBuffers {
        StateBuffers { a: merged(self.a, paint), b: merged(self.b, paint), ..self }
    }

    /// The buffers after a compute dispatch of `groups_x` by `groups_y`
    /// workgroups: the current buffer is as it was, the other holds what the
    /// dispatch wrote.
    pub open spec fn dispatched(self, groups_x: int, groups_y: int) -> StateBuffers {
        let result = dispatch_result(
            self.current(),
            self.next_target(),
            self.rows as int,
            self.cols as int,
            groups_x,
            groups_y,
        );
        if self.is_a_current {
            StateBuffers { b: result, ..self }
        } else {
            StateBuffers { a: result, ..self }
        }
    }

    /// The buffers after one simulation step: a compute dispatch, then the
    /// swap of the roles.
    pub open spec fn stepped(self, groups_x: int, groups_y: int) -> StateBuffers {
        self.dispatched(groups_x, groups_y).swapped()
    }
}

/// After a merge a cell is alive exactly if it was alive before or is
/// painted. A second merge of the same paint changes nothing, nor does a
/// merge of an empty paint buffer.
pub proof fn lemma_merged_is_or(state: Seq<u32>, paint: Seq<u32>)
    ensures
        merged(state, paint).len() == state.len(),
        forall|i: int|
            0 <= i < state.len() ==> ((#[trigger] merged(state, paint)[i] != 0) <==> (state[i]
                != 0 || (i < paint.len() && paint[i] != 0))),
        merged(merged(state, paint), paint) == merged(state, paint),
        merged(state, dead_cells(paint.len())) == state,
{
    assert(merged(merged(state, paint), paint) =~= merged(state, paint));
    assert(merged(state, dead_cells(paint.len())) =~= state);
}

/// Swapping the roles twice leaves the designation as it was, and after one
/// swap the current buffer is the one that was the next target before.
pub proof fn lemma_swap_twice(buffers: StateBuffers)
    ensures
        buffers.swapped().swapped() == buffers,
        buffers.swapped().read_current() == buffers.read_next_target(),
        buffers.swapped().read_next_target() == buffers.read_current(),
        buffers.swapped().current() == buffers.next_target(),
        buffers.swapped().next_target() == buffers.current(),
{
}

/// A step with a dispatch that covers the grid makes the next generation
/// current and leaves the buffer that was current untouched. A grid
/// without live cells stays without live cells.
pub proof fn lemma_step(buffers: StateBuffers, groups_x: int, groups_y: int)
    requires
        buffers.wf(),
        groups_x >= spec_dispatch_count(buffers.cols as int),
        groups_y >= spec_dispatch_count(buffers.rows as int),
    ensures
        buffers.stepped(groups_x, groups_y).wf(),
        buffers.stepped(groups_x, groups_y).current() == next_state(
            buffers.current(),
            buffers.rows as int,
            buffers.cols as int,
        ),
        buffers.stepped(groups_x, groups_y).next_target() == buffers.current(),
        all_dead(buffers.current()) ==> buffers.stepped(groups_x, groups_y).current()
            == buffers.current(),
{
    lemma_covering_dispatch(
        buffers.current(),
        buffers.next_target(),
        buffers.rows as int,
        buffers.cols as int,
        groups_x,
        groups_y,
    );
    if all_dead(buffers.current()) {
        lemma_dead_grid_stays_dead(buffers.current(), buffers.rows as int, buffers.cols as int);
    }
}

/// Edits made outside the compute stage reach both buffers alike: a write
/// puts the same data at the start of both, a merge brings the same cells
/// to life in both, and buffers that were equal stay equal. So the edit is
/// there whichever buffer is current after the next swap.
pub proof fn lemma_edits_reach_both(buffers: StateBuffers, data: Seq<u32>)
    requires
        buffers.wf(),
        data.len() <= buffers.a.len(),
    ensures
        buffers.written(data).wf(),
        buffers.painted(data).wf(),
        buffers.written(data).current().take(data.len() as int) == data,
        buffers.written(data).swapped().current().take(data.len() as int) == data,
        data.len() == buffers.a.len() ==> buffers.written(data).a == data && buffers.written(
            data,
        ).b == data,
        buffers.a == buffers.b ==> buffers.written(data).a == buffers.written(data).b
            && buffers.painted(data).a == buffers.painted(data).b,
        forall|i: int|
            0 <= i < data.len() && data[i] != 0 ==> #[trigger] buffers.painted(data).a[i] != 0
                && buffers.painted(data).b[i] != 0,
{
    assert(overwritten(buffers.a, data).take(data.len() as int) =~= data);
    assert(overwritten(buffers.b, data).take(data.len() as int) =~= data);
    if data.len() == buffers.a.len() {
        assert(overwritten(buffers.a, data) =~= data);
        assert(overwritten(buffers.b, data) =~= data);
    }
}

/// Writes `data` to `buffer` from its start.
fn write_cells(buffer: &mut Vec<u32>, data: &[u32])
    requires
        data.len() <= old(buffer).len(),
    ensures
        final(buffer)@ == overwritten(old(buffer)@, data@),
{
    let mut i: usize = 0;
    while i < data.len()
        invariant
            i <= data.len() <= buffer.len(),
            buffer.len() == old(buffer).len(),
            forall|j: int| 0 <= j < i ==> #[trigger] buffer@[j] == data@[j],
            forall|j: int| i <= j < buffer.len() ==> #[trigger] buffer@[j] == old(buffer)@[j],
        decreases data.len() - i,
    {
        buffer.set(i, data[i]);
        i = i + 1;
    }
    assert(buffer@ =~= overwritten(old(buffer)@, data@));
}

/// Brings the cells that `paint` marks to life in `buffer`.
fn merge_cells(buffer: &mut Vec<u32>, paint: &[u32])
    ensures
        final(buffer)@ == merged(old(buffer)@, paint@),
{
    let mut i: usize = 0;
    while i < buffer.len() && i < paint.len()
        invariant
            buffer.len() == old(buffer).len(),
            forall|j: int|
                0 <= j < i && j < buffer.len() ==> #[trigger] buffer@[j] == merged(
                    old(buffer)@,
                    paint@,
                )[j],
            forall|j: int| i <= j < buffer.len() ==> #[trigger] buffer@[j] == old(buffer)@[j],
        decreases buffer.len() - i,
    {
        if paint[i] != 0 {
            buffer.set(i, 1);
        }
        i = i + 1;
    }
    assert(buffer@ =~= merged(old(buffer)@, paint@));
}

/// The two state buffers of the simulation and the flag that says which of
/// them is current. The render stage and the compute stage read the current
/// buffer; the compute stage writes the other one, which becomes current
/// when the roles are swapped.
pub struct GameData {
    pub rng: ThreadRng,
    pub game_state_buffer_a: Vec<u32>,
    pub game_state_buffer_b: Vec<u32>,
    pub is_a_current: bool,
    pub compute_uniform: ComputeUniform,
}

impl View for GameData {
    type V = StateBuffers;

    open spec fn view(&self) -> StateBuffers {
        StateBuffers {
            a: self.game_state_buffer_a@,
            b: self.game_state_buffer_b@,
            is_a_current: self.is_a_current,
            rows: self.compute_uniform.spec_rows(),
            cols: self.compute_uniform.spec_cols(),
        }
    }
}

impl GameData {
    /// Both buffers hold one word for each cell of the grid.
    pub open spec fn wf(&self) -> bool {
        self@.wf()
    }

    /// Whether both buffers hold one word for each cell of the grid.
    pub fn is_wf(&self) -> (ok: bool)
        ensures
            ok == self.wf(),
    {
        let rows: u64 = self.compute_uniform.rows() as u64;
        let cols: u64 = self.compute_uniform.cols() as u64;
        assert(rows * cols <= 0xffff_ffff * 0xffff_ffff) by (nonlinear_arith)
            requires
                0 <= rows <= 0xffff_ffff,
                0 <= cols <= 0xffff_ffff,
        ;
        self.game_state_buffer_a.len() as u64 == rows * cols && self.game_state_buffer_b.len()
            == self.game_state_buffer_a.len()
    }

    /// Allocates both buffers for the grid of `config` and seeds them with
    /// the same random state, each cell alive with the configured
    /// probability. Buffer A starts as the current one.
    pub fn new(config: &AppConfig) -> (data: Self)
        requires
            config.spec_num_elements() <= usize::MAX,
            config.init_rand_threshold.wf(),
        ensures
            data.wf(),
            data@.is_a_current,
            data@.rows == config.rows,
            data@.cols == config.cols,
            data@.b == data@.a,
            drawn_with(data@.a, config.init_rand_threshold),
    {
        let mut rng = rand::rng();
        let count: usize = config.num_elements() as usize;
        let current_state = random_state(&mut rng, count, &config.init_rand_threshold);
        let next_state = current_state.clone();
        Self {
            rng,
            game_state_buffer_a: current_state,
            game_state_buffer_b: next_state,
            is_a_current: true,
            compute_uniform: ComputeUniform::new(config.rows, config.cols),
        }
    }

    /// Overwrites the start of both buffers with `new_state`, so that the
    /// edit is there whichever buffer is current after the next swap. With
    /// one word for each cell this replaces the whole state.
    pub fn update_grid_state(&mut self, new_state: &[u32])
        requires
            new_state.len() <= old(self).game_state_buffer_a.len(),
            new_state.len() <= old(self).game_state_buffer_b.len(),
        ensures
            final(self)@ == old(self)@.written(new_state@),
            old(self).wf() ==> final(self).wf(),
    {
        write_cells(&mut self.game_state_buffer_a, new_state);
        write_cells(&mut self.game_state_buffer_b, new_state);
    }

    /// Kills every cell of the grid of `config` in both buffers.
    pub fn reset_grid_state(&mut self, config: &AppConfig)
        requires
            config.spec_num_elements() <= old(self).game_state_buffer_a.len(),
            config.spec_num_elements() <= old(self).game_state_buffer_b.len(),
        ensures
            final(self)@ == old(self)@.written(dead_cells(config.spec_num_elements() as nat)),
            old(self).wf() ==> final(self).wf(),
    {
        let count: usize = config.num_elements() as usize;
        let new_state: Vec<u32> = vec![0u32; count];
        assert(new_state@ =~= dead_cells(config.spec_num_elements() as nat));
        self.update_grid_state(new_state.as_slice());
    }

    /// Draws a fresh random state for the grid of `config`, each cell alive
    /// with the configured probability, and writes it to both buffers.
    /// Returns the state that was drawn.
    pub fn randomise_grid_state(&mut self, config: &AppConfig) -> (drawn: Vec<u32>)
        requires
            config.spec_num_elements() <= old(self).game_state_buffer_a.len(),
            config.spec_num_elements() <= old(self).game_state_buffer_b.len(),
            config.init_rand_threshold.wf(),
        ensures
            drawn@.len() == config.spec_num_elements(),
            drawn_with(drawn@, config.init_rand_threshold),
            final(self)@ == old(self)@.written(drawn@),
            old(self).wf() ==> final(self).wf(),
    {
        let count: usize = config.num_elements() as usize;
        let new_state = random_state(&mut self.rng, count, &config.init_rand_threshold);
        self.update_grid_state(new_state.as_slice());
        new_state
    }

    /// Brings the cells that `paint` marks to life in both buffers, so that
    /// they stay alive whichever buffer is current after the next swap.
    pub fn overlay_merge(&mut self, paint: &[u32])
        ensures
            final(self)@ == old(self)@.painted(paint@),
            old(self).wf() ==> final(self).wf(),
    {
        merge_cells(&mut self.game_state_buffer_a, paint);
        merge_cells(&mut self.game_state_buffer_b, paint);
    }

    /// The buffer that is current: the one the render stage and the compute
    /// stage read.
    pub fn read_current(&self) -> (handle: BufferHandle)
        ensures
            handle == self@.read_current(),
    {
        if self.is_a_current {
            BufferHandle::A
        } else {
            BufferHandle::B
        }
    }

    /// The buffer that the next compute dispatch writes: the one that is not
    /// current.
    pub fn read_next_target(&self) -> (handle: BufferHandle)
        ensures
            handle == self@.read_next_target(),
            handle != self@.read_current(),
    {
        self.read_current().other()
    }

    /// The bindings for the next compute dispatch: it reads the current
    /// buffer and writes the other.
    pub fn get_current_compute_bind_group(&self) -> (group: ComputeBindGroup)
        ensures
            group.source == self@.read_current(),
            group.target == self@.read_next_target(),
    {
        if self.is_a_current {
            ComputeBindGroup { source: BufferHandle::A, target: BufferHandle::B }
        } else {
            ComputeBindGroup { source: BufferHandle::B, target: BufferHandle::A }
        }
    }

    /// The binding for the render stage: it reads the current buffer.
    pub fn get_current_render_bind_group(&self) -> (group: RenderBindGroup)
        ensures
            group.source == self@.read_current(),
    {
        if self.is_a_current {
            RenderBindGroup { source: BufferHandle::A }
        } else {
            RenderBindGroup { source: BufferHandle::B }
        }
    }

    /// The cells of the buffer behind `handle`.
    pub fn cells(&self, handle: BufferHandle) -> (cells: &Vec<u32>)
        ensures
            cells@ == self@.contents(handle),
    {
        match handle {
            BufferHandle::A => &self.game_state_buffer_a,
            BufferHandle::B => &self.game_state_buffer_b,
        }
    }

    /// Exchanges the roles of the two buffers: the buffer that was the next
    /// target is current afterwards. The contents stay.
    pub fn swap_current(&mut self)
        ensures
            final(self)@ == old(self)@.swapped(),
            final(self)@.read_current() == old(self)@.read_next_target(),
            old(self).wf() ==> final(self).wf(),
    {
        self.is_a_current = !self.is_a_current;
    }

    /// Runs one simulation step: a compute dispatch of `dispatch` workgroups
    /// reads the current buffer and writes the other one, then the roles are
    /// swapped. The buffer that was current is not written. With a dispatch
    /// that covers the grid, the new current buffer holds the next
    /// generation.
    pub fn step(&mut self, dispatch: [u32; 2])
        requires
            old(self).wf(),
        ensures
            final(self)@ == old(self)@.stepped(dispatch[0] as int, dispatch[1] as int),
            final(self).wf(),
            final(self)@.next_target() == old(self)@.current(),
            dispatch[0] >= spec_dispatch_count(old(self)@.cols as int) && dispatch[1]
                >= spec_dispatch_count(old(self)@.rows as int) ==> final(self)@.current()
                == next_state(old(self)@.current(), old(self)@.rows as int, old(self)@.cols as int),
    {
        if self.is_a_current {
            ComputePass::run(
                &self.compute_uniform,
                &self.game_state_buffer_a,
                &mut self.game_state_buffer_b,
                dispatch,
            );
        } else {
            ComputePass::run(
                &self.compute_uniform,
                &self.game_state_buffer_b,
                &mut self.game_state_buffer_a,
                dispatch,
            );
        }
        self.swap_current();
    }
}

} // verus!
