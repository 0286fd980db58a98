use vstd::prelude::*;
use crate::compute::{ComputePass, dispatch_count, next_state};
use crate::constants::{BACKGROUND_COLOR, COLS, ROWS};
use crate::game_data::{BufferHandle, ComputeUniform, RenderBindGroup};
use crate::gpu_resources::{GpuResources, Resources, lemma_swapped_step};
use crate::graphics::DrawCall;

verus! {

/// A renderer for the built-in grid that exchanges its state buffers after
/// each step.
pub struct Renderer {
    gpu_resources: GpuResources,
}

impl View for Renderer {
    type V = Resources;

    closed spec fn view(&self) -> Resources {
        self.gpu_resources@
    }
}

impl Renderer {
    /// A renderer whose current buffer holds `initial_state`.
    pub fn new(initial_state: &[u32]) -> (renderer: Self)
        ensures
            renderer@ == GpuResources::new_view(initial_state@),
    {
        let gpu_resources = GpuResources::new(initial_state);
        Self { gpu_resources }
    }

    /// The renderer's buffers.
    pub fn resources(&self) -> (resources: &GpuResources)
        ensures
            resources@ == self@,
    {
        &self.gpu_resources
    }

    /// Runs one compute dispatch that covers the grid: the next buffer
    /// receives the generation that follows the current one. The current
    /// buffer is only read.
    pub fn run_compute(&mut self)
        requires
            old(self)@.wf(),
        ensures
            final(self)@ == (Resources {
                next: next_state(
                    old(self)@.current,
                    old(self)@.rows as int,
                    old(self)@.cols as int,
                ),
                ..old(self)@
            }),
            final(self)@.wf(),
    {
        let rows: u32 = self.gpu_resources.compute_uniform.rows();
        let cols: u32 = self.gpu_resources.compute_uniform.cols();
        let uniform = ComputeUniform::new(rows, cols);
        let dispatch_x: u32 = dispatch_count(cols);
        let dispatch_y: u32 = dispatch_count(rows);
        proof {
            lemma_swapped_step(self@, dispatch_x as int, dispatch_y as int);
        }
        ComputePass::run(
            &uniform,
            &self.gpu_resources.current_state_buffer,
            &mut self.gpu_resources.next_state_buffer,
            [dispatch_x, dispatch_y],
        );
    }

    /// The render pass that shows the current buffer: one instance for each
    /// cell of the built-in grid, on the built-in background.
    pub fn render(&self) -> (draw: DrawCall)
        ensures
            draw == (DrawCall {
                clear_color: BACKGROUND_COLOR,
                indices: self@.num_indices,
                instances: (ROWS * COLS) as u32,
                bind_group: RenderBindGroup { source: BufferHandle::A },
            }),
    {
        DrawCall {
            clear_color: BACKGROUND_COLOR,
            indices: self.gpu_resources.num_indices,
            instances: (ROWS * COLS) as u32,
            bind_group: RenderBindGroup { source: BufferHandle::A },
        }
    }

    /// Ends a simulation step: the buffers are exchanged, so that what the
    /// last dispatch wrote is the current generation.
    pub fn step_simulation(&mut self)
        ensures
            final(self)@ == old(self)@.swapped(),
    {
        self.gpu_resources.swap_buffers();
    }
}

} // verus!
