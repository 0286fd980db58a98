use vstd::prelude::*;
use crate::compute::{next_state, spec_dispatch_count};
use crate::config::AppConfig;
use crate::constants::INDICES;
use crate::game_data::{StateBuffers, ComputeBindGroup, GameData, RenderBindGroup};
use crate::paint::{MousePainter, Painter};

verus! {

/// Why a frame could not be acquired from the presentation surface.
#[derive(Copy, Clone, Debug, PartialEq, Eq, Structural)]
pub enum SurfaceError {
    /// Acquiring the frame timed out.
    Timeout,
    /// The surface changed and must be configured again.
    Outdated,
    /// The surface was lost and must be configured again.
    Lost,
    /// No memory is left for a new frame.
    OutOfMemory,
    /// Any other failure.
    Other,
}

impl SurfaceError {
    /// Whether configuring the surface again at its current size recovers
    /// from the error.
    pub open spec fn spec_is_recoverable(self) -> bool {
        self == SurfaceError::Lost || self == SurfaceError::Outdated
    }

    /// Whether configuring the surface again at its current size recovers
    /// from the error.
    #[verifier::when_used_as_spec(spec_is_recoverable)]
    pub fn is_recoverable(self) -> (recoverable: bool)
        ensures
            recoverable == self.spec_is_recoverable(),
    {
        match self {
            SurfaceError::Lost => true,
            SurfaceError::Outdated => true,
            _ => false,
        }
    }
}

/// One render pass: the surface is cleared to `clear_color`, then one
/// instanced draw paints a quad of `indices` indices for each of
/// `instances` cells, coloured by the state read through `bind_group`.
#[derive(Copy, Clone, Debug)]
pub struct DrawCall {
    pub clear_color: [u8; 4],
    pub indices: u32,
    pub instances: u32,
    pub bind_group: RenderBindGroup,
}

/// The presentation surface and the window it belongs to, as far as the
/// simulation decides on them.
#[derive(Copy, Clone, Debug)]
pub struct GraphicsContext {
    pub surface_width: u32,
    pub surface_height: u32,
    pub is_surface_configured: bool,
    pub window_size: (u32, u32),
    pub redraw_requested: bool,
}

impl GraphicsContext {
    /// The context of a new window of `window_size` pixels. Its surface
    /// takes the window's size and is not configured yet.
    pub fn new(window_size: (u32, u32)) -> (context: Self)
        ensures
            context.surface_width == window_size.0,
            context.surface_height == window_size.1,
            !context.is_surface_configured,
            context.window_size == window_size,
            !context.redraw_requested,
    {
        GraphicsContext {
            surface_width: window_size.0,
            surface_height: window_size.1,
            is_surface_configured: false,
            window_size,
            redraw_requested: false,
        }
    }

    /// Asks the window for a redraw.
    pub fn request_redraw(&mut self)
        ensures
            *final(self) == (GraphicsContext { redraw_requested: true, ..*old(self) }),
    {
        self.redraw_requested = true;
    }

    /// The window's size, once the surface is configured.
    pub fn get_size(&self) -> (size: Option<(u32, u32)>)
        ensures
            size == if self.is_surface_configured {
                Some(self.window_size)
            } else {
                None
            },
    {
        if self.is_surface_configured {
            Some(self.window_size)
        } else {
            None
        }
    }

    /// The window's size.
    pub fn get_window_size(&self) -> (size: (u32, u32))
        ensures
            size == self.window_size,
    {
        self.window_size
    }

    /// The context after a resize to `width` by `height` pixels: a size
    /// without pixels is ignored, any other is what the surface is
    /// configured to.
    pub open spec fn resized(self, width: u32, height: u32) -> GraphicsContext {
        if width > 0 && height > 0 {
            GraphicsContext {
                surface_width: width,
                surface_height: height,
                is_surface_configured: true,
                ..self
            }
        } else {
            self
        }
    }

    /// Configures the surface to `width` by `height` pixels. A size without
    /// pixels changes nothing: a surface that was not configured stays so.
    pub fn resize(&mut self, width: u32, height: u32)
        ensures
            *final(self) == old(self).resized(width, height),
            width == 0 || height == 0 ==> final(self).is_surface_configured == old(self).is_surface_configured,
            width > 0 && height > 0 ==> final(self).is_surface_configured,
    {
        if width > 0 && height > 0 {
            self.surface_width = width;
            self.surface_height = height;
            self.is_surface_configured = true;
        }
    }

    /// The state buffers after a simulation step was asked for: stepped on
    /// a configured surface, untouched otherwise.
    pub open spec fn spec_update(self, buffers: StateBuffers, dispatch: [u32; 2]) -> StateBuffers {
        if self.is_surface_configured {
            buffers.stepped(dispatch[0] as int, dispatch[1] as int)
        } else {
            buffers
        }
    }

    /// The bindings a simulation step dispatches with: those of the buffers
    /// before the step, on a configured surface.
    pub open spec fn spec_dispatch(self, buffers: StateBuffers) -> Option<ComputeBindGroup> {
        if self.is_surface_configured {
            Some(
                ComputeBindGroup {
                    source: buffers.read_current(),
                    target: buffers.read_next_target(),
                },
            )
        } else {
            None
        }
    }

    /// The render pass for a frame of `cells` cells, on a configured
    /// surface.
    pub open spec fn spec_render(
        self,
        bind_group: RenderBindGroup,
        clear_color: [u8; 4],
        cells: int,
    ) -> Option<DrawCall> {
        if self.is_surface_configured {
            Some(
                DrawCall {
                    clear_color,
                    indices: 6,
                    instances: cells as u32,
                    bind_group,
                },
            )
        } else {
            None
        }
    }

    /// The painter after a flush was asked for.
    pub open spec fn spec_paint_painter(self, painter: Painter) -> Painter {
        if self.is_surface_configured {
            painter.flushed()
        } else {
            painter
        }
    }

    /// The state buffers after a flush of `painter` was asked for.
    pub open spec fn spec_paint_buffers(self, painter: Painter, buffers: StateBuffers) -> StateBuffers {
        if self.is_surface_configured {
            buffers.painted(painter.cpu)
        } else {
            buffers
        }
    }

    /// Runs one simulation step on a configured surface: a compute dispatch
    /// of `config.compute_dispatches` workgroups reads the current buffer
    /// and writes the other, then the roles are swapped. Without a
    /// configured surface nothing happens. Returns the bindings the
    /// dispatch ran with, or `None` if none ran.
    pub fn update(&self, game_data: &mut GameData, config: &AppConfig) -> (dispatch: Option<
        ComputeBindGroup,
    >)
        requires
            old(game_data).wf(),
        ensures
            dispatch == self.spec_dispatch(old(game_data)@),
            final(game_data)@ == self.spec_update(old(game_data)@, config.compute_dispatches),
            final(game_data).wf(),
            self.is_surface_configured && config.compute_dispatches[0] >= spec_dispatch_count(
                old(game_data)@.cols as int,
            ) && config.compute_dispatches[1] >= spec_dispatch_count(old(game_data)@.rows as int)
                ==> final(game_data)@.current() == next_state(
                old(game_data)@.current(),
                old(game_data)@.rows as int,
                old(game_data)@.cols as int,
            ),
    {
        if !self.is_surface_configured {
            None
        } else {
            let bindings = game_data.get_current_compute_bind_group();
            game_data.step(config.compute_dispatches);
            Some(bindings)
        }
    }

    /// The render pass for the next frame, or `None` while the surface is
    /// not configured: then nothing is drawn. The pass clears to the
    /// configured background and draws one instance for each cell.
    pub fn render(&self, game_state_render_bind_group: RenderBindGroup, config: &AppConfig) -> (draw:
        Option<DrawCall>)
        requires
            config.spec_num_elements() <= u32::MAX,
        ensures
            draw == self.spec_render(
                game_state_render_bind_group,
                config.background_color,
                config.spec_num_elements(),
            ),
            draw is Some <==> self.is_surface_configured,
    {
        if !self.is_surface_configured {
            None
        } else {
            Some(
                DrawCall {
                    clear_color: config.background_color,
                    indices: INDICES.len() as u32,
                    instances: config.num_elements() as u32,
                    bind_group: game_state_render_bind_group,
                },
            )
        }
    }

    /// Flushes the paint buffer on a configured surface: the whole buffer is
    /// uploaded, the CPU copy is cleared, and the uploaded cells are brought
    /// to life in both state buffers. Without a configured surface nothing
    /// happens. Returns whether the flush ran.
    pub fn paint(&self, mouse_painter: &mut MousePainter, game_data: &mut GameData) -> (flushed:
        bool)
        ensures
            flushed == self.is_surface_configured,
            final(mouse_painter)@ == self.spec_paint_painter(old(mouse_painter)@),
            final(game_data)@ == self.spec_paint_buffers(old(mouse_painter)@, old(game_data)@),
            old(game_data).wf() ==> final(game_data).wf(),
    {
        if !self.is_surface_configured {
            false
        } else {
            mouse_painter.write_to_buffer();
            mouse_painter.clear_buffer();
            game_data.overlay_merge(mouse_painter.paint_buffer_gpu.as_slice());
            true
        }
    }
}

/// A resize to a size without pixels leaves a surface that was not
/// configured unconfigured, and nothing is drawn on it; a later resize to a
/// size with pixels configures it, and frames are drawn again.
pub proof fn lemma_resize_to_nothing(
    context: GraphicsContext,
    width: u32,
    height: u32,
    later_width: u32,
    later_height: u32,
    bind_group: RenderBindGroup,
    clear_color: [u8; 4],
    cells: int,
)
    requires
        !context.is_surface_configured,
        width == 0 || height == 0,
        later_width > 0,
        later_height > 0,
    ensures
        context.resized(width, height) == context,
        !context.resized(width, height).is_surface_configured,
        context.resized(width, height).spec_render(bind_group, clear_color, cells) is None,
        context.resized(width, height).resized(later_width, later_height).is_surface_configured,
        context.resized(width, height).resized(later_width, later_height).spec_render(
            bind_group,
            clear_color,
            cells,
        ) is Some,
{
}

} // verus!
