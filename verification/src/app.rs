use vstd::prelude::*;
use crate::config::{
    AppConfig, clamped_fps, clamped_interval_nanos, interval_nanos, lemma_clamped_interval,
};
use crate::game_data::{StateBuffers, BufferHandle, ComputeBindGroup, GameData, RenderBindGroup, dead_cells};
use crate::graphics::{DrawCall, GraphicsContext, SurfaceError};
use crate::paint::{MousePainter, Painter, marked, painted_cell};
use crate::random::drawn_with;

verus! {

/// The keys the simulation reacts to.
#[derive(Copy, Clone, Debug, PartialEq, Eq, Structural)]
pub enum KeyCode {
    Escape,
    Space,
    ArrowRight,
    Other,
}

/// What the window reports, as far as the simulation reacts to it.
/// Positions are in pixels from the window's top left corner.
#[derive(Copy, Clone, Debug)]
pub enum WindowEvent {
    CloseRequested,
    Resized(u32, u32),
    RedrawRequested,
    KeyboardInput { code: KeyCode, is_pressed: bool },
    CursorEntered,
    CursorLeft,
    MouseInput { is_pressed: bool, is_left: bool },
    CursorMoved(i64, i64),
    Other,
}

/// What the control surface and the start-up can ask of the running
/// simulation.
#[derive(Copy, Clone, Debug)]
pub enum AppEvents {
    NewGraphicsContext(GraphicsContext),
    PlayPause,
    UpdateFps(usize),
    RandomiseState,
    StepForward,
    ResetState,
}

/// What the caller has to carry out on the window and the GPU after the
/// simulation has reacted, in the order of the fields: leave the event
/// loop; configure the surface to a size; upload the state buffers; run a
/// compute dispatch with the given bindings; upload the paint buffer and
/// merge it; run a render pass.
#[derive(Copy, Clone, Debug)]
pub struct Effects {
    pub exit: bool,
    pub configure_surface: Option<(u32, u32)>,
    pub write_state: bool,
    pub dispatch: Option<ComputeBindGroup>,
    pub flush_paint: bool,
    pub draw: Option<DrawCall>,
}

impl Effects {
    /// Nothing to carry out.
    pub open spec fn spec_none() -> Effects {
        Effects {
            exit: false,
            configure_surface: None,
            write_state: false,
            dispatch: None,
            flush_paint: false,
            draw: None,
        }
    }

    /// Nothing to carry out.
    #[verifier::when_used_as_spec(spec_none)]
    pub fn none() -> (effects: Effects)
        ensures
            effects == Effects::spec_none(),
    {
        Effects {
            exit: false,
            configure_surface: None,
            write_state: false,
            dispatch: None,
            flush_paint: false,
            draw: None,
        }
    }
}

/// The tick that lies `interval` after `tick`, or the last tick there is.
pub open spec fn later(tick: u64, interval: u64) -> u64 {
    if tick + interval > u64::MAX {
        u64::MAX
    } else {
        (tick + interval) as u64
    }
}

/// All that the simulation holds between two events. Ticks are nanoseconds
/// on the caller's monotonic clock.
#[verifier::ext_equal]
pub struct AppState {
    pub graphics_context: Option<GraphicsContext>,
    pub game_data: Option<StateBuffers>,
    pub next_frame: u64,
    pub next_paint: u64,
    pub mouse: Painter,
    pub config: AppConfig,
}

impl AppState {
    /// The state buffers, where there are any, fit the configured grid, the
    /// configured dispatch covers it, and its cells can be counted in 32
    /// bits.
    pub open spec fn wf(self) -> bool {
        &&& self.config.wf()
        &&& self.config.init_rand_threshold.wf()
        &&& self.config.spec_num_elements() <= u32::MAX
        &&& self.game_data matches Some(buffers) ==> buffers.wf() && buffers.rows
            == self.config.rows && buffers.cols == self.config.cols
    }

    /// Whether the surface and the state buffers are both set up.
    pub open spec fn ready(self) -> bool {
        self.graphics_context is Some && self.game_data is Some
    }

    /// Whether a simulation step is due at `now`.
    pub open spec fn simulation_due(self, now: u64) -> bool {
        now >= self.next_frame && !self.config.is_paused
    }

    /// Whether a paint flush is due at `now`.
    pub open spec fn paint_due(self, now: u64) -> bool {
        now >= self.next_paint
    }

    /// The state after one simulation step was run and a redraw asked for.
    /// Nothing happens before the surface and the buffers are set up.
    pub open spec fn stepped(self) -> AppState {
        if self.ready() {
            let context = self.graphics_context->0;
            AppState {
                graphics_context: Some(GraphicsContext { redraw_requested: true, ..context }),
                game_data: Some(
                    context.spec_update(self.game_data->0, self.config.compute_dispatches),
                ),
                ..self
            }
        } else {
            self
        }
    }

    /// The bindings of the compute dispatch that a step runs, if it runs
    /// one.
    pub open spec fn step_dispatch(self) -> Option<ComputeBindGroup> {
        if self.ready() {
            self.graphics_context->0.spec_dispatch(self.game_data->0)
        } else {
            None
        }
    }

    /// The state after the paint buffer was flushed.
    pub open spec fn flushed(self) -> AppState {
        if self.ready() {
            let context = self.graphics_context->0;
            AppState {
                mouse: context.spec_paint_painter(self.mouse),
                game_data: Some(context.spec_paint_buffers(self.mouse, self.game_data->0)),
                ..self
            }
        } else {
            self
        }
    }

    /// Whether a flush uploads and merges anything.
    pub open spec fn flush_runs(self) -> bool {
        self.ready() && self.graphics_context->0.is_surface_configured
    }

    /// The state after the simulation part of an idle tick at `now`: if a
    /// step is due, it is run and the next one is due one frame interval
    /// after this one was.
    pub open spec fn simulation_ticked(self, now: u64) -> AppState {
        if self.simulation_due(now) {
            AppState {
                next_frame: later(self.next_frame, self.config.frame_duration),
                ..self.stepped()
            }
        } else {
            self
        }
    }

    /// The state after the paint part of an idle tick at `now`: if a flush
    /// is due, it is run and the next one is due one paint interval after
    /// this one was.
    pub open spec fn paint_ticked(self, now: u64) -> AppState {
        if self.paint_due(now) {
            AppState {
                next_paint: later(self.next_paint, self.config.paint_frame_duration),
                ..self.flushed()
            }
        } else {
            self
        }
    }

    /// The state after an idle tick at `now`: the simulation part, then the
    /// paint part.
    pub open spec fn idled(self, now: u64) -> AppState {
        self.simulation_ticked(now).paint_ticked(now)
    }

    /// What an idle tick at `now` leaves to carry out.
    pub open spec fn idle_effects(self, now: u64) -> Effects {
        Effects {
            dispatch: if self.simulation_due(now) {
                self.step_dispatch()
            } else {
                None
            },
            flush_paint: self.paint_due(now) && self.flush_runs(),
            ..Effects::spec_none()
        }
    }

    /// The state with the pause toggled.
    pub open spec fn play_paused(self) -> AppState {
        AppState { config: AppConfig { is_paused: !self.config.is_paused, ..self.config }, ..self }
    }

    /// The state after the simulation rate was set at `now`: the rate is
    /// clamped, and the next step is due one new frame interval from now.
    pub open spec fn with_fps(self, new_fps: usize, now: u64) -> AppState {
        AppState {
            config: AppConfig {
                fps: clamped_fps(new_fps as int) as usize,
                frame_duration: clamped_interval_nanos(new_fps as int) as u64,
                ..self.config
            },
            next_frame: later(now, clamped_interval_nanos(new_fps as int) as u64),
            ..self
        }
    }

    /// The state after a single step was asked for: it runs only while the
    /// simulation is paused, and leaves the timers alone.
    pub open spec fn step_forwarded(self) -> AppState {
        if self.config.is_paused {
            self.stepped()
        } else {
            self
        }
    }

    /// What a request for a single step leaves to carry out.
    pub open spec fn step_forward_effects(self) -> Effects {
        Effects {
            dispatch: if self.config.is_paused {
                self.step_dispatch()
            } else {
                None
            },
            ..Effects::spec_none()
        }
    }

    /// The render pass that shows the current buffer, once the surface and
    /// the buffers are set up and the surface is configured.
    pub open spec fn frame(self) -> Option<DrawCall> {
        if self.ready() {
            self.graphics_context->0.spec_render(
                RenderBindGroup { source: self.game_data->0.read_current() },
                self.config.background_color,
                self.config.spec_num_elements(),
            )
        } else {
            None
        }
    }

    /// The state after `drawn` was written to both buffers as the new
    /// random state: buffer A is current again.
    pub open spec fn randomised(self, drawn: Seq<u32>) -> AppState {
        if self.ready() {
            AppState { game_data: Some(self.game_data->0.written(drawn).rewound()), ..self }
        } else {
            self
        }
    }

    /// What a new random state leaves to carry out: the upload of the state
    /// buffers and a render pass that shows buffer A.
    pub open spec fn randomise_effects(self) -> Effects {
        if self.ready() {
            Effects {
                write_state: true,
                draw: self.graphics_context->0.spec_render(
                    RenderBindGroup { source: BufferHandle::A },
                    self.config.background_color,
                    self.config.spec_num_elements(),
                ),
                ..Effects::spec_none()
            }
        } else {
            Effects::spec_none()
        }
    }

    /// The state after every cell was killed in both buffers.
    pub open spec fn reset(self) -> AppState {
        if self.ready() {
            AppState {
                game_data: Some(
                    self.game_data->0.written(dead_cells(self.config.spec_num_elements() as nat)),
                ),
                ..self
            }
        } else {
            self
        }
    }

    /// What a reset leaves to carry out: the upload of the state buffers and
    /// a render pass that shows the current one.
    pub open spec fn reset_effects(self) -> Effects {
        if self.ready() {
            Effects { write_state: true, draw: self.frame(), ..Effects::spec_none() }
        } else {
            Effects::spec_none()
        }
    }

    /// The state after a key went down or up: space toggles the pause, the
    /// right arrow asks for a single step, and only a key that goes down
    /// counts.
    pub open spec fn keyed(self, code: KeyCode, is_pressed: bool) -> AppState {
        if is_pressed && code == KeyCode::Space {
            self.play_paused()
        } else if is_pressed && code == KeyCode::ArrowRight {
            self.step_forwarded()
        } else {
            self
        }
    }

    /// What a key leaves to carry out: escape leaves the event loop, the
    /// right arrow may run a step.
    pub open spec fn key_effects(self, code: KeyCode, is_pressed: bool) -> Effects {
        if is_pressed && code == KeyCode::Escape {
            Effects { exit: true, ..Effects::spec_none() }
        } else if is_pressed && code == KeyCode::ArrowRight {
            self.step_forward_effects()
        } else {
            Effects::spec_none()
        }
    }

    /// The state with the cell under the pointer marked.
    pub open spec fn pointed(self) -> AppState {
        AppState {
            mouse: self.mouse.recorded(self.config.rows as int, self.config.cols as int),
            ..self
        }
    }

    /// The state after a window event. Before there is a surface, every
    /// event is ignored. A resize configures the surface, unless the new
    /// size has no pixels, and recomputes the span of a cell. Every move of
    /// the pointer is remembered; the pointer paints the cell under it while
    /// the left button is down inside the grid, and a press paints the cell
    /// under the position last reported.
    pub open spec fn window_evented(self, event: WindowEvent) -> AppState {
        if self.graphics_context is None {
            self
        } else {
            let context = self.graphics_context->0;
            match event {
                WindowEvent::Resized(width, height) => AppState {
                    graphics_context: Some(
                        (GraphicsContext { window_size: (width, height), ..context }).resized(
                            width,
                            height,
                        ),
                    ),
                    mouse: self.mouse.configured(
                        (width, height),
                        self.config.rows as int,
                        self.config.cols as int,
                    ),
                    ..self
                },
                WindowEvent::RedrawRequested => AppState {
                    graphics_context: Some(GraphicsContext { redraw_requested: false, ..context }),
                    ..self
                },
                WindowEvent::KeyboardInput { code, is_pressed } => self.keyed(code, is_pressed),
                WindowEvent::CursorEntered => AppState {
                    mouse: Painter { in_grid: true, ..self.mouse },
                    ..self
                },
                WindowEvent::CursorLeft => AppState {
                    mouse: Painter { in_grid: false, ..self.mouse },
                    ..self
                },
                WindowEvent::MouseInput { is_pressed, is_left } => {
                    if !is_left {
                        self
                    } else if !is_pressed {
                        AppState { mouse: Painter { is_pressed: false, ..self.mouse }, ..self }
                    } else {
                        let down = AppState {
                            mouse: Painter { is_pressed: true, ..self.mouse },
                            ..self
                        };
                        if self.mouse.in_grid {
                            down.pointed()
                        } else {
                            down
                        }
                    }
                },
                WindowEvent::CursorMoved(x, y) => {
                    let moved = AppState { mouse: Painter { pos: (x, y), ..self.mouse }, ..self };
                    if self.mouse.is_pressed && self.mouse.in_grid {
                        moved.pointed()
                    } else {
                        moved
                    }
                },
                _ => self,
            }
        }
    }

    /// What a window event leaves to carry out.
    pub open spec fn window_event_effects(self, event: WindowEvent) -> Effects {
        if self.graphics_context is None {
            Effects::spec_none()
        } else {
            match event {
                WindowEvent::CloseRequested => Effects { exit: true, ..Effects::spec_none() },
                WindowEvent::Resized(width, height) => Effects {
                    configure_surface: if width > 0 && height > 0 {
                        Some((width, height))
                    } else {
                        None
                    },
                    ..Effects::spec_none()
                },
                WindowEvent::RedrawRequested => Effects {
                    draw: self.frame(),
                    ..Effects::spec_none()
                },
                WindowEvent::KeyboardInput { code, is_pressed } => self.key_effects(
                    code,
                    is_pressed,
                ),
                _ => Effects::spec_none(),
            }
        }
    }

    /// Whether a frame that ended with `result` asks for the surface to be
    /// configured again at the window's size.
    pub open spec fn recovers(self, result: Result<(), SurfaceError>) -> bool {
        &&& result matches Err(error)
        &&& error.spec_is_recoverable()
        &&& self.graphics_context matches Some(context)
        &&& context.is_surface_configured
    }

    /// The state after a frame ended with `result`: a lost or outdated
    /// surface is configured again at the window's size, any other outcome
    /// changes nothing.
    pub open spec fn frame_ended(self, result: Result<(), SurfaceError>) -> AppState {
        if self.recovers(result) {
            let context = self.graphics_context->0;
            AppState {
                graphics_context: Some(
                    context.resized(context.window_size.0, context.window_size.1),
                ),
                ..self
            }
        } else {
            self
        }
    }

    /// What the end of a frame leaves to carry out.
    pub open spec fn frame_end_effects(self, result: Result<(), SurfaceError>) -> Effects {
        if self.recovers(result) && self.graphics_context->0.window_size.0 > 0
            && self.graphics_context->0.window_size.1 > 0 {
            Effects {
                configure_surface: Some(self.graphics_context->0.window_size),
                ..Effects::spec_none()
            }
        } else {
            Effects::spec_none()
        }
    }

    /// The state with the state buffers set up, both holding `drawn`, and
    /// buffer A current. Without a surface nothing is set up.
    pub open spec fn set_up(self, drawn: Seq<u32>) -> AppState {
        if self.graphics_context is Some {
            AppState {
                game_data: Some(
                    StateBuffers {
                        a: drawn,
                        b: drawn,
                        is_a_current: true,
                        rows: self.config.rows,
                        cols: self.config.cols,
                    },
                ),
                ..self
            }
        } else {
            self
        }
    }

    /// Whether `drawn` can be a random state of the configured grid.
    pub open spec fn draws(self, drawn: Seq<u32>) -> bool {
        drawn.len() == self.config.spec_num_elements() && drawn_with(
            drawn,
            self.config.init_rand_threshold,
        )
    }

    /// The state after an event of the control surface that leaves nothing
    /// to chance.
    pub open spec fn user_evented(self, event: AppEvents, now: u64) -> AppState {
        match event {
            AppEvents::PlayPause => self.play_paused(),
            AppEvents::UpdateFps(new_fps) => self.with_fps(new_fps, now),
            AppEvents::StepForward => self.step_forwarded(),
            AppEvents::ResetState => self.reset(),
            _ => self,
        }
    }

    /// What an event of the control surface leaves to carry out.
    pub open spec fn user_event_effects(self, event: AppEvents) -> Effects {
        match event {
            AppEvents::StepForward => self.step_forward_effects(),
            AppEvents::RandomiseState => self.randomise_effects(),
            AppEvents::ResetState => self.reset_effects(),
            _ => Effects::spec_none(),
        }
    }
}

/// The running simulation: its settings, its timers, the painter, and, once
/// they are set up, the surface and the state buffers.
pub struct App {
    pub graphics_context: Option<GraphicsContext>,
    pub game_data: Option<GameData>,
    pub next_frame: u64,
    pub next_paint: u64,
    pub mouse: MousePainter,
    pub config: AppConfig,
}

impl View for App {
    type V = AppState;

    open spec fn view(&self) -> AppState {
        AppState {
            graphics_context: self.graphics_context,
            game_data: match self.game_data {
                Some(data) => Some(data@),
                None => None,
            },
            next_frame: self.next_frame,
            next_paint: self.next_paint,
            mouse: self.mouse@,
            config: self.config,
        }
    }
}

impl App {
    /// See [`AppState::wf`].
    pub open spec fn wf(&self) -> bool {
        self@.wf()
    }

    /// Whether the state buffers, where there are any, fit the configured
    /// grid, the configured dispatch covers it, and its cells can be counted
    /// in 32 bits.
    pub fn is_wf(&self) -> (ok: bool)
        ensures
            ok == self.wf(),
    {
        if !self.config.is_wf() || !self.config.init_rand_threshold.is_wf()
            || self.config.num_elements() > u32::MAX as u64 {
            return false;
        }
        match &self.game_data {
            Some(data) => data.is_wf() && data.compute_uniform.rows() == self.config.rows
                && data.compute_uniform.cols() == self.config.cols,
            None => true,
        }
    }

    /// A simulation on `config` that starts at `now`, before any window
    /// exists: the first step and the first flush are due one interval from
    /// now, and nothing is painted.
    pub fn new(config: AppConfig, now: u64) -> (app: Self)
        requires
            config.spec_num_elements() <= usize::MAX,
        ensures
            app@.graphics_context is None,
            app@.game_data is None,
            app@.next_frame == later(now, config.frame_duration),
            app@.next_paint == later(now, config.paint_frame_duration),
            app@.config == config,
            app@.mouse == MousePainter::spec_new(config, (0u32, 0u32)),
    {
        let next_frame: u64 = now.saturating_add(config.frame_duration);
        let next_paint: u64 = now.saturating_add(config.paint_frame_duration);
        let mouse = MousePainter::new(&config, (0, 0));
        Self { graphics_context: None, game_data: None, next_frame, next_paint, mouse, config }
    }

    /// Pauses a running simulation and resumes a paused one.
    pub fn play_pause(&mut self)
        ensures
            final(self)@ == old(self)@.play_paused(),
    {
        self.config.is_paused = !self.config.is_paused;
    }

    /// Sets the simulation rate at `now`. The rate is clamped to the range
    /// of 1 to 60 steps per second, and the next step is due one new frame
    /// interval from now, so that no steps queue up.
    pub fn update_fps(&mut self, new_fps: usize, now: u64)
        ensures
            final(self)@ == old(self)@.with_fps(new_fps, now),
            1 <= final(self)@.config.fps <= 60,
    {
        self.config.update_fps(new_fps);
        self.next_frame = now.saturating_add(self.config.frame_duration);
    }

    /// Runs one simulation step and asks for a redraw, once the surface and
    /// the buffers are set up.
    fn advance(&mut self) -> (dispatch: Option<ComputeBindGroup>)
        requires
            old(self).wf(),
        ensures
            final(self).wf(),
            final(self)@ == old(self)@.stepped(),
            dispatch == old(self)@.step_dispatch(),
    {
        match (&mut self.graphics_context, &mut self.game_data) {
            (Some(context), Some(game_data)) => {
                let dispatch = context.update(game_data, &self.config);
                context.request_redraw();
                dispatch
            },
            _ => None,
        }
    }

    /// Runs a single step while the simulation is paused, and asks for a
    /// redraw. The timers are left alone. While the simulation runs,
    /// nothing happens.
    pub fn step_forward(&mut self) -> (effects: Effects)
        requires
            old(self).wf(),
        ensures
            final(self).wf(),
            final(self)@ == old(self)@.step_forwarded(),
            effects == old(self)@.step_forward_effects(),
    {
        if !self.config.is_paused {
            return Effects::none();
        }
        let dispatch = self.advance();
        Effects {
            exit: false,
            configure_surface: None,
            write_state: false,
            dispatch,
            flush_paint: false,
            draw: None,
        }
    }

    /// Flushes the paint buffer, once the surface and the buffers are set
    /// up.
    fn flush(&mut self) -> (flushed: bool)
        requires
            old(self).wf(),
        ensures
            final(self).wf(),
            final(self)@ == old(self)@.flushed(),
            flushed == old(self)@.flush_runs(),
    {
        match (&self.graphics_context, &mut self.game_data) {
            (Some(context), Some(game_data)) => context.paint(&mut self.mouse, game_data),
            _ => false,
        }
    }

    /// The idle tick of the event loop at `now`. If a simulation step is
    /// due and the simulation is not paused, the step is run, a redraw is
    /// asked for, and the next step is due one frame interval after this
    /// one was. If a paint flush is due, the paint buffer is flushed and the
    /// next flush is due one paint interval after this one was.
    pub fn about_to_wait(&mut self, now: u64) -> (effects: Effects)
        requires
            old(self).wf(),
        ensures
            final(self).wf(),
            final(self)@ == old(self)@.idled(now),
            effects == old(self)@.idle_effects(now),
    {
        let mut dispatch: Option<ComputeBindGroup> = None;
        if now >= self.next_frame && !self.config.is_paused {
            dispatch = self.advance();
            self.next_frame = self.next_frame.saturating_add(self.config.frame_duration);
        }
        let mut flush_paint: bool = false;
        if now >= self.next_paint {
            flush_paint = self.flush();
            self.next_paint = self.next_paint.saturating_add(self.config.paint_frame_duration);
        }
        Effects {
            exit: false,
            configure_surface: None,
            write_state: false,
            dispatch,
            flush_paint,
            draw: None,
        }
    }

    /// Takes over the surface of a new window of `window_size` pixels. The
    /// surface is not configured yet.
    pub fn setup_graphics_context(&mut self, window_size: (u32, u32))
        ensures
            final(self)@ == (AppState {
                graphics_context: Some(
                    GraphicsContext {
                        surface_width: window_size.0,
                        surface_height: window_size.1,
                        is_surface_configured: false,
                        window_size,
                        redraw_requested: false,
                    },
                ),
                ..old(self)@
            }),
    {
        self.graphics_context = Some(GraphicsContext::new(window_size));
    }

    /// Sets up the state buffers once there is a surface: both are seeded
    /// with the same random state, and buffer A is current.
    pub fn setup_game_and_render_data(&mut self)
        requires
            old(self).wf(),
        ensures
            final(self).wf(),
            exists|drawn: Seq<u32>| #[trigger]
                old(self)@.draws(drawn) && final(self)@ == old(self)@.set_up(drawn),
    {
        if self.graphics_context.is_some() {
            let data = GameData::new(&self.config);
            proof {
                let drawn = data@.a;
                assert(old(self)@.draws(drawn));
                assert(data@ == old(self)@.set_up(drawn).game_data->0);
            }
            self.game_data = Some(data);
        } else {
            proof {
                lemma_some_draw(self@);
            }
        }
    }

    /// Draws a fresh random state, writes it to both buffers, makes buffer
    /// A the current one and shows it. Nothing happens before the surface
    /// and the buffers are set up.
    pub fn randomise_state(&mut self) -> (effects: Effects)
        requires
            old(self).wf(),
        ensures
            final(self).wf(),
            effects == old(self)@.randomise_effects(),
            exists|drawn: Seq<u32>| #[trigger]
                old(self)@.draws(drawn) && final(self)@ == old(self)@.randomised(drawn),
    {
        match (&self.graphics_context, &mut self.game_data) {
            (Some(context), Some(game_data)) => {
                let drawn = game_data.randomise_grid_state(&self.config);
                game_data.is_a_current = true;
                let draw = context.render(game_data.get_current_render_bind_group(), &self.config);
                proof {
                    assert(old(self)@.draws(drawn@));
                    assert(game_data@ == old(self)@.randomised(drawn@).game_data->0);
                }
                Effects {
                    exit: false,
                    configure_surface: None,
                    write_state: true,
                    dispatch: None,
                    flush_paint: false,
                    draw,
                }
            },
            _ => {
                proof {
                    lemma_some_draw(self@);
                }
                Effects::none()
            },
        }
    }

    /// Kills every cell in both buffers and shows the result. Nothing
    /// happens before the surface and the buffers are set up.
    pub fn reset_state(&mut self) -> (effects: Effects)
        requires
            old(self).wf(),
        ensures
            final(self).wf(),
            final(self)@ == old(self)@.reset(),
            effects == old(self)@.reset_effects(),
    {
        match (&self.graphics_context, &mut self.game_data) {
            (Some(context), Some(game_data)) => {
                game_data.reset_grid_state(&self.config);
                let draw = context.render(game_data.get_current_render_bind_group(), &self.config);
                Effects {
                    exit: false,
                    configure_surface: None,
                    write_state: true,
                    dispatch: None,
                    flush_paint: false,
                    draw,
                }
            },
            _ => Effects::none(),
        }
    }

    /// Reacts to a key: escape leaves the event loop, space toggles the
    /// pause, the right arrow runs a single step while paused. A key that
    /// goes up does nothing.
    pub fn handle_key(&mut self, code: KeyCode, is_pressed: bool) -> (effects: Effects)
        requires
            old(self).wf(),
        ensures
            final(self).wf(),
            final(self)@ == old(self)@.keyed(code, is_pressed),
            effects == old(self)@.key_effects(code, is_pressed),
    {
        if !is_pressed {
            return Effects::none();
        }
        match code {
            KeyCode::Escape => Effects {
                exit: true,
                configure_surface: None,
                write_state: false,
                dispatch: None,
                flush_paint: false,
                draw: None,
            },
            KeyCode::Space => {
                self.play_pause();
                Effects::none()
            },
            KeyCode::ArrowRight => self.step_forward(),
            KeyCode::Other => Effects::none(),
        }
    }

    /// Reacts to a window event. Before there is a surface, every event is
    /// ignored.
    pub fn window_event(&mut self, event: WindowEvent) -> (effects: Effects)
        requires
            old(self).wf(),
        ensures
            final(self).wf(),
            final(self)@ == old(self)@.window_evented(event),
            effects == old(self)@.window_event_effects(event),
    {
        let mut context = match self.graphics_context {
            Some(context) => context,
            None => {
                return Effects::none();
            },
        };
        match event {
            WindowEvent::CloseRequested => Effects {
                exit: true,
                configure_surface: None,
                write_state: false,
                dispatch: None,
                flush_paint: false,
                draw: None,
            },
            WindowEvent::Resized(width, height) => {
                context.window_size = (width, height);
                context.resize(width, height);
                self.graphics_context = Some(context);
                self.mouse.configure((width, height), &self.config);
                Effects {
                    exit: false,
                    configure_surface: if width > 0 && height > 0 {
                        Some((width, height))
                    } else {
                        None
                    },
                    write_state: false,
                    dispatch: None,
                    flush_paint: false,
                    draw: None,
                }
            },
            WindowEvent::RedrawRequested => {
                let draw = match &self.game_data {
                    Some(game_data) => context.render(
                        game_data.get_current_render_bind_group(),
                        &self.config,
                    ),
                    None => None,
                };
                context.redraw_requested = false;
                self.graphics_context = Some(context);
                Effects {
                    exit: false,
                    configure_surface: None,
                    write_state: false,
                    dispatch: None,
                    flush_paint: false,
                    draw,
                }
            },
            WindowEvent::KeyboardInput { code, is_pressed } => self.handle_key(code, is_pressed),
            WindowEvent::CursorEntered => {
                self.mouse.in_grid = true;
                Effects::none()
            },
            WindowEvent::CursorLeft => {
                self.mouse.in_grid = false;
                Effects::none()
            },
            WindowEvent::MouseInput { is_pressed, is_left } => {
                if is_left {
                    self.mouse.is_pressed = is_pressed;
                    if is_pressed && self.mouse.in_grid {
                        self.mouse.add_to_buffer(&self.config);
                    }
                }
                Effects::none()
            },
            WindowEvent::CursorMoved(x, y) => {
                self.mouse.pos = (x, y);
                if self.mouse.is_pressed && self.mouse.in_grid {
                    self.mouse.add_to_buffer(&self.config);
                }
                Effects::none()
            },
            WindowEvent::Other => Effects::none(),
        }
    }

    /// Reacts to the end of a frame. A lost or outdated surface is
    /// configured again at the window's size, so that the next frame can be
    /// drawn; any other failure only costs the frame.
    pub fn render_finished(&mut self, result: Result<(), SurfaceError>) -> (effects: Effects)
        ensures
            final(self)@ == old(self)@.frame_ended(result),
            effects == old(self)@.frame_end_effects(result),
            old(self).wf() ==> final(self).wf(),
    {
        let error = match result {
            Ok(_) => {
                return Effects::none();
            },
            Err(error) => error,
        };
        if !error.is_recoverable() {
            return Effects::none();
        }
        let mut context = match self.graphics_context {
            Some(context) => context,
            None => {
                return Effects::none();
            },
        };
        match context.get_size() {
            Some((width, height)) => {
                context.resize(width, height);
                self.graphics_context = Some(context);
                Effects {
                    exit: false,
                    configure_surface: if width > 0 && height > 0 {
                        Some((width, height))
                    } else {
                        None
                    },
                    write_state: false,
                    dispatch: None,
                    flush_paint: false,
                    draw: None,
                }
            },
            None => Effects::none(),
        }
    }

    /// Reacts to an event of the control surface at `now`. A new graphics
    /// context is taken over and the state buffers are set up for it.
    pub fn user_event(&mut self, event: AppEvents, now: u64) -> (effects: Effects)
        requires
            old(self).wf(),
        ensures
            final(self).wf(),
            effects == old(self)@.user_event_effects(event),
            match event {
                AppEvents::NewGraphicsContext(context) => exists|drawn: Seq<u32>| #[trigger]
                    old(self)@.draws(drawn) && final(self)@ == (AppState {
                        graphics_context: Some(context),
                        ..old(self)@
                    }).set_up(drawn),
                AppEvents::RandomiseState => exists|drawn: Seq<u32>| #[trigger]
                    old(self)@.draws(drawn) && final(self)@ == old(self)@.randomised(drawn),
                _ => final(self)@ == old(self)@.user_evented(event, now),
            },
    {
        match event {
            AppEvents::NewGraphicsContext(context) => {
                self.graphics_context = Some(context);
                let ghost taken = self@;
                self.setup_game_and_render_data();
                proof {
                    let drawn = choose|drawn: Seq<u32>| #[trigger]
                        taken.draws(drawn) && self@ == taken.set_up(drawn);
                    assert(old(self)@.draws(drawn));
                    assert(taken == (AppState {
                        graphics_context: Some(context),
                        ..old(self)@
                    }));
                }
                Effects::none()
            },
            AppEvents::PlayPause => {
                self.play_pause();
                Effects::none()
            },
            AppEvents::UpdateFps(new_fps) => {
                self.update_fps(new_fps, now);
                Effects::none()
            },
            AppEvents::StepForward => self.step_forward(),
            AppEvents::RandomiseState => self.randomise_state(),
            AppEvents::ResetState => self.reset_state(),
        }
    }

    /// Starts the simulation once the event loop runs and a window of
    /// `window_size` pixels exists: the surface is taken over, the state
    /// buffers are set up, and the first step is due one frame interval
    /// from `now`.
    pub fn resumed(&mut self, window_size: (u32, u32), now: u64)
        requires
            old(self).wf(),
        ensures
            final(self).wf(),
            exists|drawn: Seq<u32>| #[trigger]
                old(self)@.draws(drawn) && final(self)@ == (AppState {
                    next_frame: later(now, old(self)@.config.frame_duration),
                    ..(AppState {
                        graphics_context: Some(
                            GraphicsContext {
                                surface_width: window_size.0,
                                surface_height: window_size.1,
                                is_surface_configured: false,
                                window_size,
                                redraw_requested: false,
                            },
                        ),
                        ..old(self)@
                    }).set_up(drawn)
                }),
    {
        self.setup_graphics_context(window_size);
        let ghost taken = self@;
        self.setup_game_and_render_data();
        let ghost seeded = self@;
        self.next_frame = now.saturating_add(self.config.frame_duration);
        proof {
            let drawn = choose|drawn: Seq<u32>| #[trigger]
                taken.draws(drawn) && seeded == taken.set_up(drawn);
            assert(old(self)@.draws(drawn));
            assert(self@ == (AppState {
                next_frame: later(now, old(self)@.config.frame_duration),
                ..taken.set_up(drawn)
            }));
        }
    }
}

/// A single step leaves the schedule alone, and does nothing while the
/// simulation runs.
pub proof fn lemma_single_step_keeps_schedule(state: AppState)
    ensures
        state.step_forwarded().next_frame == state.next_frame,
        state.step_forwarded().next_paint == state.next_paint,
        state.step_forwarded().config == state.config,
        !state.config.is_paused ==> state.step_forwarded() == state
            && state.step_forward_effects() == Effects::spec_none(),
{
}

/// A change of the simulation rate leaves the rate within 1 to 60 steps per
/// second and restarts the frame timer, so that no step is due at once,
/// however late the old schedule was.
pub proof fn lemma_rate_change_restarts_timer(state: AppState, new_fps: usize, now: u64)
    ensures
        1 <= state.with_fps(new_fps, now).config.fps <= 60,
        16_666_666 <= state.with_fps(new_fps, now).config.frame_duration <= 1_000_000_000,
        state.with_fps(new_fps, now).config.frame_duration == interval_nanos(
            state.with_fps(new_fps, now).config.fps as int,
        ),
        state.with_fps(new_fps, now).next_frame >= now,
        now < u64::MAX ==> !state.with_fps(new_fps, now).simulation_due(now),
{
    lemma_clamped_interval(new_fps as int);
}

/// While the simulation is paused an idle tick runs no step and leaves the
/// frame timer alone; the paint timer runs on, and where no flush is due
/// the tick changes nothing at all.
pub proof fn lemma_paused_tick_runs_no_step(state: AppState, now: u64)
    requires
        state.config.is_paused,
    ensures
        state.idled(now).next_frame == state.next_frame,
        state.idle_effects(now).dispatch is None,
        state.idled(now) == state.paint_ticked(now),
        state.idled(now).game_data matches Some(buffers) ==> buffers.is_a_current
            == state.game_data->0.is_a_current,
        !state.paint_due(now) ==> state.idled(now) == state,
{
}

/// The two timers of the idle tick run independently: the simulation part
/// leaves the paint timer alone, the paint part leaves the frame timer
/// alone, and neither changes the settings. A timer that was due moves on
/// by exactly its interval, up to the last tick.
pub proof fn lemma_timers_are_independent(state: AppState, now: u64)
    ensures
        state.simulation_ticked(now).next_paint == state.next_paint,
        state.paint_ticked(now).next_frame == state.next_frame,
        state.idled(now).config == state.config,
        state.idled(now).next_frame == if state.simulation_due(now) {
            later(state.next_frame, state.config.frame_duration)
        } else {
            state.next_frame
        },
        state.idled(now).next_paint == if state.paint_due(now) {
            later(state.next_paint, state.config.paint_frame_duration)
        } else {
            state.next_paint
        },
{
}

/// A press paints the cell under the position last reported: after a move
/// with the button up and a press of the left button, both inside the grid,
/// the button is down, the cell under the reported position is marked, and
/// the state buffers are as they were.
pub proof fn lemma_press_paints_under_pointer(state: AppState, x: i64, y: i64)
    requires
        state.graphics_context is Some,
        state.mouse.in_grid,
        !state.mouse.is_pressed,
    ensures
        ({
            let moved = state.window_evented(WindowEvent::CursorMoved(x, y));
            let pressed = moved.window_evented(
                WindowEvent::MouseInput { is_pressed: true, is_left: true },
            );
            &&& moved.mouse == (Painter { pos: (x, y), ..state.mouse })
            &&& pressed.mouse.is_pressed
            &&& pressed.mouse.pos == (x, y)
            &&& pressed.mouse.cpu == marked(
                state.mouse.cpu,
                painted_cell(
                    (x, y),
                    state.mouse.div_factor,
                    state.config.rows as int,
                    state.config.cols as int,
                ),
            )
            &&& pressed.game_data == state.game_data
            &&& pressed.graphics_context == state.graphics_context
        }),
{
}

/// Every configured grid has a state that can be drawn for it.
proof fn lemma_some_draw(state: AppState)
    requires
        state.config.init_rand_threshold.wf(),
    ensures
        exists|drawn: Seq<u32>| #[trigger] state.draws(drawn),
{
    let cell: u32 = if state.config.init_rand_threshold.certain() {
        1
    } else {
        0
    };
    let drawn = Seq::new(state.config.spec_num_elements() as nat, |i: int| cell);
    assert(state.draws(drawn));
}

} // verus!
