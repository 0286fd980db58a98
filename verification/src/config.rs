use vstd::prelude::*;
use crate::compute::{dispatch_count, spec_dispatch_count};
use crate::random::Probability;
use vstd::std_specs::convert::FromSpecImpl;

verus! {

/// Nanoseconds in a second.
pub const NANOS_PER_SECOND: u64 = 1_000_000_000;

/// Slowest simulation rate a user can ask for, in steps per second.
pub const MIN_FPS: usize = 1;

/// Fastest simulation rate a user can ask for, in steps per second.
pub const MAX_FPS: usize = 60;

/// The settings as they are read, before anything is derived from them.
#[derive(Copy, Clone, Debug)]
pub struct RawConfig {
    pub rows: u32,
    pub cols: u32,
    pub min_cell_array_len: u32,
    pub fps: usize,
    pub paint_fps: usize,
    pub init_rand_threshold: Probability,
    pub window_size: Option<(u32, u32)>,
    pub background_color: [u8; 4],
    pub cursor_color: [u8; 4],
}

/// The settings the simulation runs on: the raw ones and what follows from
/// them. Intervals are in nanoseconds.
#[derive(Copy, Clone, Debug)]
pub struct AppConfig {
    pub rows: u32,
    pub cols: u32,
    pub min_cell_array_len: u32,
    pub fps: usize,
    pub paint_fps: usize,
    pub init_rand_threshold: Probability,
    pub frame_duration: u64,
    pub paint_frame_duration: u64,
    pub window_size: Option<(u32, u32)>,
    pub compute_dispatches: [u32; 2],
    pub is_paused: bool,
    pub background_color: [u8; 4],
    pub cursor_color: [u8; 4],
}

/// The time between two updates at `fps` updates per second, in whole
/// nanoseconds. A rate of zero counts as one.
pub open spec fn interval_nanos(fps: int) -> int {
    if fps < 1 {
        1_000_000_000
    } else {
        1_000_000_000int / fps
    }
}

/// A requested simulation rate brought into the range of 1 to 60.
pub open spec fn clamped_fps(fps: int) -> int {
    if fps < 1 {
        1
    } else if fps > 60 {
        60
    } else {
        fps
    }
}

/// The frame interval at a requested rate, in whole nanoseconds: a second
/// divided by the clamped rate, which is `interval_nanos(clamped_fps(fps))`.
pub open spec fn clamped_interval_nanos(fps: int) -> int {
    if fps < 1 {
        1_000_000_000
    } else if fps > 60 {
        1_000_000_000int / 60
    } else {
        1_000_000_000int / fps
    }
}

/// The interval at a requested rate is the interval of the clamped rate: no
/// shorter than a sixtieth of a second, no longer than a second, and a
/// second divided by the rate to the nanosecond.
pub proof fn lemma_clamped_interval(fps: int)
    ensures
        clamped_interval_nanos(fps) == interval_nanos(clamped_fps(fps)),
        16_666_666 <= clamped_interval_nanos(fps) <= 1_000_000_000,
        clamped_interval_nanos(fps) * clamped_fps(fps) <= 1_000_000_000,
        1_000_000_000 < (clamped_interval_nanos(fps) + 1) * clamped_fps(fps),
{
    let rate = clamped_fps(fps);
    let interval = 1_000_000_000int / rate;
    assert(clamped_interval_nanos(fps) == interval);
    assert(interval_nanos(rate) == interval);
    vstd::arithmetic::div_mod::lemma_fundamental_div_mod(1_000_000_000, rate);
    assert(0 <= 1_000_000_000int % rate < rate);
    assert(rate * interval == interval * rate) by (nonlinear_arith);
    assert((interval + 1) * rate == interval * rate + rate) by (nonlinear_arith);
    assert(16_666_666 <= interval <= 1_000_000_000) by (nonlinear_arith)
        requires
            1 <= rate <= 60,
            interval * rate <= 1_000_000_000,
            1_000_000_000 < (interval + 1) * rate,
    ;
}

/// The workgroups of one compute dispatch over a grid of `rows` by `cols`
/// cells: along x for the columns, along y for the rows.
pub open spec fn spec_compute_dispatches(rows: int, cols: int) -> Seq<u32> {
    seq![spec_dispatch_count(cols) as u32, spec_dispatch_count(rows) as u32]
}

impl From<RawConfig> for AppConfig {
    fn from(value: RawConfig) -> (config: Self) {
        AppConfig::new(value)
    }
}

impl FromSpecImpl<RawConfig> for AppConfig {
    open spec fn obeys_from_spec() -> bool {
        true
    }

    open spec fn from_spec(value: RawConfig) -> Self {
        AppConfig::derived(value)
    }
}

/// Cells along the long side of a window, when `len` cells lie along its
/// short side and cells are as wide as they are tall: `len` scaled by the
/// ratio of the sides, rounded down, and no more than 32 bits hold.
pub open spec fn scaled_len(len: int, long: int, short: int) -> int {
    if len * long / short > u32::MAX {
        u32::MAX as int
    } else {
        len * long / short
    }
}

/// The time between two updates at `fps` updates per second.
pub fn interval_for(fps: usize) -> (nanos: u64)
    ensures
        nanos == interval_nanos(fps as int),
{
    let rate: u64 = if fps < 1 {
        1
    } else {
        fps as u64
    };
    NANOS_PER_SECOND / rate
}

/// Cells along the long side of a window: see [`scaled_len`].
fn scale_len(len: u32, long: u32, short: u32) -> (cells: u32)
    requires
        short > 0,
    ensures
        cells == scaled_len(len as int, long as int, short as int),
{
    assert(len * long <= 0xffff_ffff * 0xffff_ffff) by (nonlinear_arith)
        requires
            0 <= len <= 0xffff_ffff,
            0 <= long <= 0xffff_ffff,
    ;
    let cells: u64 = (len as u64 * long as u64) / short as u64;
    if cells > u32::MAX as u64 {
        u32::MAX
    } else {
        cells as u32
    }
}

impl AppConfig {
    /// The running configuration that follows from the raw settings: the
    /// simulation starts paused, the intervals are a second divided by the
    /// rates, and a dispatch has `[ceil(cols / 16), ceil(rows / 16)]`
    /// workgroups.
    pub open spec fn derived(value: RawConfig) -> Self {
        AppConfig {
            rows: value.rows,
            cols: value.cols,
            min_cell_array_len: value.min_cell_array_len,
            fps: value.fps,
            paint_fps: value.paint_fps,
            init_rand_threshold: value.init_rand_threshold,
            frame_duration: interval_nanos(value.fps as int) as u64,
            paint_frame_duration: interval_nanos(value.paint_fps as int) as u64,
            window_size: value.window_size,
            compute_dispatches: [
                spec_dispatch_count(value.cols as int) as u32,
                spec_dispatch_count(value.rows as int) as u32,
            ],
            is_paused: true,
            background_color: value.background_color,
            cursor_color: value.cursor_color,
        }
    }

    /// The dispatch size agrees with the grid.
    pub open spec fn wf(&self) -> bool {
        self.compute_dispatches@ == spec_compute_dispatches(self.rows as int, self.cols as int)
    }

    /// Whether the dispatch size agrees with the grid.
    pub fn is_wf(&self) -> (ok: bool)
        ensures
            ok == self.wf(),
    {
        let ok = self.compute_dispatches[0] == dispatch_count(self.cols)
            && self.compute_dispatches[1] == dispatch_count(self.rows);
        assert(ok ==> self.compute_dispatches@ =~= spec_compute_dispatches(
            self.rows as int,
            self.cols as int,
        ));
        ok
    }

    /// Cells in the grid.
    pub open spec fn spec_num_elements(&self) -> int {
        self.rows * self.cols
    }

    /// Derives the running configuration from the raw settings.
    pub fn new(value: RawConfig) -> (config: Self)
        ensures
            config == Self::derived(value),
            config.wf(),
    {
        let compute_dispatches: [u32; 2] = [dispatch_count(value.cols), dispatch_count(value.rows)];
        Self {
            rows: value.rows,
            cols: value.cols,
            min_cell_array_len: value.min_cell_array_len,
            fps: value.fps,
            paint_fps: value.paint_fps,
            init_rand_threshold: value.init_rand_threshold,
            frame_duration: interval_for(value.fps),
            paint_frame_duration: interval_for(value.paint_fps),
            window_size: value.window_size,
            compute_dispatches,
            is_paused: true,
            background_color: value.background_color,
            cursor_color: value.cursor_color,
        }
    }

    /// The configuration with the grid fitted to a window of `width` by
    /// `height` pixels: the short side of the window gets
    /// `min_cell_array_len` cells, the long side as many as fit at the same
    /// cell size. A square window and a window without pixels keep the grid
    /// as it is. The dispatch size follows the grid.
    pub open spec fn cell_configured(self, width: u32, height: u32) -> AppConfig {
        let rows = if 0 < width < height {
            scaled_len(self.min_cell_array_len as int, height as int, width as int) as u32
        } else if 0 < height < width {
            self.min_cell_array_len
        } else {
            self.rows
        };
        let cols = if 0 < width < height {
            self.min_cell_array_len
        } else if 0 < height < width {
            scaled_len(self.min_cell_array_len as int, width as int, height as int) as u32
        } else {
            self.cols
        };
        AppConfig {
            rows,
            cols,
            compute_dispatches: [
                spec_dispatch_count(cols as int) as u32,
                spec_dispatch_count(rows as int) as u32,
            ],
            ..self
        }
    }

    /// Fits the grid to a window of `width` by `height` pixels, so that
    /// cells come out square: the short side of the window gets
    /// `min_cell_array_len` cells, the long side as many as fit.
    pub fn update_cell_configuration(&mut self, width: u32, height: u32)
        ensures
            *final(self) == old(self).cell_configured(width, height),
            final(self).wf(),
    {
        if 0 < width && width < height {
            self.cols = self.min_cell_array_len;
            self.rows = scale_len(self.min_cell_array_len, height, width);
        } else if 0 < height && height < width {
            self.rows = self.min_cell_array_len;
            self.cols = scale_len(self.min_cell_array_len, width, height);
        }
        self.compute_dispatches = [dispatch_count(self.cols), dispatch_count(self.rows)];
    }

    /// Cells in the grid.
    pub fn num_elements(&self) -> (count: u64)
        ensures
            count == self.spec_num_elements(),
    {
        assert(self.rows * self.cols <= 0xffff_ffff * 0xffff_ffff) by (nonlinear_arith)
            requires
                0 <= self.rows <= 0xffff_ffff,
                0 <= self.cols <= 0xffff_ffff,
        ;
        self.rows as u64 * self.cols as u64
    }

    /// Sets the simulation rate. The rate is clamped to the range of 1 to 60
    /// steps per second, and the frame interval becomes a second divided by
    /// it, as it is when the configuration is derived.
    pub fn update_fps(&mut self, new_fps: usize)
        ensures
            final(self).fps == clamped_fps(new_fps as int),
            MIN_FPS <= final(self).fps <= MAX_FPS,
            final(self).frame_duration == clamped_interval_nanos(new_fps as int),
            final(self).frame_duration == interval_nanos(final(self).fps as int),
            16_666_666 <= final(self).frame_duration <= 1_000_000_000,
            *final(self) == (AppConfig {
                fps: final(self).fps,
                frame_duration: final(self).frame_duration,
                ..*old(self)
            }),
    {
        let fps: usize = if new_fps < MIN_FPS {
            MIN_FPS
        } else if new_fps > MAX_FPS {
            MAX_FPS
        } else {
            new_fps
        };
        proof {
            lemma_clamped_interval(new_fps as int);
        }
        self.fps = fps;
        self.frame_duration = interval_for(fps);
    }
}

} // verus!
