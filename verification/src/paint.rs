use vstd::prelude::*;
use crate::config::AppConfig;
use crate::game_data::{StateBuffers, dead_cells, lemma_merged_is_or};

verus! {

/// The pixels one cell spans along each axis of a window: the window's
/// extent divided by the grid's, rounded down. A grid without rows or
/// without columns has no span.
pub open spec fn spec_div_factor(window_size: (u32, u32), rows: int, cols: int) -> Option<
    (u32, u32),
> {
    if rows >= 1 && cols >= 1 {
        Some(((window_size.0 as int / cols) as u32, (window_size.1 as int / rows) as u32))
    } else {
        None
    }
}

/// The cell under a pointer at pixel (`x`, `y`), where one cell spans
/// `div_x` by `div_y` pixels, as an index into the paint buffer; `None`
/// where the pointer is over no cell. The column is the pointer's x divided
/// by the span of a cell. Window coordinates grow downwards and grid rows
/// grow upwards, so the row is `(rows - 1) - y / span`.
pub open spec fn cell_under(x: int, y: int, div_x: int, div_y: int, rows: int, cols: int) -> Option<
    int,
> {
    if div_x > 0 && div_y > 0 && x >= 0 && y >= 0 && x / div_x < cols && y / div_y <= rows - 1 {
        Some(x / div_x + cols * ((rows - 1) - y / div_y))
    } else {
        None
    }
}

/// The cell under a pointer at `pos`, or `None` where the pointer is over no
/// cell or the span of a cell is not known.
pub open spec fn painted_cell(
    pos: (i64, i64),
    div_factor: Option<(u32, u32)>,
    rows: int,
    cols: int,
) -> Option<int> {
    match div_factor {
        Some((div_x, div_y)) => cell_under(
            pos.0 as int,
            pos.1 as int,
            div_x as int,
            div_y as int,
            rows,
            cols,
        ),
        None => None,
    }
}

/// `buffer` with the cell at `cell` marked, where there is such a cell.
pub open spec fn marked(buffer: Seq<u32>, cell: Option<int>) -> Seq<u32> {
    if cell is Some && 0 <= cell->0 < buffer.len() {
        buffer.update(cell->0, 1u32)
    } else {
        buffer
    }
}

/// `buffer` with every cell of `cells` marked, in turn.
pub open spec fn marked_all(buffer: Seq<u32>, cells: Seq<int>) -> Seq<u32>
    decreases cells.len(),
{
    if cells.len() == 0 {
        buffer
    } else {
        marked(marked_all(buffer, cells.drop_last()), Some(cells.last()))
    }
}

/// A pointer over a cell of the grid paints that cell: the index is the
/// cell's, and lies in a buffer of one word for each cell.
pub proof fn lemma_painted_cell_in_grid(
    x: int,
    y: int,
    div_x: int,
    div_y: int,
    rows: int,
    cols: int,
)
    requires
        cell_under(x, y, div_x, div_y, rows, cols) is Some,
    ensures
        0 <= cell_under(x, y, div_x, div_y, rows, cols)->0 < rows * cols,
        cell_under(x, y, div_x, div_y, rows, cols)->0 % cols == x / div_x,
        cell_under(x, y, div_x, div_y, rows, cols)->0 / cols == (rows - 1) - y / div_y,
{
    let col = x / div_x;
    let row = (rows - 1) - y / div_y;
    assert(0 <= x / div_x && 0 <= y / div_y) by (nonlinear_arith)
        requires
            x >= 0,
            y >= 0,
            div_x > 0,
            div_y > 0,
    ;
    crate::compute::lemma_cell_index(rows, cols, row, col);
    assert(col + cols * row == row * cols + col) by (nonlinear_arith);
}

/// A pointer outside the grid paints nothing: left of or above the window,
/// or at a column or row the grid does not have.
pub proof fn lemma_outside_grid_paints_nothing(
    pos: (i64, i64),
    div_factor: (u32, u32),
    rows: int,
    cols: int,
    buffer: Seq<u32>,
)
    requires
        div_factor.0 > 0,
        div_factor.1 > 0,
        pos.0 < 0 || pos.1 < 0 || pos.0 as int / div_factor.0 as int >= cols || pos.1 as int
            / div_factor.1 as int >= rows,
    ensures
        painted_cell(pos, Some(div_factor), rows, cols) is None,
        marked(buffer, painted_cell(pos, Some(div_factor), rows, cols)) == buffer,
{
}

/// Marking cells keeps the buffer's length, and leaves a cell nonzero
/// exactly if it was nonzero before or is among the marked ones.
pub proof fn lemma_marked_all(buffer: Seq<u32>, cells: Seq<int>)
    ensures
        marked_all(buffer, cells).len() == buffer.len(),
        forall|i: int|
            0 <= i < buffer.len() ==> ((#[trigger] marked_all(buffer, cells)[i] != 0) <==> (
            buffer[i] != 0 || cells.contains(i))),
    decreases cells.len(),
{
    if cells.len() > 0 {
        let front = cells.drop_last();
        lemma_marked_all(buffer, front);
        assert forall|i: int| 0 <= i < buffer.len() implies ((#[trigger] marked_all(
            buffer,
            cells,
        )[i] != 0) <==> (buffer[i] != 0 || cells.contains(i))) by {
            if cells.contains(i) {
                let k = choose|k: int| 0 <= k < cells.len() && cells[k] == i;
                if k < front.len() {
                    assert(front[k] == i);
                    assert(front.contains(i));
                }
            }
            if front.contains(i) {
                let k = choose|k: int| 0 <= k < front.len() && front[k] == i;
                assert(cells[k] == i);
            }
            assert(cells[cells.len() - 1] == cells.last());
        }
    }
}

/// What a painter holds: where the pointer is, the cells painted since the
/// last flush, and the copy of them that was last uploaded.
#[verifier::ext_equal]
pub struct Painter {
    pub in_grid: bool,
    pub is_pressed: bool,
    pub pos: (i64, i64),
    pub cpu: Seq<u32>,
    pub gpu: Seq<u32>,
    pub div_factor: Option<(u32, u32)>,
    pub finger_id: Option<u64>,
}

impl Painter {
    /// The painter after the cell under the pointer was marked, on a grid
    /// of `rows` by `cols` cells. A pointer over no cell marks nothing.
    pub open spec fn recorded(self, rows: int, cols: int) -> Painter {
        Painter {
            cpu: marked(self.cpu, painted_cell(self.pos, self.div_factor, rows, cols)),
            ..self
        }
    }

    /// The painter after every cell was unmarked.
    pub open spec fn cleared(self) -> Painter {
        Painter { cpu: dead_cells(self.cpu.len()), ..self }
    }

    /// The painter after the whole paint buffer was uploaded.
    pub open spec fn uploaded(self) -> Painter {
        Painter { gpu: self.cpu, ..self }
    }

    /// The painter after a flush: the paint buffer was uploaded, then
    /// cleared.
    pub open spec fn flushed(self) -> Painter {
        self.uploaded().cleared()
    }

    /// The painter after the span of a cell was recomputed for a window of
    /// `window_size` pixels.
    pub open spec fn configured(self, window_size: (u32, u32), rows: int, cols: int) -> Painter {
        Painter { div_factor: spec_div_factor(window_size, rows, cols), ..self }
    }
}

/// Painting is additive and a flush leaves nothing behind: after cells were
/// marked in an empty paint buffer and flushed, the paint buffer is empty
/// again, the upload holds the marks, and in the state buffers a cell is
/// alive exactly if it was alive before or was marked. A second flush with
/// no new marks changes nothing in the state buffers.
pub proof fn lemma_paint_then_flush(buffers: StateBuffers, painter: Painter, cells: Seq<int>)
    requires
        buffers.wf(),
        painter.cpu == dead_cells(buffers.a.len()),
        forall|k: int| 0 <= k < cells.len() ==> 0 <= #[trigger] cells[k] < buffers.a.len(),
    ensures
        ({
            let marks = marked_all(painter.cpu, cells);
            let drawn = Painter { cpu: marks, ..painter };
            let after = buffers.painted(drawn.flushed().gpu);
            &&& drawn.flushed().cpu == dead_cells(buffers.a.len())
            &&& drawn.flushed().gpu == marks
            &&& after.wf()
            &&& forall|i: int|
                0 <= i < buffers.a.len() ==> ((#[trigger] after.a[i] != 0) <==> (buffers.a[i] != 0
                    || cells.contains(i)))
            &&& forall|i: int|
                0 <= i < buffers.b.len() ==> ((#[trigger] after.b[i] != 0) <==> (buffers.b[i] != 0
                    || cells.contains(i)))
            &&& after.painted(drawn.flushed().flushed().gpu) == after
        }),
{
    let marks = marked_all(painter.cpu, cells);
    let drawn = Painter { cpu: marks, ..painter };
    let after = buffers.painted(drawn.flushed().gpu);
    lemma_marked_all(painter.cpu, cells);
    lemma_merged_is_or(buffers.a, marks);
    lemma_merged_is_or(buffers.b, marks);
    assert(drawn.flushed().cpu =~= dead_cells(buffers.a.len()));
    assert(drawn.flushed().flushed().gpu =~= dead_cells(marks.len()));
    lemma_merged_is_or(after.a, marks);
    lemma_merged_is_or(after.b, marks);
    assert(after.painted(drawn.flushed().flushed().gpu) =~= after);
}

/// The pointer and the cells it has painted since the last flush. The GPU's
/// paint buffer is kept as the copy that was last uploaded to it.
pub struct MousePainter {
    pub in_grid: bool,
    pub is_pressed: bool,
    pub pos: (i64, i64),
    pub paint_buffer_cpu: Vec<u32>,
    pub paint_buffer_gpu: Vec<u32>,
    pub array_div_factor: Option<(u32, u32)>,
    pub finger_id: Option<u64>,
}

impl View for MousePainter {
    type V = Painter;

    open spec fn view(&self) -> Painter {
        Painter {
            in_grid: self.in_grid,
            is_pressed: self.is_pressed,
            pos: self.pos,
            cpu: self.paint_buffer_cpu@,
            gpu: self.paint_buffer_gpu@,
            div_factor: self.array_div_factor,
            finger_id: self.finger_id,
        }
    }
}

impl MousePainter {
    /// What a new painter holds: nothing is painted, the pointer is outside
    /// the grid with no button down.
    pub open spec fn spec_new(config: AppConfig, window_size: (u32, u32)) -> Painter {
        Painter {
            in_grid: false,
            is_pressed: false,
            pos: (0i64, 0i64),
            cpu: dead_cells(config.spec_num_elements() as nat),
            gpu: dead_cells(config.spec_num_elements() as nat),
            div_factor: spec_div_factor(window_size, config.rows as int, config.cols as int),
            finger_id: None,
        }
    }

    /// A painter for the grid of `config` in a window of `window_size`
    /// pixels, with nothing painted and the pointer outside the grid.
    pub fn new(config: &AppConfig, window_size: (u32, u32)) -> (painter: Self)
        requires
            config.spec_num_elements() <= usize::MAX,
        ensures
            painter@ == Self::spec_new(*config, window_size),
    {
        let count: usize = config.num_elements() as usize;
        let paint_buffer: Vec<u32> = vec![0u32; count];
        let painter_buffer_gpu: Vec<u32> = vec![0u32; count];
        assert(paint_buffer@ =~= dead_cells(config.spec_num_elements() as nat));
        assert(painter_buffer_gpu@ =~= dead_cells(config.spec_num_elements() as nat));
        Self {
            in_grid: false,
            is_pressed: false,
            pos: (0, 0),
            paint_buffer_cpu: paint_buffer,
            paint_buffer_gpu: painter_buffer_gpu,
            array_div_factor: Self::calc_array_div_factor(window_size, config),
            finger_id: None,
        }
    }

    /// Marks the cell under the pointer in the paint buffer. A pointer over
    /// no cell of the grid of `config` marks nothing.
    pub fn add_to_buffer(&mut self, config: &AppConfig)
        ensures
            final(self)@ == old(self)@.recorded(config.rows as int, config.cols as int),
    {
        let (div_x, div_y) = match self.array_div_factor {
            Some(factor) => factor,
            None => {
                return ;
            },
        };
        if div_x == 0 || div_y == 0 || self.pos.0 < 0 || self.pos.1 < 0 || config.rows == 0 {
            assert(self.pos.1 >= 0 && div_y > 0 ==> self.pos.1 as int / div_y as int >= 0)
                by (nonlinear_arith);
            return ;
        }
        let x: u64 = self.pos.0 as u64 / div_x as u64;
        if x >= config.cols as u64 {
            return ;
        }
        let down: u64 = self.pos.1 as u64 / div_y as u64;
        let y: u64 = match (config.rows as u64 - 1).checked_sub(down) {
            Some(y) => y,
            None => {
                return ;
            },
        };
        assert(config.cols * y + x < config.cols * config.rows) by (nonlinear_arith)
            requires
                0 <= x < config.cols,
                0 <= y < config.rows,
        ;
        assert(config.cols * config.rows <= 0xffff_ffff * 0xffff_ffff) by (nonlinear_arith)
            requires
                0 <= config.rows <= 0xffff_ffff,
                0 <= config.cols <= 0xffff_ffff,
        ;
        let array_pos: u64 = x + config.cols as u64 * y;
        if array_pos < self.paint_buffer_cpu.len() as u64 {
            self.paint_buffer_cpu.set(array_pos as usize, 1);
        }
    }

    /// Unmarks every cell of the paint buffer.
    pub fn clear_buffer(&mut self)
        ensures
            final(self)@ == old(self)@.cleared(),
    {
        let mut i: usize = 0;
        while i < self.paint_buffer_cpu.len()
            invariant
                self.paint_buffer_cpu.len() == old(self).paint_buffer_cpu.len(),
                forall|j: int| 0 <= j < i ==> #[trigger] self.paint_buffer_cpu@[j] == 0,
                self@ == (Painter { cpu: self.paint_buffer_cpu@, ..old(self)@ }),
            decreases self.paint_buffer_cpu.len() - i,
        {
            self.paint_buffer_cpu.set(i, 0);
            i = i + 1;
        }
        assert(self.paint_buffer_cpu@ =~= dead_cells(old(self).paint_buffer_cpu@.len()));
    }

    /// The pixels one cell of the grid of `config` spans in a window of
    /// `window_size` pixels, or `None` for a grid without cells.
    pub fn calc_array_div_factor(window_size: (u32, u32), config: &AppConfig) -> (div_factor:
        Option<(u32, u32)>)
        ensures
            div_factor == spec_div_factor(window_size, config.rows as int, config.cols as int),
    {
        if config.rows >= 1 && config.cols >= 1 {
            Some((window_size.0 / config.cols, window_size.1 / config.rows))
        } else {
            None
        }
    }

    /// Recomputes the span of a cell after the window was resized.
    pub fn configure(&mut self, window_size: (u32, u32), config: &AppConfig)
        ensures
            final(self)@ == old(self)@.configured(
                window_size,
                config.rows as int,
                config.cols as int,
            ),
    {
        self.array_div_factor = Self::calc_array_div_factor(window_size, config);
    }

    /// Uploads the paint buffer: the GPU's copy becomes the whole CPU
    /// buffer, unpainted cells included.
    pub fn write_to_buffer(&mut self)
        ensures
            final(self)@ == old(self)@.uploaded(),
    {
        self.paint_buffer_gpu = self.paint_buffer_cpu.clone();
    }
}

} // verus!
