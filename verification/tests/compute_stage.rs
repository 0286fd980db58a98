use game_of_life::compute::{dispatch_count, ComputePass, WORKGROUP_SIZE};
use game_of_life::config::{AppConfig, RawConfig};
use game_of_life::game_data::{BufferHandle, ComputeUniform, GameData};
use game_of_life::random::Probability;

fn config(rows: u32, cols: u32) -> AppConfig {
    AppConfig::from(RawConfig {
        rows,
        cols,
        min_cell_array_len: 10,
        fps: 10,
        paint_fps: 50,
        init_rand_threshold: Probability::new(0, 1).unwrap(),
        window_size: None,
        background_color: [25, 25, 25, 255],
        cursor_color: [255, 0, 0, 255],
    })
}

fn grid(rows: usize, cols: usize, alive: &[(usize, usize)]) -> Vec<u32> {
    let mut cells = vec![0u32; rows * cols];
    for &(row, col) in alive {
        cells[row * cols + col] = 1;
    }
    cells
}

fn next_generation(rows: u32, cols: u32, current: &Vec<u32>) -> Vec<u32> {
    let uniform = ComputeUniform::new(rows, cols);
    let mut next = vec![7u32; current.len()];
    ComputePass::run(
        &uniform,
        current,
        &mut next,
        [dispatch_count(cols), dispatch_count(rows)],
    );
    next
}

#[test]
fn workgroup_is_sixteen_wide() {
    assert_eq!(WORKGROUP_SIZE, 16);
}

#[test]
fn dispatch_count_rounds_up() {
    assert_eq!(dispatch_count(0), 0);
    assert_eq!(dispatch_count(1), 1);
    assert_eq!(dispatch_count(15), 1);
    assert_eq!(dispatch_count(16), 1);
    assert_eq!(dispatch_count(17), 2);
    assert_eq!(dispatch_count(100), 7);
    assert_eq!(dispatch_count(u32::MAX), 268_435_456);
}

#[test]
fn config_dispatch_is_columns_then_rows() {
    assert_eq!(config(100, 100).compute_dispatches, [7, 7]);
    assert_eq!(config(16, 33).compute_dispatches, [3, 1]);
    assert_eq!(config(1, 1).compute_dispatches, [1, 1]);
}

#[test]
fn dead_grid_stays_dead() {
    let current = vec![0u32; 20 * 30];
    let next = next_generation(20, 30, &current);
    assert_eq!(next, current);
}

#[test]
fn block_is_still() {
    let current = grid(4, 4, &[(1, 1), (1, 2), (2, 1), (2, 2)]);
    assert_eq!(next_generation(4, 4, &current), current);
}

#[test]
fn blinker_turns() {
    let upright = grid(5, 5, &[(1, 2), (2, 2), (3, 2)]);
    let flat = grid(5, 5, &[(2, 1), (2, 2), (2, 3)]);
    assert_eq!(next_generation(5, 5, &upright), flat);
    assert_eq!(next_generation(5, 5, &flat), upright);
}

#[test]
fn lonely_and_crowded_cells_die() {
    let lonely = grid(3, 3, &[(1, 1)]);
    assert_eq!(next_generation(3, 3, &lonely), vec![0u32; 9]);
    let crowded = grid(3, 3, &[(0, 0), (0, 1), (0, 2), (1, 0), (1, 1)]);
    let next = next_generation(3, 3, &crowded);
    assert_eq!(next[1 * 3 + 1], 0);
    assert_eq!(next[0 * 3 + 1], 0);
    assert_eq!(next, grid(3, 3, &[(0, 0), (0, 2), (1, 0), (1, 2)]));
}

#[test]
fn edges_do_not_wrap() {
    let current = grid(3, 3, &[(0, 0), (0, 1), (0, 2)]);
    assert_eq!(next_generation(3, 3, &current), grid(3, 3, &[(0, 1), (1, 1)]));
}

#[test]
fn any_nonzero_word_is_alive() {
    let mut current = vec![0u32; 25];
    current[1 * 5 + 2] = 9;
    current[2 * 5 + 2] = 0xffff_ffff;
    current[3 * 5 + 2] = 2;
    assert_eq!(next_generation(5, 5, &current), grid(5, 5, &[(2, 1), (2, 2), (2, 3)]));
}

#[test]
fn invoke_computes_one_cell() {
    let uniform = ComputeUniform::new(5, 5);
    let upright = grid(5, 5, &[(1, 2), (2, 2), (3, 2)]);
    assert_eq!(ComputePass::invoke(&uniform, &upright, 2, 1), 1);
    assert_eq!(ComputePass::invoke(&uniform, &upright, 2, 2), 1);
    assert_eq!(ComputePass::invoke(&uniform, &upright, 1, 2), 0);
    assert_eq!(ComputePass::invoke(&uniform, &upright, 0, 0), 0);
    assert_eq!(ComputePass::invoke(&uniform, &upright, 4, 4), 0);
}

#[test]
fn run_leaves_current_alone_and_overwrites_next() {
    let uniform = ComputeUniform::new(5, 5);
    let current = grid(5, 5, &[(1, 2), (2, 2), (3, 2)]);
    let before = current.clone();
    let mut next = vec![1u32; 25];
    ComputePass::run(&uniform, &current, &mut next, [1, 1]);
    assert_eq!(current, before);
    assert_eq!(next, grid(5, 5, &[(2, 1), (2, 2), (2, 3)]));
}

#[test]
fn short_dispatch_leaves_uncovered_cells() {
    let uniform = ComputeUniform::new(2, 20);
    let current = vec![0u32; 40];
    let mut next = vec![5u32; 40];
    ComputePass::run(&uniform, &current, &mut next, [1, 1]);
    for row in 0..2 {
        for col in 0..20 {
            let expected = if col < 16 { 0 } else { 5 };
            assert_eq!(next[row * 20 + col], expected);
        }
    }
    let mut none = vec![5u32; 40];
    ComputePass::run(&uniform, &current, &mut none, [0, 4]);
    assert_eq!(none, vec![5u32; 40]);
}

#[test]
fn oversized_dispatch_writes_each_cell_once() {
    let uniform = ComputeUniform::new(5, 5);
    let current = grid(5, 5, &[(1, 2), (2, 2), (3, 2)]);
    let mut next = vec![0u32; 25];
    ComputePass::run(&uniform, &current, &mut next, [3, 2]);
    assert_eq!(next, grid(5, 5, &[(2, 1), (2, 2), (2, 3)]));
}

#[test]
fn glider_moves_one_cell_diagonally_in_four_steps() {
    let rows = 20;
    let cols = 18;
    let glider = [(0, 1), (1, 2), (2, 0), (2, 1), (2, 2)];
    let config = config(rows, cols);
    let mut data = GameData::new(&config);
    data.update_grid_state(&grid(20, 18, &glider));
    for _ in 0..4 {
        data.step(config.compute_dispatches);
    }
    let moved: Vec<(usize, usize)> = glider.iter().map(|&(r, c)| (r + 1, c + 1)).collect();
    assert_eq!(*data.cells(data.read_current()), grid(20, 18, &moved));
    assert_eq!(data.read_current(), BufferHandle::A);
    for _ in 0..4 {
        data.step(config.compute_dispatches);
    }
    let moved: Vec<(usize, usize)> = glider.iter().map(|&(r, c)| (r + 2, c + 2)).collect();
    assert_eq!(*data.cells(data.read_current()), grid(20, 18, &moved));
}

#[test]
fn compute_uniform_block_layout() {
    let block = ComputeUniform::new(3, 4);
    assert_eq!(block.rows(), 3);
    assert_eq!(block.cols(), 4);
    assert_eq!(block.words(), [3, 4, 0, 0]);
}

#[test]
fn glider_moves_from_any_place_with_room() {
    let glider = [(0, 1), (1, 2), (2, 0), (2, 1), (2, 2)];
    for (rows, cols, top, left) in [(4, 4, 0, 0), (5, 7, 1, 3), (9, 4, 5, 0), (17, 33, 13, 29)] {
        let placed: Vec<(usize, usize)> = glider.iter().map(|&(r, c)| (r + top, c + left)).collect();
        let moved: Vec<(usize, usize)> = placed.iter().map(|&(r, c)| (r + 1, c + 1)).collect();
        let mut state = grid(rows, cols, &placed);
        for _ in 0..4 {
            state = next_generation(rows as u32, cols as u32, &state);
        }
        assert_eq!(state, grid(rows, cols, &moved));
    }
}

#[test]
fn glider_goes_through_its_phases() {
    let phases: [[(usize, usize); 5]; 4] = [
        [(0, 1), (1, 2), (2, 0), (2, 1), (2, 2)],
        [(1, 0), (1, 2), (2, 1), (2, 2), (3, 1)],
        [(1, 2), (2, 0), (2, 2), (3, 1), (3, 2)],
        [(1, 1), (2, 2), (2, 3), (3, 1), (3, 2)],
    ];
    let mut state = grid(6, 6, &phases[0]);
    for phase in 1..4 {
        state = next_generation(6, 6, &state);
        assert_eq!(state, grid(6, 6, &phases[phase]));
    }
}
