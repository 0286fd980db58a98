use game_of_life::config::{AppConfig, RawConfig};
use game_of_life::constants::BACKGROUND_COLOR;
use game_of_life::game_data::BufferHandle;
use game_of_life::game_state::GameState;
use game_of_life::gpu_resources::GpuResources;
use game_of_life::random::Probability;
use game_of_life::render::Renderer;

fn built_in(alive: &[(usize, usize)]) -> Vec<u32> {
    let mut cells = vec![0u32; 100 * 100];
    for &(row, col) in alive {
        cells[row * 100 + col] = 1;
    }
    cells
}

fn config(min_cell_array_len: u32) -> AppConfig {
    AppConfig::from(RawConfig {
        rows: 3,
        cols: 4,
        min_cell_array_len,
        fps: 10,
        paint_fps: 50,
        init_rand_threshold: Probability::new(1, 2).unwrap(),
        window_size: None,
        background_color: [0, 0, 0, 255],
        cursor_color: [255, 0, 0, 255],
    })
}

#[test]
fn new_resources_hold_the_initial_state() {
    let resources = GpuResources::new(&[1, 0, 1]);
    assert_eq!(resources.current_state_buffer, vec![1, 0, 1]);
    assert_eq!(resources.next_state_buffer, vec![0, 0, 0]);
    assert_eq!(resources.num_indices, 6);
    assert_eq!(resources.compute_uniform.rows(), 100);
    assert_eq!(resources.compute_uniform.cols(), 100);
    let empty = GpuResources::new(&[]);
    assert!(empty.current_state_buffer.is_empty());
    assert!(empty.next_state_buffer.is_empty());
}

#[test]
fn swap_buffers_exchanges_the_pair() {
    let mut resources = GpuResources::new(&[1, 0, 1]);
    resources.next_state_buffer = vec![0, 1, 0];
    resources.swap_buffers();
    assert_eq!(resources.current_state_buffer, vec![0, 1, 0]);
    assert_eq!(resources.next_state_buffer, vec![1, 0, 1]);
    resources.swap_buffers();
    assert_eq!(resources.current_state_buffer, vec![1, 0, 1]);
    assert_eq!(resources.next_state_buffer, vec![0, 1, 0]);
}

#[test]
fn renderer_steps_by_exchanging_buffers() {
    let upright = built_in(&[(41, 50), (42, 50), (43, 50)]);
    let flat = built_in(&[(42, 49), (42, 50), (42, 51)]);
    let mut renderer = Renderer::new(&upright);
    renderer.run_compute();
    assert_eq!(renderer.resources().current_state_buffer, upright);
    assert_eq!(renderer.resources().next_state_buffer, flat);
    renderer.step_simulation();
    assert_eq!(renderer.resources().current_state_buffer, flat);
    assert_eq!(renderer.resources().next_state_buffer, upright);
    renderer.run_compute();
    renderer.step_simulation();
    assert_eq!(renderer.resources().current_state_buffer, upright);
}

#[test]
fn renderer_moves_a_glider() {
    let glider = [(0, 1), (1, 2), (2, 0), (2, 1), (2, 2)];
    let mut renderer = Renderer::new(&built_in(&glider));
    for _ in 0..4 {
        renderer.run_compute();
        renderer.step_simulation();
    }
    let moved: Vec<(usize, usize)> = glider.iter().map(|&(r, c)| (r + 1, c + 1)).collect();
    assert_eq!(renderer.resources().current_state_buffer, built_in(&moved));
}

#[test]
fn renderer_draws_the_built_in_grid() {
    let renderer = Renderer::new(&built_in(&[]));
    let draw = renderer.render();
    assert_eq!(draw.instances, 10_000);
    assert_eq!(draw.indices, 6);
    assert_eq!(draw.clear_color, BACKGROUND_COLOR);
    assert_eq!(draw.clear_color, [26, 26, 26, 255]);
    assert_eq!(draw.bind_group.source, BufferHandle::A);
}

#[test]
fn game_state_is_redrawn_on_update() {
    let threshold = GameState::threshold();
    assert_eq!((threshold.numerator, threshold.denominator), (7, 10));
    let mut state = GameState::new(500);
    assert_eq!(state.get_state().len(), 500);
    assert!(state.get_state().iter().all(|&cell| cell <= 1));
    let alive: u32 = state.get_state().iter().sum();
    assert!(alive > 250);
    state.update();
    assert_eq!(state.get_state().len(), 500);
    assert!(state.get_state().iter().all(|&cell| cell <= 1));
    let none = GameState::new(0);
    assert!(none.get_state().is_empty());
}

#[test]
fn wide_window_gets_more_columns() {
    let mut config = config(10);
    config.update_cell_configuration(800, 600);
    assert_eq!((config.rows, config.cols), (10, 13));
    assert_eq!(config.compute_dispatches, [1, 1]);
    config.update_cell_configuration(1920, 600);
    assert_eq!((config.rows, config.cols), (10, 32));
    assert_eq!(config.compute_dispatches, [2, 1]);
}

#[test]
fn tall_window_gets_more_rows() {
    let mut config = config(10);
    config.update_cell_configuration(600, 800);
    assert_eq!((config.rows, config.cols), (13, 10));
    config.update_cell_configuration(100, 1700);
    assert_eq!((config.rows, config.cols), (170, 10));
    assert_eq!(config.compute_dispatches, [1, 11]);
}

#[test]
fn square_or_empty_window_keeps_the_grid() {
    for (width, height) in [(500, 500), (0, 0), (0, 600), (800, 0)] {
        let mut config = config(10);
        config.compute_dispatches = [9, 9];
        config.update_cell_configuration(width, height);
        assert_eq!((config.rows, config.cols), (3, 4));
        assert_eq!(config.compute_dispatches, [1, 1]);
        assert_eq!(config.min_cell_array_len, 10);
    }
}

#[test]
fn fitted_grid_is_capped_at_32_bits() {
    let mut config = config(u32::MAX);
    config.update_cell_configuration(1, u32::MAX);
    assert_eq!((config.rows, config.cols), (u32::MAX, u32::MAX));
    config.update_cell_configuration(2, 3);
    assert_eq!(config.rows, u32::MAX);
    config.update_cell_configuration(3, 2);
    assert_eq!(config.cols, u32::MAX);
    assert_eq!(config.rows, u32::MAX);
    assert_eq!(config.compute_dispatches, [268_435_456, 268_435_456]);
}
