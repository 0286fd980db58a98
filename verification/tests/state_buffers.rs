use game_of_life::config::{AppConfig, RawConfig};
use game_of_life::constants::{COLS, INDICES, ROWS};
use game_of_life::game_data::{BufferHandle, GameData};
use game_of_life::random::{random_state, Probability};
use game_of_life::uniforms::ComputeUniforms;

fn config_with(rows: u32, cols: u32, numerator: u32, denominator: u32) -> AppConfig {
    AppConfig::from(RawConfig {
        rows,
        cols,
        min_cell_array_len: 10,
        fps: 10,
        paint_fps: 50,
        init_rand_threshold: Probability::new(numerator, denominator).unwrap(),
        window_size: Some((800, 600)),
        background_color: [25, 25, 25, 255],
        cursor_color: [255, 0, 0, 255],
    })
}

#[test]
fn built_in_grid() {
    assert_eq!(ROWS, 100);
    assert_eq!(COLS, 100);
    assert_eq!(INDICES, [0, 1, 2, 2, 3, 0]);
    let block = ComputeUniforms::new();
    assert_eq!(block.rows(), 100);
    assert_eq!(block.cols(), 100);
    assert_eq!(block.words(), [100, 100]);
}

#[test]
fn probability_must_be_a_ratio_up_to_one() {
    assert!(Probability::new(0, 0).is_none());
    assert!(Probability::new(1, 0).is_none());
    assert!(Probability::new(3, 2).is_none());
    let half = Probability::new(1, 2).unwrap();
    assert_eq!((half.numerator, half.denominator), (1, 2));
    assert!(half.is_wf());
    assert!(Probability::new(0, 5).is_some());
    assert!(Probability::new(5, 5).is_some());
    assert!(!Probability { numerator: 2, denominator: 1 }.is_wf());
    assert!(!Probability { numerator: 0, denominator: 0 }.is_wf());
}

#[test]
fn random_state_has_one_word_per_cell() {
    let mut rng = rand::rng();
    let half = Probability::new(1, 2).unwrap();
    let state = random_state(&mut rng, 1000, &half);
    assert_eq!(state.len(), 1000);
    assert!(state.iter().all(|&cell| cell <= 1));
    assert!(state.iter().any(|&cell| cell == 1));
    assert!(state.iter().any(|&cell| cell == 0));
    assert_eq!(random_state(&mut rng, 0, &half), Vec::<u32>::new());
}

#[test]
fn certain_and_impossible_draws() {
    let mut rng = rand::rng();
    let always = Probability::new(7, 7).unwrap();
    let never = Probability::new(0, 7).unwrap();
    assert_eq!(random_state(&mut rng, 64, &always), vec![1u32; 64]);
    assert_eq!(random_state(&mut rng, 64, &never), vec![0u32; 64]);
}

#[test]
fn new_game_data_seeds_both_buffers_alike() {
    let config = config_with(12, 9, 1, 2);
    let data = GameData::new(&config);
    assert!(data.is_a_current);
    assert!(data.is_wf());
    assert_eq!(data.game_state_buffer_a.len(), 108);
    assert_eq!(data.game_state_buffer_a, data.game_state_buffer_b);
    assert_eq!(data.compute_uniform.rows(), 12);
    assert_eq!(data.compute_uniform.cols(), 9);
    let full = GameData::new(&config_with(3, 3, 1, 1));
    assert_eq!(full.game_state_buffer_a, vec![1u32; 9]);
}

#[test]
fn swap_twice_restores_the_designation() {
    let mut data = GameData::new(&config_with(2, 2, 0, 1));
    assert_eq!(data.read_current(), BufferHandle::A);
    assert_eq!(data.read_next_target(), BufferHandle::B);
    let target = data.read_next_target();
    data.swap_current();
    assert_eq!(data.read_current(), target);
    assert_eq!(data.read_current(), BufferHandle::B);
    assert_eq!(data.read_next_target(), BufferHandle::A);
    assert!(!data.is_a_current);
    data.swap_current();
    assert_eq!(data.read_current(), BufferHandle::A);
    assert!(data.is_a_current);
}

#[test]
fn bind_groups_follow_the_flag() {
    let mut data = GameData::new(&config_with(2, 2, 0, 1));
    let compute = data.get_current_compute_bind_group();
    assert_eq!((compute.source, compute.target), (BufferHandle::A, BufferHandle::B));
    assert_eq!(data.get_current_render_bind_group().source, BufferHandle::A);
    data.swap_current();
    let compute = data.get_current_compute_bind_group();
    assert_eq!((compute.source, compute.target), (BufferHandle::B, BufferHandle::A));
    assert_eq!(data.get_current_render_bind_group().source, BufferHandle::B);
    assert_eq!(BufferHandle::A.other(), BufferHandle::B);
    assert_eq!(BufferHandle::B.other(), BufferHandle::A);
}

#[test]
fn swap_keeps_the_contents() {
    let mut data = GameData::new(&config_with(1, 3, 0, 1));
    data.game_state_buffer_a = vec![1, 0, 1];
    data.game_state_buffer_b = vec![0, 1, 0];
    data.swap_current();
    assert_eq!(data.game_state_buffer_a, vec![1, 0, 1]);
    assert_eq!(data.game_state_buffer_b, vec![0, 1, 0]);
    assert_eq!(*data.cells(data.read_current()), vec![0, 1, 0]);
    assert_eq!(*data.cells(data.read_next_target()), vec![1, 0, 1]);
}

#[test]
fn update_grid_state_writes_both_buffers() {
    let mut data = GameData::new(&config_with(2, 3, 1, 1));
    data.update_grid_state(&[0, 1, 0, 1, 0, 1]);
    assert_eq!(data.game_state_buffer_a, vec![0, 1, 0, 1, 0, 1]);
    assert_eq!(data.game_state_buffer_b, vec![0, 1, 0, 1, 0, 1]);
    data.swap_current();
    assert_eq!(*data.cells(data.read_current()), vec![0, 1, 0, 1, 0, 1]);
}

#[test]
fn short_write_overwrites_a_prefix() {
    let mut data = GameData::new(&config_with(2, 3, 1, 1));
    data.update_grid_state(&[0, 0]);
    assert_eq!(data.game_state_buffer_a, vec![0, 0, 1, 1, 1, 1]);
    assert_eq!(data.game_state_buffer_b, vec![0, 0, 1, 1, 1, 1]);
    data.update_grid_state(&[]);
    assert_eq!(data.game_state_buffer_a, vec![0, 0, 1, 1, 1, 1]);
}

#[test]
fn reset_kills_every_cell() {
    let config = config_with(4, 4, 1, 1);
    let mut data = GameData::new(&config);
    data.swap_current();
    data.reset_grid_state(&config);
    assert_eq!(data.game_state_buffer_a, vec![0u32; 16]);
    assert_eq!(data.game_state_buffer_b, vec![0u32; 16]);
    assert!(!data.is_a_current);
}

#[test]
fn randomise_rewrites_both_buffers() {
    let dead = config_with(4, 4, 0, 1);
    let full = config_with(4, 4, 1, 1);
    let half = config_with(4, 4, 1, 2);
    let mut data = GameData::new(&dead);
    assert_eq!(data.game_state_buffer_a, vec![0u32; 16]);
    let drawn = data.randomise_grid_state(&full);
    assert_eq!(drawn, vec![1u32; 16]);
    assert_eq!(data.game_state_buffer_a, vec![1u32; 16]);
    assert_eq!(data.game_state_buffer_b, vec![1u32; 16]);
    let drawn = data.randomise_grid_state(&half);
    assert_eq!(data.game_state_buffer_a, drawn);
    assert_eq!(data.game_state_buffer_b, drawn);
    let drawn = data.randomise_grid_state(&dead);
    assert_eq!(drawn, vec![0u32; 16]);
    assert_eq!(data.game_state_buffer_b, vec![0u32; 16]);
}

#[test]
fn overlay_merge_is_an_or_into_both_buffers() {
    let mut data = GameData::new(&config_with(1, 5, 0, 1));
    data.game_state_buffer_a = vec![1, 0, 0, 3, 0];
    data.game_state_buffer_b = vec![0, 0, 1, 0, 0];
    data.overlay_merge(&[0, 1, 0, 9, 0]);
    assert_eq!(data.game_state_buffer_a, vec![1, 1, 0, 1, 0]);
    assert_eq!(data.game_state_buffer_b, vec![0, 1, 1, 1, 0]);
    data.overlay_merge(&[0, 1, 0, 9, 0]);
    assert_eq!(data.game_state_buffer_a, vec![1, 1, 0, 1, 0]);
    data.overlay_merge(&[0, 0, 0, 0, 0]);
    assert_eq!(data.game_state_buffer_a, vec![1, 1, 0, 1, 0]);
    assert_eq!(data.game_state_buffer_b, vec![0, 1, 1, 1, 0]);
    data.overlay_merge(&[0, 0, 0, 0, 1, 1, 1]);
    assert_eq!(data.game_state_buffer_a, vec![1, 1, 0, 1, 1]);
    data.overlay_merge(&[]);
    assert_eq!(data.game_state_buffer_a, vec![1, 1, 0, 1, 1]);
}

#[test]
fn step_writes_the_other_buffer_then_swaps() {
    let config = config_with(5, 5, 0, 1);
    let mut data = GameData::new(&config);
    let mut upright = vec![0u32; 25];
    for row in 1..4 {
        upright[row * 5 + 2] = 1;
    }
    let mut flat = vec![0u32; 25];
    for col in 1..4 {
        flat[2 * 5 + col] = 1;
    }
    data.update_grid_state(&upright);
    data.step(config.compute_dispatches);
    assert_eq!(data.read_current(), BufferHandle::B);
    assert_eq!(data.game_state_buffer_b, flat);
    assert_eq!(data.game_state_buffer_a, upright);
    data.step(config.compute_dispatches);
    assert_eq!(data.read_current(), BufferHandle::A);
    assert_eq!(data.game_state_buffer_a, upright);
    assert_eq!(data.game_state_buffer_b, flat);
}

#[test]
fn misfit_buffers_are_not_well_formed() {
    let mut data = GameData::new(&config_with(2, 2, 0, 1));
    assert!(data.is_wf());
    data.game_state_buffer_b.push(0);
    assert!(!data.is_wf());
}

#[test]
fn uniform_words_hold_the_grid() {
    let data = GameData::new(&config_with(12, 9, 0, 1));
    let words = data.compute_uniform.words();
    assert_eq!(words[0], 12);
    assert_eq!(words[1], 9);
    assert_eq!(words, [12, 9, 0, 0]);
}
