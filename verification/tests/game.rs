use game_of_life::game::{Game, InputEvent};

fn index(w: u32, x: u32, y: u32) -> usize {
    (y * w + x) as usize
}

#[test]
fn new_builds_a_dead_grid() {
    let g = Game::new(5, 4, 16);
    assert_eq!(g.num_cells_x, 5);
    assert_eq!(g.num_cells_y, 4);
    assert_eq!(g.cell_size, 16);
    assert_eq!(g.cells.len(), 20);
    assert_eq!(g.current_state_data.len(), 20);
    assert_eq!(g.next_state_data.len(), 20);
    for (i, cell) in g.cells.iter().enumerate() {
        assert!(!cell.state);
        assert_eq!(cell.x, (i as u32 % 5) * 16);
        assert_eq!(cell.y, (i as u32 / 5) * 16);
    }
    assert!(g.current_state_data.iter().all(|&v| v == 0));
    assert!(g.drawing);
    assert!(!g.is_mouse_button_pressed);
    assert_eq!(g.mouse_x, 0);
    assert_eq!(g.mouse_y, 0);
    assert_eq!(g.time_between_generations_ms, 200);
}

#[test]
fn position_to_index_wraps_at_the_edges() {
    let g = Game::new(5, 4, 16);
    assert_eq!(g.position_to_index(2, 1), 7);
    assert_eq!(g.position_to_index(-1, 0), 4);
    assert_eq!(g.position_to_index(5, 0), 0);
    assert_eq!(g.position_to_index(0, -1), 15);
    assert_eq!(g.position_to_index(0, 4), 0);
    assert_eq!(g.position_to_index(-1, -1), 19);
    assert_eq!(g.position_to_index(5, 4), 0);
    assert_eq!(g.position_to_index(4, 3), 19);
}

#[test]
fn click_toggles_the_cell_under_the_cursor() {
    let mut g = Game::new(3, 3, 4);
    // cursor over column 1, row 2 -> index 7
    g.input(&InputEvent::CursorMoved { x: 5, y: 9 });
    g.input(&InputEvent::MouseInput { pressed: true });
    let stepped = g.update(0);
    assert!(!stepped);
    assert!(g.cells[7].state);
    // alive and highlighted
    assert_eq!(g.current_state_data[7], 3);
    for i in 0..9 {
        if i != 7 {
            assert!(!g.cells[i].state);
            assert_eq!(g.current_state_data[i], 0);
        }
    }
    // while the button stays pressed, the next update toggles it back
    g.update(0);
    assert!(!g.cells[7].state);
    assert_eq!(g.current_state_data[7], 2);
}

#[test]
fn hovering_highlights_without_toggling() {
    let mut g = Game::new(3, 3, 4);
    g.input(&InputEvent::CursorMoved { x: 0, y: 0 });
    g.update(0);
    assert!(!g.cells[0].state);
    assert_eq!(g.current_state_data[0], 2);
    assert!(g.current_state_data[1..].iter().all(|&v| v == 0));
}

#[test]
fn speed_keys_move_the_pause_in_fifty_millisecond_steps() {
    let mut g = Game::new(3, 3, 4);
    g.input(&InputEvent::SpeedUp);
    assert_eq!(g.time_between_generations_ms, 150);
    g.input(&InputEvent::SlowDown);
    assert_eq!(g.time_between_generations_ms, 200);
    for _ in 0..4 {
        g.input(&InputEvent::SpeedUp);
    }
    assert_eq!(g.time_between_generations_ms, 0);
    // the pause never goes below zero
    g.input(&InputEvent::SpeedUp);
    assert_eq!(g.time_between_generations_ms, 0);
    g.input(&InputEvent::SlowDown);
    assert_eq!(g.time_between_generations_ms, 50);
}

#[test]
fn toggle_drawing_switches_modes() {
    let mut g = Game::new(3, 3, 4);
    assert!(g.drawing);
    g.input(&InputEvent::ToggleDrawing);
    assert!(!g.drawing);
    g.input(&InputEvent::ToggleDrawing);
    assert!(g.drawing);
}

#[test]
fn no_generation_before_the_pause_has_elapsed() {
    let mut g = Game::new(5, 5, 4);
    g.current_state_data[12] = 1;
    g.input(&InputEvent::ToggleDrawing);
    let stepped = g.update(199);
    assert!(!stepped);
    assert_eq!(g.current_state_data[12], 1);
    let stepped = g.update(200);
    assert!(stepped);
    // a lone live cell dies
    assert!(g.current_state_data.iter().all(|&v| v == 0));
}

#[test]
fn blinker_oscillates() {
    let mut g = Game::new(5, 5, 4);
    // vertical blinker in the middle column
    for &(x, y) in &[(2u32, 1u32), (2, 2), (2, 3)] {
        g.current_state_data[index(5, x, y)] = 1;
    }
    g.input(&InputEvent::ToggleDrawing);
    assert!(g.update(200));
    let mut expected = vec![0u32; 25];
    for &(x, y) in &[(1u32, 2u32), (2, 2), (3, 2)] {
        expected[index(5, x, y)] = 1;
    }
    assert_eq!(g.current_state_data, expected);
    // and back again
    assert!(g.update(200));
    let mut expected2 = vec![0u32; 25];
    for &(x, y) in &[(2u32, 1u32), (2, 2), (2, 3)] {
        expected2[index(5, x, y)] = 1;
    }
    assert_eq!(g.current_state_data, expected2);
}

#[test]
fn block_is_a_still_life() {
    let mut g = Game::new(6, 6, 4);
    for &(x, y) in &[(2u32, 2u32), (3, 2), (2, 3), (3, 3)] {
        g.current_state_data[index(6, x, y)] = 1;
    }
    let before = g.current_state_data.clone();
    g.input(&InputEvent::ToggleDrawing);
    assert!(g.update(500));
    assert_eq!(g.current_state_data, before);
}

#[test]
fn neighbors_wrap_around_the_grid_edges() {
    let mut g = Game::new(5, 5, 4);
    // a horizontal blinker that spans the left and right edges
    for &(x, y) in &[(4u32, 2u32), (0, 2), (1, 2)] {
        g.current_state_data[index(5, x, y)] = 1;
    }
    g.input(&InputEvent::ToggleDrawing);
    assert!(g.update(200));
    let mut expected = vec![0u32; 25];
    for &(x, y) in &[(0u32, 1u32), (0, 2), (0, 3)] {
        expected[index(5, x, y)] = 1;
    }
    assert_eq!(g.current_state_data, expected);
}

#[test]
fn highlighted_state_words_count_as_live() {
    let mut g = Game::new(5, 5, 4);
    // a blinker whose middle word still carries the cursor highlight
    g.current_state_data[index(5, 1, 2)] = 1;
    g.current_state_data[index(5, 2, 2)] = 3;
    g.current_state_data[index(5, 3, 2)] = 1;
    g.input(&InputEvent::ToggleDrawing);
    assert!(g.update(200));
    let mut expected = vec![0u32; 25];
    for &(x, y) in &[(2u32, 1u32), (2, 2), (2, 3)] {
        expected[index(5, x, y)] = 1;
    }
    assert_eq!(g.current_state_data, expected);
}

#[test]
fn stepping_swaps_the_state_grids() {
    let mut g = Game::new(5, 5, 4);
    g.current_state_data[12] = 1;
    let before = g.current_state_data.clone();
    g.step_generation();
    assert_eq!(g.next_state_data, before);
    assert!(g.current_state_data.iter().all(|&v| v == 0));
}
