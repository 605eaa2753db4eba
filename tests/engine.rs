use rustnake::game::Game;
use rustnake::input::{
    game_over_action, handle_play_input, input_for_event, input_for_key, is_reverse_direction, DirectionQueue,
    GameInput, Key, PlayAction, TerminalEvent,
};
use rustnake::layout::{compute_layout_for, min_terminal_size_for};
use rustnake::menu::{MenuAction, MenuScreen, MenuState};
use rustnake::render::{clip_by_display_width, center_start, pad_to_display_width, transition_redraw_region, Rect};
use rustnake::storage::{migrate_config, HighScores, RawConfig, Settings};
use rustnake::utils::{Difficulty, Direction, Language, Position, PowerUp, PowerUpType};

fn quiet_game() -> Game {
    let mut game = Game::new(Difficulty::Medium, 20, 12, 0);
    game.power_up = None;
    game.power_up_timer = None;
    game.active_speed_effect = None;
    game
}

#[test]
fn plain_move_keeps_length_and_score() {
    let mut game = quiet_game();
    game.snake.body = vec![
        Position { x: 6, y: 5 },
        Position { x: 7, y: 5 },
        Position { x: 8, y: 5 },
    ];
    game.snake.direction = Direction::Left;
    game.food = Position { x: 15, y: 9 };
    game.tick();
    assert_eq!(game.snake.body.len(), 3);
    assert_eq!(game.score, 0);
    assert_eq!(game.snake.body[0], Position { x: 5, y: 5 });
    assert!(!game.game_over);
    assert!(game.dirty_positions.contains(&Position { x: 8, y: 5 }));
    assert!(game.dirty_positions.contains(&Position { x: 5, y: 5 }));
}

#[test]
fn tick_does_nothing_when_over_or_paused() {
    let mut game = quiet_game();
    game.game_over = true;
    let before = game.snake.body.clone();
    game.tick();
    assert_eq!(game.snake.body, before);
    let mut paused = quiet_game();
    paused.toggle_pause();
    let before = paused.snake.body.clone();
    paused.tick();
    assert_eq!(paused.snake.body, before);
}

#[test]
fn pause_is_blocked_after_game_over() {
    let mut game = quiet_game();
    game.game_over = true;
    game.toggle_pause();
    assert!(!game.is_paused());
}

#[test]
fn eating_respawns_food_off_the_snake() {
    let mut game = quiet_game();
    game.snake.body = vec![
        Position { x: 6, y: 5 },
        Position { x: 7, y: 5 },
        Position { x: 8, y: 5 },
    ];
    game.snake.direction = Direction::Left;
    game.food = Position { x: 5, y: 5 };
    game.tick();
    assert!(!game.snake.body.contains(&game.food));
    assert!(game.food.x >= 2 && game.food.x < 20 && game.food.y >= 2 && game.food.y < 12);
    assert_eq!(game.high_score, 10);
}

#[test]
fn collecting_extra_points_adds_fifty() {
    let mut game = quiet_game();
    game.snake.body = vec![
        Position { x: 6, y: 5 },
        Position { x: 7, y: 5 },
        Position { x: 8, y: 5 },
    ];
    game.snake.direction = Direction::Left;
    game.food = Position { x: 15, y: 9 };
    game.power_up = Some(PowerUp {
        position: Position { x: 5, y: 5 },
        power_up_type: PowerUpType::ExtraPoints,
        active: true,
    });
    game.tick();
    assert_eq!(game.score, 50);
    assert_eq!(game.high_score, 50);
    if let Some(power_up) = game.power_up {
        assert_ne!(power_up.position, Position { x: 5, y: 5 });
    }
}

#[test]
fn grow_repeats_the_tail_twice() {
    let mut game = quiet_game();
    game.apply_power_up_effect(PowerUpType::Grow);
    assert_eq!(game.snake.body.len(), 5);
    assert_eq!(game.snake.body[3], game.snake.body[2]);
    assert_eq!(game.snake.body[4], game.snake.body[2]);
}

#[test]
fn shrink_never_goes_below_three() {
    let mut game = quiet_game();
    game.apply_power_up_effect(PowerUpType::Shrink);
    assert_eq!(game.snake.body.len(), 3);
    game.snake.body.push(Position { x: 1, y: 1 });
    game.apply_power_up_effect(PowerUpType::Shrink);
    assert_eq!(game.snake.body.len(), 3);
    game.snake.body.push(Position { x: 1, y: 1 });
    game.snake.body.push(Position { x: 1, y: 2 });
    game.snake.body.push(Position { x: 1, y: 3 });
    game.apply_power_up_effect(PowerUpType::Shrink);
    assert_eq!(game.snake.body.len(), 4);
}

#[test]
fn slow_down_multiplier_is_150_until_expiry() {
    let mut game = quiet_game();
    game.apply_power_up_effect(PowerUpType::SlowDown);
    assert_eq!(game.speed_multiplier_percent(), 150);
    assert_eq!(game.speed_effect_ticks_left(), 100);
    for _ in 0..99 {
        game.update_power_up_effects();
    }
    assert_eq!(game.speed_effect_ticks_left(), 1);
    assert_eq!(game.speed_multiplier_percent(), 150);
    game.update_power_up_effects();
    assert_eq!(game.speed_multiplier_percent(), 100);
    assert_eq!(game.speed_effect_ticks_left(), 0);
}

#[test]
fn effective_tick_combines_both_multipliers() {
    let mut game = quiet_game();
    game.score = 1_000;
    game.apply_power_up_effect(PowerUpType::SpeedBoost);
    // 55% progression times 70% boost is 38%; 100 ms horizontal, 200 ms vertical.
    assert_eq!(game.effective_tick_millis(false), 38);
    assert_eq!(game.effective_tick_millis(true), 76);
    let mut extreme = Game::new(Difficulty::Extreme, 20, 12, 0);
    extreme.score = 10_000;
    extreme.power_up_timer = Some(5);
    extreme.active_speed_effect = Some(PowerUpType::SpeedBoost);
    assert_eq!(extreme.effective_tick_millis(false), 20);
}

#[test]
fn spawned_positions_stay_inside_and_free() {
    let mut rng = rand::thread_rng();
    for _ in 0..200 {
        let game = Game::new(Difficulty::Hard, 12, 9, 0);
        let food = game.find_food_spawn_position(&mut rng).unwrap();
        assert!(food.x >= 2 && food.x < 12 && food.y >= 2 && food.y < 9);
        assert!(!game.snake.body.contains(&food));
        let spot = game.find_power_up_spawn_position(&mut rng).unwrap();
        assert!(spot != game.food && !game.snake.body.contains(&spot));
        assert!(spot.x >= 2 && spot.x < 12 && spot.y >= 2 && spot.y < 9);
    }
}

#[test]
fn spawn_finds_the_single_free_cell() {
    let mut game = Game::new(Difficulty::Medium, 6, 6, 0);
    game.power_up = None;
    game.snake.body = (2..6)
        .flat_map(|y| (2..6).map(move |x| Position { x, y }))
        .filter(|pos| *pos != Position { x: 5, y: 5 })
        .collect();
    let mut rng = rand::thread_rng();
    assert_eq!(game.find_food_spawn_position(&mut rng), Some(Position { x: 5, y: 5 }));
}

#[test]
fn spawn_on_a_board_without_interior_fails() {
    let game = Game::new(Difficulty::Medium, 2, 2, 0);
    let mut rng = rand::thread_rng();
    assert_eq!(game.find_food_spawn_position(&mut rng), None);
    assert_eq!(game.interior_cells(), 0);
    assert_eq!(game.food, Position { x: 0, y: 0 });
}

#[test]
fn new_game_marks_the_board_dirty() {
    let game = Game::new(Difficulty::Easy, 20, 12, 7);
    assert_eq!(game.snake.body, vec![
        Position { x: 10, y: 6 },
        Position { x: 11, y: 6 },
        Position { x: 12, y: 6 },
    ]);
    assert_eq!(game.high_score, 7);
    for cell in &game.snake.body {
        assert!(game.dirty_positions.contains(cell));
    }
    assert!(game.dirty_positions.contains(&game.food));
}

#[test]
fn sounds_are_counted_unless_muted() {
    let mut game = quiet_game();
    game.apply_power_up_effect(PowerUpType::ExtraPoints);
    assert_eq!(game.take_pending_sounds(), 1);
    game.toggle_mute();
    game.apply_power_up_effect(PowerUpType::ExtraPoints);
    assert_eq!(game.take_pending_sounds(), 0);
}

#[test]
fn queue_drops_repeats_and_reversals() {
    let mut queue = DirectionQueue::new();
    queue.push(Direction::Left, Direction::Left);
    assert_eq!(queue.len(), 0);
    queue.push(Direction::Right, Direction::Left);
    assert_eq!(queue.len(), 0);
    queue.push(Direction::Up, Direction::Left);
    queue.push(Direction::Up, Direction::Left);
    assert_eq!(queue.len(), 1);
    queue.push(Direction::Down, Direction::Left);
    assert_eq!(queue.len(), 1);
    assert_eq!(queue.front(), Some(Direction::Up));
}

#[test]
fn full_queue_keeps_the_two_newest() {
    let mut queue = DirectionQueue::new();
    queue.push(Direction::Up, Direction::Left);
    queue.push(Direction::Right, Direction::Left);
    queue.push(Direction::Down, Direction::Left);
    assert_eq!(queue.len(), 2);
    assert_eq!(queue.pop_front(), Some(Direction::Right));
    assert_eq!(queue.pop_front(), Some(Direction::Down));
    assert_eq!(queue.pop_front(), None);
}

#[test]
fn keys_map_to_commands() {
    assert_eq!(input_for_key(Key::Char('Q')), Some(GameInput::Quit));
    assert_eq!(input_for_key(Key::Char('a')), Some(GameInput::Direction(Direction::Left)));
    assert_eq!(input_for_key(Key::Up), Some(GameInput::Direction(Direction::Up)));
    assert_eq!(input_for_key(Key::Char('3')), Some(GameInput::MenuSelect(2)));
    assert_eq!(input_for_key(Key::Char('6')), Some(GameInput::MenuSelect(5)));
    assert_eq!(input_for_key(Key::Char('7')), None);
    assert_eq!(input_for_key(Key::Char(' ')), Some(GameInput::MenuConfirm));
    assert_eq!(input_for_event(TerminalEvent::Resize(80, 24)), Some(GameInput::Resize(80, 24)));
    assert_eq!(input_for_event(TerminalEvent::FocusLost), Some(GameInput::FocusLost));
    assert_eq!(input_for_event(TerminalEvent::Other), None);
    assert!(is_reverse_direction(Direction::Up, Direction::Down));
    assert!(!is_reverse_direction(Direction::Up, Direction::Left));
}

#[test]
fn layout_minimum_uses_the_wider_of_board_and_text() {
    let min = min_terminal_size_for(40, 20, 55);
    assert_eq!((min.width, min.height), (55, 25));
    let min = min_terminal_size_for(60, 20, 55);
    assert_eq!(min.width, 60);
    let err = compute_layout_for(54, 30, 40, 20, 55).unwrap_err();
    assert_eq!(err.current_width, 54);
    assert_eq!(err.minimum.width, 55);
    let layout = compute_layout_for(55, 25, 40, 20, 55).unwrap();
    assert_eq!((layout.origin_x, layout.origin_y), (8, 1));
    assert_eq!(layout.hud_controls_y(), 25);
    assert_eq!(layout.board_to_screen(1, 1), (8, 1));
}

#[test]
fn wide_characters_are_measured_by_columns() {
    // Each of these characters takes two columns.
    assert_eq!(clip_by_display_width("贪吃蛇", 5), "贪吃");
    assert_eq!(clip_by_display_width("Play", 0), "");
    assert_eq!(pad_to_display_width("贪吃", 6), "贪吃  ");
    assert_eq!(pad_to_display_width("Play", 2), "Play");
    assert_eq!(center_start(80, 20), 31);
    assert!(rustnake::i18n::minimum_ui_width(Language::En) >= 49);
}

#[test]
fn transition_without_history_is_the_new_region() {
    let region = Rect { start_x: 1, end_x: 5, start_y: 2, end_y: 9 };
    assert_eq!(transition_redraw_region(None, region), region);
}

#[test]
fn menu_walks_to_settings_and_toggles_sound() {
    let mut menu = MenuState::new(Settings::default(), Difficulty::Medium, HighScores::default());
    assert_eq!(menu.handle_input(GameInput::MenuSelect(3), true), MenuAction::Stay);
    assert_eq!(menu.handle_input(GameInput::MenuConfirm, true), MenuAction::Stay);
    assert_eq!(menu.screen, MenuScreen::Settings);
    menu.handle_input(GameInput::Direction(Direction::Down), true);
    menu.handle_input(GameInput::Direction(Direction::Down), true);
    assert_eq!(menu.settings_selected, 2);
    assert_eq!(menu.handle_input(GameInput::MenuConfirm, true), MenuAction::Persist);
    assert!(!menu.settings.sound_on);
    let view = menu.view();
    assert_eq!(view.options.len(), 5);
    assert_eq!(view.options[2], "Sound: Off");
    assert_eq!(view.danger_option, Some(3));
}

#[test]
fn menu_starts_only_when_the_terminal_fits() {
    let mut menu = MenuState::new(Settings::default(), Difficulty::Hard, HighScores::default());
    assert_eq!(menu.handle_input(GameInput::MenuConfirm, false), MenuAction::Stay);
    assert_eq!(menu.handle_input(GameInput::MenuConfirm, true), MenuAction::Start(Difficulty::Hard));
    assert_eq!(menu.handle_input(GameInput::MenuSelect(9), true), MenuAction::Stay);
    assert_eq!(menu.main_selected, 4);
    assert_eq!(menu.handle_input(GameInput::MenuConfirm, true), MenuAction::Quit);
}

#[test]
fn menu_reset_clears_high_scores() {
    let scores = HighScores { easy: 5, medium: 6, hard: 7, extreme: 8 };
    let mut menu = MenuState::new(Settings::default(), Difficulty::Medium, scores);
    menu.handle_input(GameInput::MenuSelect(3), true);
    menu.handle_input(GameInput::MenuConfirm, true);
    menu.handle_input(GameInput::MenuSelect(3), true);
    menu.handle_input(GameInput::MenuConfirm, true);
    assert_eq!(menu.screen, MenuScreen::ResetScoresConfirm);
    assert_eq!(menu.reset_selected, 1);
    menu.handle_input(GameInput::Direction(Direction::Up), true);
    assert_eq!(menu.handle_input(GameInput::MenuConfirm, true), MenuAction::Persist);
    assert_eq!(menu.high_scores, HighScores::default());
    assert_eq!(menu.screen, MenuScreen::Settings);
}

#[test]
fn legacy_single_score_fills_every_tier() {
    let raw = RawConfig {
        config_version: None,
        high_scores: HighScores::default(),
        settings: Settings::default(),
        high_score: Some(42),
    };
    let (config, migrated) = migrate_config(raw);
    assert!(migrated);
    assert_eq!(config.high_scores, HighScores { easy: 42, medium: 42, hard: 42, extreme: 42 });
}

#[test]
fn current_version_is_kept_as_is() {
    let mut scores = HighScores::default();
    scores.set(Difficulty::Extreme, 4);
    assert_eq!(scores.get(Difficulty::Extreme), 4);
    assert_eq!(scores.get(Difficulty::Easy), 0);
    let raw = RawConfig {
        config_version: Some(1),
        high_scores: scores,
        settings: Settings::default(),
        high_score: Some(99),
    };
    let (config, migrated) = migrate_config(raw);
    assert!(!migrated);
    assert_eq!(config.high_scores, scores);
}

#[test]
fn language_indices_round_trip() {
    for (i, language) in Language::all().into_iter().enumerate() {
        assert_eq!(language.to_index(), i);
        assert_eq!(Language::from_index(i), language);
    }
    assert_eq!(Language::from_index(17), Language::En);
    assert_eq!(Language::Ja.code(), "JA");
}

#[test]
fn spawns_are_spread_over_the_board() {
    let game = Game::new(Difficulty::Medium, 40, 20, 0);
    let mut rng = rand::thread_rng();
    let mut seen: Vec<Position> = Vec::new();
    for _ in 0..200 {
        let spot = game.find_food_spawn_position(&mut rng).unwrap();
        if !seen.contains(&spot) {
            seen.push(spot);
        }
    }
    assert!(seen.len() > 1);
    assert!(seen.iter().any(|p| p.x != 2 || p.y != 2));
}

#[test]
fn advance_applies_the_oldest_turn_then_ticks() {
    let mut game = quiet_game();
    game.snake.body = vec![
        Position { x: 6, y: 5 },
        Position { x: 7, y: 5 },
        Position { x: 8, y: 5 },
    ];
    game.snake.direction = Direction::Left;
    game.food = Position { x: 15, y: 9 };
    let mut queue = DirectionQueue::new();
    queue.push(Direction::Up, game.snake.direction);
    queue.push(Direction::Right, game.snake.direction);
    rustnake::input::advance(&mut game, &mut queue);
    assert_eq!(game.snake.direction, Direction::Up);
    assert_eq!(game.snake.body[0], Position { x: 6, y: 4 });
    assert_eq!(queue.front(), Some(Direction::Right));
}

#[test]
fn play_inputs_toggle_and_queue() {
    let mut game = quiet_game();
    let mut queue = DirectionQueue::new();
    assert_eq!(handle_play_input(&mut game, &mut queue, GameInput::Pause, true), PlayAction::Continue);
    assert!(game.paused);
    handle_play_input(&mut game, &mut queue, GameInput::Pause, true);
    assert!(!game.paused);
    handle_play_input(&mut game, &mut queue, GameInput::FocusLost, false);
    assert!(!game.paused);
    handle_play_input(&mut game, &mut queue, GameInput::FocusLost, true);
    assert!(game.paused);
    handle_play_input(&mut game, &mut queue, GameInput::FocusLost, true);
    assert!(game.paused);
    handle_play_input(&mut game, &mut queue, GameInput::ToggleMute, true);
    assert!(game.muted);
    handle_play_input(&mut game, &mut queue, GameInput::Direction(Direction::Up), true);
    assert_eq!(queue.front(), Some(Direction::Up));
    assert_eq!(
        handle_play_input(&mut game, &mut queue, GameInput::Resize(90, 30), true),
        PlayAction::Resize(90, 30)
    );
    assert_eq!(handle_play_input(&mut game, &mut queue, GameInput::MenuConfirm, true), PlayAction::ToMenu);
    assert_eq!(handle_play_input(&mut game, &mut queue, GameInput::Quit, true), PlayAction::Quit);
}

#[test]
fn recording_keeps_only_better_scores() {
    let mut scores = HighScores { easy: 10, medium: 20, hard: 30, extreme: 40 };
    assert!(!scores.record(Difficulty::Hard, 30));
    assert!(scores.record(Difficulty::Hard, 31));
    assert_eq!(scores, HighScores { easy: 10, medium: 20, hard: 31, extreme: 40 });
}

#[test]
fn placing_a_power_up_follows_the_draws() {
    let mut game = quiet_game();
    let cell = Position { x: 3, y: 3 };
    game.place_power_up(300, Some(cell), 3);
    assert_eq!(game.power_up, None);
    game.place_power_up(299, None, 3);
    assert_eq!(game.power_up, None);
    game.place_power_up(299, Some(cell), 3);
    assert_eq!(
        game.power_up,
        Some(PowerUp { position: cell, power_up_type: PowerUpType::Grow, active: true })
    );
    assert!(game.dirty_positions.contains(&cell));
    game.place_power_up(0, Some(Position { x: 4, y: 4 }), 0);
    assert_eq!(game.power_up.unwrap().position, cell);
}

#[test]
fn existing_power_up_blocks_generation() {
    let mut game = quiet_game();
    let existing = PowerUp { position: Position { x: 3, y: 3 }, power_up_type: PowerUpType::Shrink, active: true };
    game.power_up = Some(existing);
    game.dirty_positions.clear();
    for _ in 0..50 {
        game.generate_power_up();
    }
    assert_eq!(game.power_up, Some(existing));
    assert!(game.dirty_positions.is_empty());
}

#[test]
fn food_respawn_marks_both_cells() {
    let mut game = quiet_game();
    game.dirty_positions.clear();
    let before = game.food;
    game.generate_food();
    assert!(game.dirty_positions.contains(&before));
    assert!(game.dirty_positions.contains(&game.food));
}

#[test]
fn spawn_choice_prefers_drawn_cells_then_rows() {
    let mut game = Game::new(Difficulty::Medium, 6, 6, 0);
    game.power_up = None;
    game.snake.body = vec![
        Position { x: 2, y: 2 },
        Position { x: 3, y: 2 },
        Position { x: 4, y: 2 },
    ];
    game.food = Position { x: 5, y: 2 };
    let drawn = vec![Position { x: 3, y: 2 }, Position { x: 4, y: 4 }, Position { x: 2, y: 3 }];
    assert_eq!(game.choose_spawn_cell(&drawn, true), Some(Position { x: 4, y: 4 }));
    let blocked = vec![Position { x: 2, y: 2 }];
    assert_eq!(game.choose_spawn_cell(&blocked, true), Some(Position { x: 5, y: 2 }));
    assert_eq!(game.choose_spawn_cell(&blocked, false), Some(Position { x: 2, y: 3 }));
}

#[test]
fn tick_spawn_wish_uses_the_per_tick_chance() {
    let mut game = quiet_game();
    assert!(game.tick_wants_power_up(19));
    assert!(!game.tick_wants_power_up(20));
    game.power_up = Some(PowerUp { position: Position { x: 3, y: 3 }, power_up_type: PowerUpType::Grow, active: true });
    assert!(!game.tick_wants_power_up(0));
}

#[test]
fn game_over_inputs() {
    assert_eq!(game_over_action(GameInput::Pause), PlayAction::Continue);
    assert_eq!(game_over_action(GameInput::MenuConfirm), PlayAction::ToMenu);
    assert_eq!(game_over_action(GameInput::Quit), PlayAction::Quit);
    assert_eq!(game_over_action(GameInput::Resize(1, 2)), PlayAction::Resize(1, 2));
}
