use rustnake::game::Game;
use rustnake::snake::Snake;
use rustnake::utils::{Difficulty, Direction, Position, PowerUp, PowerUpType};

fn make_game() -> Game {
    let mut game = Game::new(Difficulty::Medium, 20, 12, 0);
    game.power_up = None;
    game.power_up_timer = None;
    game.active_speed_effect = None;
    game
}

#[test]
fn snake_wraps_left_across_border() {
    let mut snake = Snake {
        body: vec![
            Position { x: 2, y: 5 },
            Position { x: 3, y: 5 },
            Position { x: 4, y: 5 },
        ],
        direction: Direction::Left,
    };

    snake.move_forward(false, 20, 12);
    assert_eq!(snake.head_position(), Position { x: 19, y: 5 });
}

#[test]
fn snake_wraps_up_across_border() {
    let mut snake = Snake {
        body: vec![
            Position { x: 8, y: 2 },
            Position { x: 8, y: 3 },
            Position { x: 8, y: 4 },
        ],
        direction: Direction::Up,
    };

    snake.move_forward(false, 20, 12);
    assert_eq!(snake.head_position(), Position { x: 8, y: 11 });
}

#[test]
fn snake_cannot_reverse_direction() {
    let mut snake = Snake {
        body: vec![
            Position { x: 5, y: 5 },
            Position { x: 6, y: 5 },
            Position { x: 7, y: 5 },
        ],
        direction: Direction::Left,
    };

    snake.change_direction(Direction::Right);
    assert_eq!(snake.direction, Direction::Left);
}

#[test]
fn snake_can_turn_perpendicular() {
    let mut snake = Snake {
        body: vec![
            Position { x: 5, y: 5 },
            Position { x: 6, y: 5 },
            Position { x: 7, y: 5 },
        ],
        direction: Direction::Left,
    };

    snake.change_direction(Direction::Up);
    assert_eq!(snake.direction, Direction::Up);
}

#[test]
fn tick_applies_food_collision_immediately() {
    let mut game = make_game();
    game.snake.body = vec![
        Position { x: 6, y: 5 },
        Position { x: 7, y: 5 },
        Position { x: 8, y: 5 },
    ];
    game.snake.direction = Direction::Left;
    game.food = Position { x: 5, y: 5 };

    game.tick();

    assert_eq!(game.score, 10);
    assert_eq!(game.snake.body.len(), 4);
    assert_eq!(game.snake.head_position(), Position { x: 5, y: 5 });
}

#[test]
fn tick_detects_self_collision_after_move() {
    let mut game = make_game();
    game.snake.body = vec![
        Position { x: 5, y: 5 },
        Position { x: 5, y: 6 },
        Position { x: 6, y: 6 },
        Position { x: 6, y: 5 },
        Position { x: 6, y: 4 },
        Position { x: 5, y: 4 },
    ];
    game.snake.direction = Direction::Right;
    game.food = Position { x: 2, y: 2 };

    game.tick();

    assert!(game.game_over);
}

#[test]
fn speed_effect_uses_collected_power_up_type() {
    let mut game = make_game();
    game.apply_power_up_effect(PowerUpType::SpeedBoost);
    game.power_up = Some(PowerUp {
        position: Position { x: 2, y: 2 },
        power_up_type: PowerUpType::SlowDown,
        active: true,
    });

    assert_eq!(game.speed_multiplier_percent(), 70);
}

#[test]
fn speed_effect_expires_after_timer_runs_out() {
    let mut game = make_game();
    game.apply_power_up_effect(PowerUpType::SlowDown);

    for _ in 0..100 {
        game.update_power_up_effects();
    }

    assert_eq!(game.power_up_timer, None);
    assert!(game.active_speed_effect.is_none());
    assert_eq!(game.speed_multiplier_percent(), 100);
}

#[test]
fn high_score_updates_when_score_increases() {
    let mut game = Game::new(Difficulty::Easy, 20, 12, 120);
    game.score = 130;
    game.update_high_score();
    assert_eq!(game.high_score, 130);
}

#[test]
fn difficulty_speed_multiplier_scales_and_caps() {
    let mut game = make_game();
    game.score = 50;
    assert_eq!(game.difficulty_speed_multiplier_percent(), 97);

    game.score = 1_000;
    assert_eq!(game.difficulty_speed_multiplier_percent(), 55);
}

#[test]
fn difficulty_tick_rates_get_faster_by_level() {
    let easy = Game::new(Difficulty::Easy, 20, 12, 0);
    let medium = Game::new(Difficulty::Medium, 20, 12, 0);
    let hard = Game::new(Difficulty::Hard, 20, 12, 0);
    let extreme = Game::new(Difficulty::Extreme, 20, 12, 0);

    let (easy_h, easy_v) = easy.get_tick_rates();
    let (med_h, med_v) = medium.get_tick_rates();
    let (hard_h, hard_v) = hard.get_tick_rates();
    let (ext_h, ext_v) = extreme.get_tick_rates();

    assert!(easy_h > med_h && med_h > hard_h && hard_h > ext_h);
    assert!(easy_v > med_v && med_v > hard_v && hard_v > ext_v);
}

#[test]
fn power_up_spawn_chances_reduce_with_harder_difficulties() {
    let easy = Game::new(Difficulty::Easy, 20, 12, 0);
    let medium = Game::new(Difficulty::Medium, 20, 12, 0);
    let hard = Game::new(Difficulty::Hard, 20, 12, 0);
    let extreme = Game::new(Difficulty::Extreme, 20, 12, 0);

    assert!(
        easy.power_up_refresh_spawn_chance() > medium.power_up_refresh_spawn_chance()
            && medium.power_up_refresh_spawn_chance() > hard.power_up_refresh_spawn_chance()
            && hard.power_up_refresh_spawn_chance() > extreme.power_up_refresh_spawn_chance()
    );
    assert!(
        easy.power_up_tick_spawn_chance() > medium.power_up_tick_spawn_chance()
            && medium.power_up_tick_spawn_chance() > hard.power_up_tick_spawn_chance()
            && hard.power_up_tick_spawn_chance() > extreme.power_up_tick_spawn_chance()
    );
}

#[test]
fn speed_effect_duration_shortens_with_harder_difficulties() {
    let easy = Game::new(Difficulty::Easy, 20, 12, 0);
    let medium = Game::new(Difficulty::Medium, 20, 12, 0);
    let hard = Game::new(Difficulty::Hard, 20, 12, 0);
    let extreme = Game::new(Difficulty::Extreme, 20, 12, 0);

    assert!(
        easy.speed_effect_duration_ticks() > medium.speed_effect_duration_ticks()
            && medium.speed_effect_duration_ticks() > hard.speed_effect_duration_ticks()
            && hard.speed_effect_duration_ticks() > extreme.speed_effect_duration_ticks()
    );
}

#[test]
fn progression_scaling_is_stricter_for_harder_difficulties() {
    let mut easy = Game::new(Difficulty::Easy, 20, 12, 0);
    let mut medium = Game::new(Difficulty::Medium, 20, 12, 0);
    let mut hard = Game::new(Difficulty::Hard, 20, 12, 0);
    let mut extreme = Game::new(Difficulty::Extreme, 20, 12, 0);

    easy.score = 500;
    medium.score = 500;
    hard.score = 500;
    extreme.score = 500;

    assert_eq!(easy.difficulty_speed_multiplier_percent(), 80);
    assert_eq!(medium.difficulty_speed_multiplier_percent(), 70);
    assert_eq!(hard.difficulty_speed_multiplier_percent(), 60);
    assert_eq!(extreme.difficulty_speed_multiplier_percent(), 50);

    easy.score = 10_000;
    medium.score = 10_000;
    hard.score = 10_000;
    extreme.score = 10_000;

    assert_eq!(easy.difficulty_speed_multiplier_percent(), 76);
    assert_eq!(medium.difficulty_speed_multiplier_percent(), 55);
    assert_eq!(hard.difficulty_speed_multiplier_percent(), 52);
    assert_eq!(extreme.difficulty_speed_multiplier_percent(), 35);
}

#[test]
fn find_food_spawn_position_returns_none_when_board_is_full() {
    let mut game = Game::new(Difficulty::Medium, 6, 6, 0);
    game.power_up = None;
    game.snake.body = (2..6)
        .flat_map(|y| (2..6).map(move |x| Position { x, y }))
        .collect();

    let mut rng = rand::thread_rng();
    assert!(game.find_food_spawn_position(&mut rng).is_none());
}

#[test]
fn find_power_up_spawn_position_returns_none_when_only_food_cell_is_free() {
    let mut game = Game::new(Difficulty::Medium, 6, 6, 0);
    game.food = Position { x: 2, y: 2 };
    game.power_up = None;
    let food = game.food;
    game.snake.body = (2..6)
        .flat_map(|y| (2..6).map(move |x| Position { x, y }))
        .filter(|pos| *pos != food)
        .collect();

    let mut rng = rand::thread_rng();
    assert!(game.find_power_up_spawn_position(&mut rng).is_none());
}
