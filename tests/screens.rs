use rustnake::game::Game;
use rustnake::layout::compute_layout_for;
use rustnake::menu::{MenuScreen, MenuState};
use rustnake::render::{
    display_width, game_over_box, game_over_score_line, high_score_rows, hud_info_text,
    hud_status_text, menu_panel, size_warning_line, HighScoresFrameKey,
    MenuFrameCache, MenuFrameKey, MenuWidths,
};
use rustnake::storage::{HighScores, Settings};
use rustnake::utils::{Difficulty, Language, PowerUpType};

fn key(selected_title: &str) -> MenuFrameKey {
    MenuFrameKey {
        screen_tag: "MENU".to_string(),
        title: selected_title.to_string(),
        subtitle: Some("Difficulty: Medium".to_string()),
        options: vec!["Play".to_string(), "Quit".to_string()],
        danger_option: None,
        term_width: 80,
        term_height: 24,
        language: Language::En,
    }
}

#[test]
fn status_line_lists_score_tier_and_flags() {
    let mut game = Game::new(Difficulty::Hard, 20, 12, 0);
    game.score = 120;
    assert_eq!(hud_status_text(&game, Language::En), "Score:120  Diff:Hard");
    game.toggle_pause();
    game.toggle_mute();
    assert_eq!(hud_status_text(&game, Language::En), "Score:120  Diff:Hard  PAUSED  MUTED");
}

#[test]
fn info_line_shows_pace_and_effect() {
    let mut game = Game::new(Difficulty::Medium, 20, 12, 300);
    game.power_up_timer = None;
    game.active_speed_effect = None;
    game.score = 100;
    let plain = hud_info_text(&game, Language::En);
    assert_eq!(plain, "Best:300  Pace:94%");
    game.apply_power_up_effect(PowerUpType::SlowDown);
    let with_effect = hud_info_text(&game, Language::En);
    assert_eq!(with_effect, "Best:300  Pace:141%  Effect:Slow(100)");
}

#[test]
fn game_over_box_is_centred_and_bounded() {
    let layout = compute_layout_for(100, 40, 40, 20, 50).unwrap();
    let panel = game_over_box(&layout, 20);
    assert_eq!(panel.inner_width, 22);
    assert_eq!(panel.inner_height, 5);
    assert_eq!(panel.x, layout.origin_x + 1 + (38 - 24) / 2);
    assert_eq!(panel.y, layout.origin_y + 1 + (18 - 7) / 2);
    let narrow = game_over_box(&layout, 2);
    assert_eq!(narrow.inner_width, 8);
    let wide = game_over_box(&layout, 500);
    assert_eq!(wide.inner_width, 36);
}

#[test]
fn menu_panel_fits_its_rows() {
    let widths = MenuWidths {
        logo: 8,
        title: 10,
        subtitle: Some(18),
        footer: 40,
        widest_option: 19,
    };
    let panel = menu_panel(120, 40, widths, 5);
    assert_eq!(panel.panel.inner_width, 40);
    assert_eq!(panel.panel.inner_height, 14);
    assert_eq!(panel.row_width, 38);
    assert_eq!(panel.row_label_width, 32);
    assert_eq!(panel.panel.x, (120 - 42) / 2 + 1);
    assert_eq!(panel.panel.y, (40 - 16) / 2 + 1);
    assert_eq!(panel.options_y, panel.panel.y + 6);
    let tiny = menu_panel(10, 10, widths, 5);
    assert_eq!(tiny.panel.inner_width, 8);
}

#[test]
fn frame_cache_redraws_only_on_change() {
    let mut cache = MenuFrameCache::new();
    assert_eq!(cache.menu_redraw_state(key("SNAKE GAME"), 0), (true, None));
    assert_eq!(cache.menu_redraw_state(key("SNAKE GAME"), 2), (false, Some(0)));
    assert_eq!(cache.menu_redraw_state(key("OTHER"), 1), (true, None));
    let scores = HighScoresFrameKey {
        high_scores: HighScores::default(),
        term_width: 80,
        term_height: 24,
        language: Language::En,
    };
    assert!(!cache.begin_high_scores_draw(scores));
    assert!(cache.begin_high_scores_draw(scores));
    assert_eq!(cache.menu_redraw_state(key("OTHER"), 1), (true, None));
    cache.invalidate();
    assert!(!cache.begin_high_scores_draw(scores));
}

#[test]
fn display_width_counts_columns() {
    assert_eq!(display_width("Play"), 4);
    assert_eq!(display_width("贪吃蛇"), 6);
    assert_eq!(display_width(""), 0);
}

#[test]
fn menu_view_lists_the_main_rows() {
    let menu = MenuState::new(Settings::default(), Difficulty::Extreme, HighScores::default());
    assert_eq!(menu.screen, MenuScreen::Main);
    let view = menu.view();
    assert_eq!(view.title, "SNAKE GAME");
    assert_eq!(
        view.options,
        vec!["Play", "Difficulty: Extreme", "High Scores", "Settings", "Quit"]
    );
    assert_eq!(view.subtitle.as_deref(), Some("Difficulty: Extreme"));
    assert_eq!(view.selected_option, 0);
    assert_eq!(view.danger_option, None);
}

#[test]
fn warning_and_score_lines() {
    let check = rustnake::layout::compute_layout_for(30, 12, 40, 20, 49).unwrap_err();
    assert_eq!(size_warning_line(check, Language::En).matches("30x12").count(), 1);
    assert!(size_warning_line(check, Language::En).ends_with(": 49x25"));
    assert!(game_over_score_line(1234, Language::En).ends_with(": 1234"));
    let rows = high_score_rows(
        &HighScores { easy: 50, medium: 80, hard: 120, extreme: 460 },
        Language::En,
    );
    assert_eq!(rows, vec!["Easy: 50", "Medium: 80", "Hard: 120", "Extreme: 460"]);
}
