use rustnake::i18n;
use rustnake::utils::{Difficulty, Language, PowerUpType};

fn assert_non_empty_required_keys(language: Language) {
    assert!(!i18n::controls_text(language).is_empty());
    assert!(!i18n::menu_title(language).is_empty());
    assert!(!i18n::menu_play(language).is_empty());
    assert!(!i18n::menu_difficulty(language).is_empty());
    assert!(!i18n::menu_high_scores(language).is_empty());
    assert!(!i18n::menu_settings(language).is_empty());
    assert!(!i18n::menu_quit(language).is_empty());
    assert!(!i18n::menu_back(language).is_empty());
    assert!(!i18n::difficulty_menu_title(language).is_empty());
    assert!(!i18n::high_scores_menu_title(language).is_empty());
    assert!(!i18n::menu_navigation_hint(language).is_empty());
    assert!(!i18n::menu_confirm_hint(language).is_empty());
    assert!(!i18n::language_name(language).is_empty());
    assert!(!i18n::language_popup_title(language).is_empty());
    assert!(!i18n::language_label(language).is_empty());
    assert!(!i18n::settings_pause_on_focus_loss_label(language).is_empty());
    assert!(!i18n::settings_sound_label(language).is_empty());
    assert!(!i18n::settings_reset_high_scores_label(language).is_empty());
    assert!(!i18n::reset_high_scores_title(language).is_empty());
    assert!(!i18n::setting_on(language).is_empty());
    assert!(!i18n::setting_off(language).is_empty());
    assert!(!i18n::confirm_yes(language).is_empty());
    assert!(!i18n::confirm_no(language).is_empty());
    assert!(!i18n::small_window_title(language).is_empty());
    assert!(!i18n::small_window_current_label(language).is_empty());
    assert!(!i18n::small_window_minimum_label(language).is_empty());
    assert!(!i18n::small_window_hint(language).is_empty());
    assert!(!i18n::status_score_label(language).is_empty());
    assert!(!i18n::status_difficulty_label(language).is_empty());
    assert!(!i18n::status_paused(language).is_empty());
    assert!(!i18n::status_muted(language).is_empty());
    assert!(!i18n::info_best_label(language).is_empty());
    assert!(!i18n::info_pace_label(language).is_empty());
    assert!(!i18n::info_effect_label(language).is_empty());
    assert!(!i18n::difficulty_label(language, Difficulty::Easy).is_empty());
    assert!(!i18n::difficulty_label(language, Difficulty::Medium).is_empty());
    assert!(!i18n::difficulty_label(language, Difficulty::Hard).is_empty());
    assert!(!i18n::difficulty_label(language, Difficulty::Extreme).is_empty());
    assert!(!i18n::speed_effect_short(language, PowerUpType::SpeedBoost).is_empty());
    assert!(!i18n::speed_effect_short(language, PowerUpType::SlowDown).is_empty());
    assert!(!i18n::game_over_title(language).is_empty());
    assert!(!i18n::game_over_menu_hint(language).is_empty());
    assert!(!i18n::game_over_quit_hint(language).is_empty());
}

#[test]
fn translation_keys_are_present_for_all_languages() {
    for language in Language::all() {
        assert_non_empty_required_keys(language);
    }
}
