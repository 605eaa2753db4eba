//! The text of every message, in each supported language, and the
//! narrowest terminal that shows all of it.

use crate::utils::{Difficulty, Language, PowerUpType};
use unicode_width::UnicodeWidthStr;
use vstd::prelude::*;

verus! {

pub open spec fn controls_text_spec(language: Language) -> Seq<char> {
    match language {
        Language::En => "WASD/Arrows:Move P:Pause M:Mute SPACE:Menu Q:Quit"@,
        Language::Es => "WASD/Flechas:Mover P:Pausa M:Mutear ESPACIO:Menú Q:Salir"@,
        Language::Ja => "WASD/矢印:移動 P:一時停止 M:ミュート SPACE:メニュー Q:終了"@,
        Language::Pt => "WASD/Setas:Mover P:Pausa M:Silenciar ESPAÇO:Menu Q:Sair"@,
        Language::Zh => "WASD/方向键:移动 P:暂停 M:静音 SPACE:菜单 Q:退出"@,
    }
}

pub fn controls_text(language: Language) -> (r: &'static str)
    ensures
        r@ == controls_text_spec(language),
{
    match language {
        Language::En => "WASD/Arrows:Move P:Pause M:Mute SPACE:Menu Q:Quit",
        Language::Es => "WASD/Flechas:Mover P:Pausa M:Mutear ESPACIO:Menú Q:Salir",
        Language::Ja => "WASD/矢印:移動 P:一時停止 M:ミュート SPACE:メニュー Q:終了",
        Language::Pt => "WASD/Setas:Mover P:Pausa M:Silenciar ESPAÇO:Menu Q:Sair",
        Language::Zh => "WASD/方向键:移动 P:暂停 M:静音 SPACE:菜单 Q:退出",
    }
}

pub open spec fn menu_title_spec(language: Language) -> Seq<char> {
    match language {
        Language::En => "SNAKE GAME"@,
        Language::Es => "SNAKE GAME"@,
        Language::Ja => "スネークゲーム"@,
        Language::Pt => "SNAKE GAME"@,
        Language::Zh => "贪吃蛇"@,
    }
}

pub fn menu_title(language: Language) -> (r: &'static str)
    ensures
        r@ == menu_title_spec(language),
{
    match language {
        Language::En => "SNAKE GAME",
        Language::Es => "SNAKE GAME",
        Language::Ja => "スネークゲーム",
        Language::Pt => "SNAKE GAME",
        Language::Zh => "贪吃蛇",
    }
}

pub open spec fn menu_play_spec(language: Language) -> Seq<char> {
    match language {
        Language::En => "Play"@,
        Language::Es => "Jugar"@,
        Language::Ja => "プレイ"@,
        Language::Pt => "Jogar"@,
        Language::Zh => "开始"@,
    }
}

pub fn menu_play(language: Language) -> (r: &'static str)
    ensures
        r@ == menu_play_spec(language),
{
    match language {
        Language::En => "Play",
        Language::Es => "Jugar",
        Language::Ja => "プレイ",
        Language::Pt => "Jogar",
        Language::Zh => "开始",
    }
}

pub open spec fn menu_difficulty_spec(language: Language) -> Seq<char> {
    match language {
        Language::En => "Difficulty"@,
        Language::Es => "Dificultad"@,
        Language::Ja => "難易度"@,
        Language::Pt => "Dificuldade"@,
        Language::Zh => "难度"@,
    }
}

pub fn menu_difficulty(language: Language) -> (r: &'static str)
    ensures
        r@ == menu_difficulty_spec(language),
{
    match language {
        Language::En => "Difficulty",
        Language::Es => "Dificultad",
        Language::Ja => "難易度",
        Language::Pt => "Dificuldade",
        Language::Zh => "难度",
    }
}

pub open spec fn menu_settings_spec(language: Language) -> Seq<char> {
    match language {
        Language::En => "Settings"@,
        Language::Es => "Ajustes"@,
        Language::Ja => "設定"@,
        Language::Pt => "Configuracoes"@,
        Language::Zh => "设置"@,
    }
}

pub fn menu_settings(language: Language) -> (r: &'static str)
    ensures
        r@ == menu_settings_spec(language),
{
    match language {
        Language::En => "Settings",
        Language::Es => "Ajustes",
        Language::Ja => "設定",
        Language::Pt => "Configuracoes",
        Language::Zh => "设置",
    }
}

pub open spec fn menu_high_scores_spec(language: Language) -> Seq<char> {
    match language {
        Language::En => "High Scores"@,
        Language::Es => "Puntuaciones"@,
        Language::Ja => "ハイスコア"@,
        Language::Pt => "Pontuacoes"@,
        Language::Zh => "最高分"@,
    }
}

pub fn menu_high_scores(language: Language) -> (r: &'static str)
    ensures
        r@ == menu_high_scores_spec(language),
{
    match language {
        Language::En => "High Scores",
        Language::Es => "Puntuaciones",
        Language::Ja => "ハイスコア",
        Language::Pt => "Pontuacoes",
        Language::Zh => "最高分",
    }
}

pub open spec fn menu_quit_spec(language: Language) -> Seq<char> {
    match language {
        Language::En => "Quit"@,
        Language::Es => "Salir"@,
        Language::Ja => "終了"@,
        Language::Pt => "Sair"@,
        Language::Zh => "退出"@,
    }
}

pub fn menu_quit(language: Language) -> (r: &'static str)
    ensures
        r@ == menu_quit_spec(language),
{
    match language {
        Language::En => "Quit",
        Language::Es => "Salir",
        Language::Ja => "終了",
        Language::Pt => "Sair",
        Language::Zh => "退出",
    }
}

pub open spec fn high_scores_menu_title_spec(language: Language) -> Seq<char> {
    match language {
        Language::En => "All High Scores"@,
        Language::Es => "Todas las puntuaciones"@,
        Language::Ja => "すべてのハイスコア"@,
        Language::Pt => "Todas as pontuacoes"@,
        Language::Zh => "全部最高分"@,
    }
}

pub fn high_scores_menu_title(language: Language) -> (r: &'static str)
    ensures
        r@ == high_scores_menu_title_spec(language),
{
    match language {
        Language::En => "All High Scores",
        Language::Es => "Todas las puntuaciones",
        Language::Ja => "すべてのハイスコア",
        Language::Pt => "Todas as pontuacoes",
        Language::Zh => "全部最高分",
    }
}

pub open spec fn menu_back_spec(language: Language) -> Seq<char> {
    match language {
        Language::En => "Back"@,
        Language::Es => "Atras"@,
        Language::Ja => "戻る"@,
        Language::Pt => "Voltar"@,
        Language::Zh => "返回"@,
    }
}

pub fn menu_back(language: Language) -> (r: &'static str)
    ensures
        r@ == menu_back_spec(language),
{
    match language {
        Language::En => "Back",
        Language::Es => "Atras",
        Language::Ja => "戻る",
        Language::Pt => "Voltar",
        Language::Zh => "返回",
    }
}

pub open spec fn difficulty_menu_title_spec(language: Language) -> Seq<char> {
    match language {
        Language::En => "Select Difficulty"@,
        Language::Es => "Selecciona dificultad"@,
        Language::Ja => "難易度を選択"@,
        Language::Pt => "Selecionar dificuldade"@,
        Language::Zh => "选择难度"@,
    }
}

pub fn difficulty_menu_title(language: Language) -> (r: &'static str)
    ensures
        r@ == difficulty_menu_title_spec(language),
{
    match language {
        Language::En => "Select Difficulty",
        Language::Es => "Selecciona dificultad",
        Language::Ja => "難易度を選択",
        Language::Pt => "Selecionar dificuldade",
        Language::Zh => "选择难度",
    }
}

pub open spec fn settings_pause_on_focus_loss_label_spec(language: Language) -> Seq<char> {
    match language {
        Language::En => "Pause on Focus Loss"@,
        Language::Es => "Pausar al perder enfoque"@,
        Language::Ja => "フォーカス喪失で一時停止"@,
        Language::Pt => "Pausar ao perder foco"@,
        Language::Zh => "失去焦点时暂停"@,
    }
}

pub fn settings_pause_on_focus_loss_label(language: Language) -> (r: &'static str)
    ensures
        r@ == settings_pause_on_focus_loss_label_spec(language),
{
    match language {
        Language::En => "Pause on Focus Loss",
        Language::Es => "Pausar al perder enfoque",
        Language::Ja => "フォーカス喪失で一時停止",
        Language::Pt => "Pausar ao perder foco",
        Language::Zh => "失去焦点时暂停",
    }
}

pub open spec fn settings_sound_label_spec(language: Language) -> Seq<char> {
    match language {
        Language::En => "Sound"@,
        Language::Es => "Sonido"@,
        Language::Ja => "サウンド"@,
        Language::Pt => "Som"@,
        Language::Zh => "声音"@,
    }
}

pub fn settings_sound_label(language: Language) -> (r: &'static str)
    ensures
        r@ == settings_sound_label_spec(language),
{
    match language {
        Language::En => "Sound",
        Language::Es => "Sonido",
        Language::Ja => "サウンド",
        Language::Pt => "Som",
        Language::Zh => "声音",
    }
}

pub open spec fn settings_reset_high_scores_label_spec(language: Language) -> Seq<char> {
    match language {
        Language::En => "Reset High Scores"@,
        Language::Es => "Reiniciar puntuaciones"@,
        Language::Ja => "ハイスコアをリセット"@,
        Language::Pt => "Resetar pontuacoes"@,
        Language::Zh => "重置最高分"@,
    }
}

pub fn settings_reset_high_scores_label(language: Language) -> (r: &'static str)
    ensures
        r@ == settings_reset_high_scores_label_spec(language),
{
    match language {
        Language::En => "Reset High Scores",
        Language::Es => "Reiniciar puntuaciones",
        Language::Ja => "ハイスコアをリセット",
        Language::Pt => "Resetar pontuacoes",
        Language::Zh => "重置最高分",
    }
}

pub open spec fn reset_high_scores_title_spec(language: Language) -> Seq<char> {
    match language {
        Language::En => "Reset High Scores?"@,
        Language::Es => "Reiniciar puntuaciones?"@,
        Language::Ja => "ハイスコアをリセットしますか？"@,
        Language::Pt => "Resetar pontuacoes?"@,
        Language::Zh => "重置最高分？"@,
    }
}

pub fn reset_high_scores_title(language: Language) -> (r: &'static str)
    ensures
        r@ == reset_high_scores_title_spec(language),
{
    match language {
        Language::En => "Reset High Scores?",
        Language::Es => "Reiniciar puntuaciones?",
        Language::Ja => "ハイスコアをリセットしますか？",
        Language::Pt => "Resetar pontuacoes?",
        Language::Zh => "重置最高分？",
    }
}

pub open spec fn confirm_yes_spec(language: Language) -> Seq<char> {
    match language {
        Language::En => "Yes"@,
        Language::Es => "Si"@,
        Language::Ja => "はい"@,
        Language::Pt => "Sim"@,
        Language::Zh => "是"@,
    }
}

pub fn confirm_yes(language: Language) -> (r: &'static str)
    ensures
        r@ == confirm_yes_spec(language),
{
    match language {
        Language::En => "Yes",
        Language::Es => "Si",
        Language::Ja => "はい",
        Language::Pt => "Sim",
        Language::Zh => "是",
    }
}

pub open spec fn confirm_no_spec(language: Language) -> Seq<char> {
    match language {
        Language::En => "No"@,
        Language::Es => "No"@,
        Language::Ja => "いいえ"@,
        Language::Pt => "Nao"@,
        Language::Zh => "否"@,
    }
}

pub fn confirm_no(language: Language) -> (r: &'static str)
    ensures
        r@ == confirm_no_spec(language),
{
    match language {
        Language::En => "No",
        Language::Es => "No",
        Language::Ja => "いいえ",
        Language::Pt => "Nao",
        Language::Zh => "否",
    }
}

pub open spec fn setting_on_spec(language: Language) -> Seq<char> {
    match language {
        Language::En => "On"@,
        Language::Es => "Activado"@,
        Language::Ja => "オン"@,
        Language::Pt => "Ligado"@,
        Language::Zh => "开"@,
    }
}

pub fn setting_on(language: Language) -> (r: &'static str)
    ensures
        r@ == setting_on_spec(language),
{
    match language {
        Language::En => "On",
        Language::Es => "Activado",
        Language::Ja => "オン",
        Language::Pt => "Ligado",
        Language::Zh => "开",
    }
}

pub open spec fn setting_off_spec(language: Language) -> Seq<char> {
    match language {
        Language::En => "Off"@,
        Language::Es => "Desactivado"@,
        Language::Ja => "オフ"@,
        Language::Pt => "Desligado"@,
        Language::Zh => "关"@,
    }
}

pub fn setting_off(language: Language) -> (r: &'static str)
    ensures
        r@ == setting_off_spec(language),
{
    match language {
        Language::En => "Off",
        Language::Es => "Desactivado",
        Language::Ja => "オフ",
        Language::Pt => "Desligado",
        Language::Zh => "关",
    }
}

pub open spec fn menu_navigation_hint_spec(language: Language) -> Seq<char> {
    match language {
        Language::En => "Use ↑↓ arrows or WASD to navigate"@,
        Language::Es => "Usa ↑↓ o WASD para navegar"@,
        Language::Ja => "↑↓ または WASD で移動"@,
        Language::Pt => "Use ↑↓ ou WASD para navegar"@,
        Language::Zh => "使用 ↑↓ 或 WASD 进行选择"@,
    }
}

pub fn menu_navigation_hint(language: Language) -> (r: &'static str)
    ensures
        r@ == menu_navigation_hint_spec(language),
{
    match language {
        Language::En => "Use ↑↓ arrows or WASD to navigate",
        Language::Es => "Usa ↑↓ o WASD para navegar",
        Language::Ja => "↑↓ または WASD で移動",
        Language::Pt => "Use ↑↓ ou WASD para navegar",
        Language::Zh => "使用 ↑↓ 或 WASD 进行选择",
    }
}

pub open spec fn menu_confirm_hint_spec(language: Language) -> Seq<char> {
    match language {
        Language::En => "Press ENTER/SPACE to select, Q to quit"@,
        Language::Es => "Pulsa ENTER/ESPACIO para elegir, Q para salir"@,
        Language::Ja => "ENTER/SPACE で決定、Q で終了"@,
        Language::Pt => "Pressione ENTER/ESPAÇO para escolher, Q para sair"@,
        Language::Zh => "按 ENTER/SPACE 确认，Q 退出"@,
    }
}

pub fn menu_confirm_hint(language: Language) -> (r: &'static str)
    ensures
        r@ == menu_confirm_hint_spec(language),
{
    match language {
        Language::En => "Press ENTER/SPACE to select, Q to quit",
        Language::Es => "Pulsa ENTER/ESPACIO para elegir, Q para salir",
        Language::Ja => "ENTER/SPACE で決定、Q で終了",
        Language::Pt => "Pressione ENTER/ESPAÇO para escolher, Q para sair",
        Language::Zh => "按 ENTER/SPACE 确认，Q 退出",
    }
}

pub open spec fn language_name_spec(language: Language) -> Seq<char> {
    match language {
        Language::En => "English"@,
        Language::Es => "Español"@,
        Language::Ja => "日本語"@,
        Language::Pt => "Português"@,
        Language::Zh => "简体中文"@,
    }
}

pub fn language_name(language: Language) -> (r: &'static str)
    ensures
        r@ == language_name_spec(language),
{
    match language {
        Language::En => "English",
        Language::Es => "Español",
        Language::Ja => "日本語",
        Language::Pt => "Português",
        Language::Zh => "简体中文",
    }
}

pub open spec fn language_popup_title_spec(language: Language) -> Seq<char> {
    match language {
        Language::En => "Select Language"@,
        Language::Es => "Selecciona idioma"@,
        Language::Ja => "言語を選択"@,
        Language::Pt => "Selecionar idioma"@,
        Language::Zh => "选择语言"@,
    }
}

pub fn language_popup_title(language: Language) -> (r: &'static str)
    ensures
        r@ == language_popup_title_spec(language),
{
    match language {
        Language::En => "Select Language",
        Language::Es => "Selecciona idioma",
        Language::Ja => "言語を選択",
        Language::Pt => "Selecionar idioma",
        Language::Zh => "选择语言",
    }
}

pub open spec fn language_label_spec(language: Language) -> Seq<char> {
    match language {
        Language::En => "Language"@,
        Language::Es => "Idioma"@,
        Language::Ja => "言語"@,
        Language::Pt => "Idioma"@,
        Language::Zh => "语言"@,
    }
}

pub fn language_label(language: Language) -> (r: &'static str)
    ensures
        r@ == language_label_spec(language),
{
    match language {
        Language::En => "Language",
        Language::Es => "Idioma",
        Language::Ja => "言語",
        Language::Pt => "Idioma",
        Language::Zh => "语言",
    }
}

pub open spec fn small_window_title_spec(language: Language) -> Seq<char> {
    match language {
        Language::En => "WINDOW TOO SMALL"@,
        Language::Es => "VENTANA MUY PEQUEÑA"@,
        Language::Ja => "ウィンドウが小さすぎます"@,
        Language::Pt => "JANELA MUITO PEQUENA"@,
        Language::Zh => "窗口太小"@,
    }
}

pub fn small_window_title(language: Language) -> (r: &'static str)
    ensures
        r@ == small_window_title_spec(language),
{
    match language {
        Language::En => "WINDOW TOO SMALL",
        Language::Es => "VENTANA MUY PEQUEÑA",
        Language::Ja => "ウィンドウが小さすぎます",
        Language::Pt => "JANELA MUITO PEQUENA",
        Language::Zh => "窗口太小",
    }
}

pub open spec fn small_window_current_label_spec(language: Language) -> Seq<char> {
    match language {
        Language::En => "Current"@,
        Language::Es => "Actual"@,
        Language::Ja => "現在"@,
        Language::Pt => "Atual"@,
        Language::Zh => "当前"@,
    }
}

pub fn small_window_current_label(language: Language) -> (r: &'static str)
    ensures
        r@ == small_window_current_label_spec(language),
{
    match language {
        Language::En => "Current",
        Language::Es => "Actual",
        Language::Ja => "現在",
        Language::Pt => "Atual",
        Language::Zh => "当前",
    }
}

pub open spec fn small_window_minimum_label_spec(language: Language) -> Seq<char> {
    match language {
        Language::En => "Minimum"@,
        Language::Es => "Mínimo"@,
        Language::Ja => "最小"@,
        Language::Pt => "Mínimo"@,
        Language::Zh => "最小"@,
    }
}

pub fn small_window_minimum_label(language: Language) -> (r: &'static str)
    ensures
        r@ == small_window_minimum_label_spec(language),
{
    match language {
        Language::En => "Minimum",
        Language::Es => "Mínimo",
        Language::Ja => "最小",
        Language::Pt => "Mínimo",
        Language::Zh => "最小",
    }
}

pub open spec fn small_window_hint_spec(language: Language) -> Seq<char> {
    match language {
        Language::En => "Resize terminal to continue. Press Q to quit."@,
        Language::Es => "Ajusta la terminal para continuar. Pulsa Q para salir."@,
        Language::Ja => "端末サイズを広げて続行。Qで終了。"@,
        Language::Pt => "Ajuste o terminal para continuar. Pressione Q para sair."@,
        Language::Zh => "请调整终端大小后继续。按 Q 退出。"@,
    }
}

pub fn small_window_hint(language: Language) -> (r: &'static str)
    ensures
        r@ == small_window_hint_spec(language),
{
    match language {
        Language::En => "Resize terminal to continue. Press Q to quit.",
        Language::Es => "Ajusta la terminal para continuar. Pulsa Q para salir.",
        Language::Ja => "端末サイズを広げて続行。Qで終了。",
        Language::Pt => "Ajuste o terminal para continuar. Pressione Q para sair.",
        Language::Zh => "请调整终端大小后继续。按 Q 退出。",
    }
}

pub open spec fn status_score_label_spec(language: Language) -> Seq<char> {
    match language {
        Language::En => "Score"@,
        Language::Es => "Puntos"@,
        Language::Ja => "得点"@,
        Language::Pt => "Pontos"@,
        Language::Zh => "分数"@,
    }
}

pub fn status_score_label(language: Language) -> (r: &'static str)
    ensures
        r@ == status_score_label_spec(language),
{
    match language {
        Language::En => "Score",
        Language::Es => "Puntos",
        Language::Ja => "得点",
        Language::Pt => "Pontos",
        Language::Zh => "分数",
    }
}

pub open spec fn status_difficulty_label_spec(language: Language) -> Seq<char> {
    match language {
        Language::En => "Diff"@,
        Language::Es => "Nivel"@,
        Language::Ja => "難易度"@,
        Language::Pt => "Nível"@,
        Language::Zh => "难度"@,
    }
}

pub fn status_difficulty_label(language: Language) -> (r: &'static str)
    ensures
        r@ == status_difficulty_label_spec(language),
{
    match language {
        Language::En => "Diff",
        Language::Es => "Nivel",
        Language::Ja => "難易度",
        Language::Pt => "Nível",
        Language::Zh => "难度",
    }
}

pub open spec fn status_paused_spec(language: Language) -> Seq<char> {
    match language {
        Language::En => "PAUSED"@,
        Language::Es => "PAUSA"@,
        Language::Ja => "一時停止"@,
        Language::Pt => "PAUSADO"@,
        Language::Zh => "暂停"@,
    }
}

pub fn status_paused(language: Language) -> (r: &'static str)
    ensures
        r@ == status_paused_spec(language),
{
    match language {
        Language::En => "PAUSED",
        Language::Es => "PAUSA",
        Language::Ja => "一時停止",
        Language::Pt => "PAUSADO",
        Language::Zh => "暂停",
    }
}

pub open spec fn status_muted_spec(language: Language) -> Seq<char> {
    match language {
        Language::En => "MUTED"@,
        Language::Es => "MUTEADO"@,
        Language::Ja => "消音"@,
        Language::Pt => "SEM SOM"@,
        Language::Zh => "静音"@,
    }
}

pub fn status_muted(language: Language) -> (r: &'static str)
    ensures
        r@ == status_muted_spec(language),
{
    match language {
        Language::En => "MUTED",
        Language::Es => "MUTEADO",
        Language::Ja => "消音",
        Language::Pt => "SEM SOM",
        Language::Zh => "静音",
    }
}

pub open spec fn info_best_label_spec(language: Language) -> Seq<char> {
    match language {
        Language::En => "Best"@,
        Language::Es => "Mejor"@,
        Language::Ja => "最高"@,
        Language::Pt => "Melhor"@,
        Language::Zh => "最佳"@,
    }
}

pub fn info_best_label(language: Language) -> (r: &'static str)
    ensures
        r@ == info_best_label_spec(language),
{
    match language {
        Language::En => "Best",
        Language::Es => "Mejor",
        Language::Ja => "最高",
        Language::Pt => "Melhor",
        Language::Zh => "最佳",
    }
}

pub open spec fn info_pace_label_spec(language: Language) -> Seq<char> {
    match language {
        Language::En => "Pace"@,
        Language::Es => "Ritmo"@,
        Language::Ja => "速度"@,
        Language::Pt => "Ritmo"@,
        Language::Zh => "速度"@,
    }
}

pub fn info_pace_label(language: Language) -> (r: &'static str)
    ensures
        r@ == info_pace_label_spec(language),
{
    match language {
        Language::En => "Pace",
        Language::Es => "Ritmo",
        Language::Ja => "速度",
        Language::Pt => "Ritmo",
        Language::Zh => "速度",
    }
}

pub open spec fn info_effect_label_spec(language: Language) -> Seq<char> {
    match language {
        Language::En => "Effect"@,
        Language::Es => "Efecto"@,
        Language::Ja => "効果"@,
        Language::Pt => "Efeito"@,
        Language::Zh => "效果"@,
    }
}

pub fn info_effect_label(language: Language) -> (r: &'static str)
    ensures
        r@ == info_effect_label_spec(language),
{
    match language {
        Language::En => "Effect",
        Language::Es => "Efecto",
        Language::Ja => "効果",
        Language::Pt => "Efeito",
        Language::Zh => "效果",
    }
}

pub open spec fn game_over_title_spec(language: Language) -> Seq<char> {
    match language {
        Language::En => "GAME OVER!"@,
        Language::Es => "FIN DEL JUEGO"@,
        Language::Ja => "ゲームオーバー"@,
        Language::Pt => "FIM DE JOGO"@,
        Language::Zh => "游戏结束"@,
    }
}

pub fn game_over_title(language: Language) -> (r: &'static str)
    ensures
        r@ == game_over_title_spec(language),
{
    match language {
        Language::En => "GAME OVER!",
        Language::Es => "FIN DEL JUEGO",
        Language::Ja => "ゲームオーバー",
        Language::Pt => "FIM DE JOGO",
        Language::Zh => "游戏结束",
    }
}

pub open spec fn game_over_menu_hint_spec(language: Language) -> Seq<char> {
    match language {
        Language::En => "Press SPACE for menu"@,
        Language::Es => "Pulsa ESPACIO para menú"@,
        Language::Ja => "SPACEでメニューへ"@,
        Language::Pt => "Pressione ESPAÇO para o menu"@,
        Language::Zh => "按 SPACE 返回菜单"@,
    }
}

pub fn game_over_menu_hint(language: Language) -> (r: &'static str)
    ensures
        r@ == game_over_menu_hint_spec(language),
{
    match language {
        Language::En => "Press SPACE for menu",
        Language::Es => "Pulsa ESPACIO para menú",
        Language::Ja => "SPACEでメニューへ",
        Language::Pt => "Pressione ESPAÇO para o menu",
        Language::Zh => "按 SPACE 返回菜单",
    }
}

pub open spec fn game_over_quit_hint_spec(language: Language) -> Seq<char> {
    match language {
        Language::En => "or 'q' to quit"@,
        Language::Es => "o 'q' para salir"@,
        Language::Ja => "'q'で終了"@,
        Language::Pt => "ou 'q' para sair"@,
        Language::Zh => "或按 'q' 退出"@,
    }
}

pub fn game_over_quit_hint(language: Language) -> (r: &'static str)
    ensures
        r@ == game_over_quit_hint_spec(language),
{
    match language {
        Language::En => "or 'q' to quit",
        Language::Es => "o 'q' para salir",
        Language::Ja => "'q'で終了",
        Language::Pt => "ou 'q' para sair",
        Language::Zh => "或按 'q' 退出",
    }
}

pub open spec fn difficulty_label_spec(language: Language, difficulty: Difficulty) -> Seq<char> {
    match (language, difficulty) {
        (Language::En, Difficulty::Easy) => "Easy"@,
        (Language::En, Difficulty::Medium) => "Medium"@,
        (Language::En, Difficulty::Hard) => "Hard"@,
        (Language::En, Difficulty::Extreme) => "Extreme"@,
        (Language::Es, Difficulty::Easy) => "Fácil"@,
        (Language::Es, Difficulty::Medium) => "Medio"@,
        (Language::Es, Difficulty::Hard) => "Difícil"@,
        (Language::Es, Difficulty::Extreme) => "Extremo"@,
        (Language::Ja, Difficulty::Easy) => "簡単"@,
        (Language::Ja, Difficulty::Medium) => "普通"@,
        (Language::Ja, Difficulty::Hard) => "難しい"@,
        (Language::Ja, Difficulty::Extreme) => "極限"@,
        (Language::Pt, Difficulty::Easy) => "Fácil"@,
        (Language::Pt, Difficulty::Medium) => "Médio"@,
        (Language::Pt, Difficulty::Hard) => "Difícil"@,
        (Language::Pt, Difficulty::Extreme) => "Extremo"@,
        (Language::Zh, Difficulty::Easy) => "简单"@,
        (Language::Zh, Difficulty::Medium) => "普通"@,
        (Language::Zh, Difficulty::Hard) => "困难"@,
        (Language::Zh, Difficulty::Extreme) => "极限"@,
    }
}

pub fn difficulty_label(language: Language, difficulty: Difficulty) -> (r: &'static str)
    ensures
        r@ == difficulty_label_spec(language, difficulty),
{
    match (language, difficulty) {
        (Language::En, Difficulty::Easy) => "Easy",
        (Language::En, Difficulty::Medium) => "Medium",
        (Language::En, Difficulty::Hard) => "Hard",
        (Language::En, Difficulty::Extreme) => "Extreme",
        (Language::Es, Difficulty::Easy) => "Fácil",
        (Language::Es, Difficulty::Medium) => "Medio",
        (Language::Es, Difficulty::Hard) => "Difícil",
        (Language::Es, Difficulty::Extreme) => "Extremo",
        (Language::Ja, Difficulty::Easy) => "簡単",
        (Language::Ja, Difficulty::Medium) => "普通",
        (Language::Ja, Difficulty::Hard) => "難しい",
        (Language::Ja, Difficulty::Extreme) => "極限",
        (Language::Pt, Difficulty::Easy) => "Fácil",
        (Language::Pt, Difficulty::Medium) => "Médio",
        (Language::Pt, Difficulty::Hard) => "Difícil",
        (Language::Pt, Difficulty::Extreme) => "Extremo",
        (Language::Zh, Difficulty::Easy) => "简单",
        (Language::Zh, Difficulty::Medium) => "普通",
        (Language::Zh, Difficulty::Hard) => "困难",
        (Language::Zh, Difficulty::Extreme) => "极限",
    }
}

pub open spec fn speed_effect_short_spec(language: Language, power_up_type: PowerUpType) -> Seq<char> {
    match (language, power_up_type) {
        (Language::En, PowerUpType::SpeedBoost) => "Boost"@,
        (Language::En, PowerUpType::SlowDown) => "Slow"@,
        (Language::Es, PowerUpType::SpeedBoost) => "Turbo"@,
        (Language::Es, PowerUpType::SlowDown) => "Lento"@,
        (Language::Ja, PowerUpType::SpeedBoost) => "加速"@,
        (Language::Ja, PowerUpType::SlowDown) => "減速"@,
        (Language::Pt, PowerUpType::SpeedBoost) => "Turbo"@,
        (Language::Pt, PowerUpType::SlowDown) => "Lento"@,
        (Language::Zh, PowerUpType::SpeedBoost) => "加速"@,
        (Language::Zh, PowerUpType::SlowDown) => "减速"@,
        (_, _) => ""@,
    }
}

pub fn speed_effect_short(language: Language, power_up_type: PowerUpType) -> (r: &'static str)
    ensures
        r@ == speed_effect_short_spec(language, power_up_type),
{
    match (language, power_up_type) {
        (Language::En, PowerUpType::SpeedBoost) => "Boost",
        (Language::En, PowerUpType::SlowDown) => "Slow",
        (Language::Es, PowerUpType::SpeedBoost) => "Turbo",
        (Language::Es, PowerUpType::SlowDown) => "Lento",
        (Language::Ja, PowerUpType::SpeedBoost) => "加速",
        (Language::Ja, PowerUpType::SlowDown) => "減速",
        (Language::Pt, PowerUpType::SpeedBoost) => "Turbo",
        (Language::Pt, PowerUpType::SlowDown) => "Lento",
        (Language::Zh, PowerUpType::SpeedBoost) => "加速",
        (Language::Zh, PowerUpType::SlowDown) => "减速",
        (_, _) => "",
    }
}

/// Display width, in terminal columns, of a text.
pub uninterp spec fn display_width_of(s: Seq<char>) -> nat;

/// Relies on unicode_width::UnicodeWidthStr::width: the number of terminal
/// columns that the text takes, a function of its characters alone.
#[verifier::external_body]
pub(crate) fn text_width(text: &str) -> (r: usize)
    ensures
        r == display_width_of(text@),
{
    UnicodeWidthStr::width(text)
}

/// Columns taken by the selection marker and a space before a menu option.
pub const OPTION_OVERHEAD: u16 = 2;

/// The largest score, as the high-score table prints it.
pub const MAX_SCORE_TEXT: &'static str = "4294967295";

/// A width brought into `u16`, saturating.
pub open spec fn clamp_u16(w: nat) -> u16 {
    if w > u16::MAX {
        u16::MAX
    } else {
        w as u16
    }
}

/// The widest of `widths`, each clamped to `u16` and widened by `overhead`
/// (saturating); 0 for none.
pub open spec fn widest(widths: Seq<nat>, overhead: u16) -> u16
    decreases widths.len(),
{
    if widths.len() == 0 {
        0
    } else {
        let rest = widest(widths.drop_last(), overhead);
        let last = clamp_u16(widths.last()).saturating_add(overhead);
        if rest >= last {
            rest
        } else {
            last
        }
    }
}

/// `label: value`.
pub open spec fn labelled_spec(label: Seq<char>, value: Seq<char>) -> Seq<char> {
    label + ": "@ + value
}

/// The wider of two texts, the first on a tie.
pub open spec fn wider_spec(a: Seq<char>, b: Seq<char>) -> Seq<char> {
    if display_width_of(a) >= display_width_of(b) {
        a
    } else {
        b
    }
}

/// Titles and hints, shown without a marker.
pub open spec fn ui_texts(l: Language) -> Seq<Seq<char>> {
    seq![
        controls_text_spec(l),
        menu_navigation_hint_spec(l),
        menu_confirm_hint_spec(l),
        small_window_hint_spec(l),
        difficulty_menu_title_spec(l),
        high_scores_menu_title_spec(l),
        language_popup_title_spec(l),
        menu_title_spec(l),
        reset_high_scores_title_spec(l),
        game_over_title_spec(l),
        game_over_menu_hint_spec(l),
        game_over_quit_hint_spec(l),
    ]
}

/// Every menu option, shown after a marker.
pub open spec fn ui_options(l: Language) -> Seq<Seq<char>> {
    let on_off = wider_spec(setting_on_spec(l), setting_off_spec(l));
    seq![
        menu_play_spec(l),
        labelled_spec(menu_difficulty_spec(l), difficulty_label_spec(l, Difficulty::Extreme)),
        menu_high_scores_spec(l),
        menu_settings_spec(l),
        menu_quit_spec(l),
        difficulty_label_spec(l, Difficulty::Easy),
        difficulty_label_spec(l, Difficulty::Medium),
        difficulty_label_spec(l, Difficulty::Hard),
        difficulty_label_spec(l, Difficulty::Extreme),
        menu_back_spec(l),
        labelled_spec(language_label_spec(l), language_name_spec(l)),
        labelled_spec(settings_pause_on_focus_loss_label_spec(l), on_off),
        labelled_spec(settings_sound_label_spec(l), on_off),
        settings_reset_high_scores_label_spec(l),
        menu_back_spec(l),
        language_name_spec(Language::En),
        language_name_spec(Language::Es),
        language_name_spec(Language::Ja),
        language_name_spec(Language::Pt),
        language_name_spec(Language::Zh),
        menu_back_spec(l),
        confirm_yes_spec(l),
        confirm_no_spec(l),
        labelled_spec(difficulty_label_spec(l, Difficulty::Easy), MAX_SCORE_TEXT@),
        labelled_spec(difficulty_label_spec(l, Difficulty::Medium), MAX_SCORE_TEXT@),
        labelled_spec(difficulty_label_spec(l, Difficulty::Hard), MAX_SCORE_TEXT@),
        labelled_spec(difficulty_label_spec(l, Difficulty::Extreme), MAX_SCORE_TEXT@),
        menu_back_spec(l),
    ]
}

pub open spec fn widths_of(texts: Seq<Seq<char>>) -> Seq<nat> {
    texts.map_values(|t: Seq<char>| display_width_of(t))
}

pub open spec fn as_nats(widths: Seq<usize>) -> Seq<nat> {
    widths.map_values(|w: usize| w as nat)
}

/// The narrowest terminal width, in columns, that shows every title, hint
/// and menu option of `l`.
pub open spec fn minimum_ui_width_spec(l: Language) -> u16 {
    let a = widest(widths_of(ui_texts(l)), 0);
    let b = widest(widths_of(ui_options(l)), OPTION_OVERHEAD);
    if a >= b {
        a
    } else {
        b
    }
}

/// The widest line, given the widths of texts shown bare and of options
/// shown after a marker.
pub fn widest_line(text_widths: &Vec<usize>, option_widths: &Vec<usize>) -> (r: u16)
    ensures
        r == ({
            let a = widest(as_nats(text_widths@), 0);
            let b = widest(as_nats(option_widths@), OPTION_OVERHEAD);
            if a >= b {
                a
            } else {
                b
            }
        }),
{
    let a = widest_of(text_widths, 0);
    let b = widest_of(option_widths, OPTION_OVERHEAD);
    if a >= b {
        a
    } else {
        b
    }
}

fn widest_of(widths: &Vec<usize>, overhead: u16) -> (r: u16)
    ensures
        r == widest(as_nats(widths@), overhead),
{
    let mut best: u16 = 0;
    let mut i: usize = 0;
    while i < widths.len()
        invariant
            0 <= i <= widths@.len(),
            best == widest(as_nats(widths@.subrange(0, i as int)), overhead),
        decreases widths@.len() - i,
    {
        let w = widths[i];
        let clamped: u16 = if w > u16::MAX as usize {
            u16::MAX
        } else {
            w as u16
        };
        let candidate = clamped.saturating_add(overhead);
        if candidate > best {
            best = candidate;
        }
        proof {
            let next = as_nats(widths@.subrange(0, i + 1));
            assert(next.drop_last() =~= as_nats(widths@.subrange(0, i as int)));
            assert(next.last() == w as nat);
        }
        i += 1;
    }
    assert(widths@.subrange(0, widths@.len() as int) =~= widths@);
    best
}

/// `label: value`.
pub fn labelled(label: &str, value: &str) -> (r: String)
    ensures
        r@ == labelled_spec(label@, value@),
{
    let mut line = String::from_str(label);
    line.append(": ");
    line.append(value);
    line
}

pub open spec fn views(texts: Seq<String>) -> Seq<Seq<char>> {
    texts.map_values(|t: String| t@)
}

/// The display width of each text.
fn widths_of_texts(texts: &Vec<String>) -> (r: Vec<usize>)
    ensures
        as_nats(r@) == widths_of(views(texts@)),
{
    let mut widths: Vec<usize> = Vec::new();
    let mut i: usize = 0;
    while i < texts.len()
        invariant
            0 <= i <= texts@.len(),
            as_nats(widths@) =~= widths_of(views(texts@.subrange(0, i as int))),
        decreases texts@.len() - i,
    {
        let w = text_width(texts[i].as_str());
        proof {
            let prev = texts@.subrange(0, i as int);
            let next = texts@.subrange(0, i + 1);
            assert(next =~= prev.push(texts@[i as int]));
            assert(views(next) =~= views(prev).push(texts@[i as int]@));
            assert(as_nats(widths@.push(w)) =~= as_nats(widths@).push(w as nat));
            assert(widths_of(views(next)) =~= widths_of(views(prev)).push(
                display_width_of(texts@[i as int]@),
            ));
        }
        widths.push(w);
        i += 1;
    }
    assert(texts@.subrange(0, texts@.len() as int) =~= texts@);
    widths
}

/// The narrowest terminal width, in columns, that shows every title, hint
/// and menu option of `language`.
pub fn minimum_ui_width(language: Language) -> (r: u16)
    ensures
        r == minimum_ui_width_spec(language),
{
    let mut texts: Vec<String> = Vec::new();
    texts.push(String::from_str(controls_text(language)));
    texts.push(String::from_str(menu_navigation_hint(language)));
    texts.push(String::from_str(menu_confirm_hint(language)));
    texts.push(String::from_str(small_window_hint(language)));
    texts.push(String::from_str(difficulty_menu_title(language)));
    texts.push(String::from_str(high_scores_menu_title(language)));
    texts.push(String::from_str(language_popup_title(language)));
    texts.push(String::from_str(menu_title(language)));
    texts.push(String::from_str(reset_high_scores_title(language)));
    texts.push(String::from_str(game_over_title(language)));
    texts.push(String::from_str(game_over_menu_hint(language)));
    texts.push(String::from_str(game_over_quit_hint(language)));

    let on = setting_on(language);
    let off = setting_off(language);
    let on_off = if text_width(on) >= text_width(off) {
        on
    } else {
        off
    };
    let mut options: Vec<String> = Vec::new();
    options.push(String::from_str(menu_play(language)));
    options.push(labelled(menu_difficulty(language), difficulty_label(language, Difficulty::Extreme)));
    options.push(String::from_str(menu_high_scores(language)));
    options.push(String::from_str(menu_settings(language)));
    options.push(String::from_str(menu_quit(language)));
    options.push(String::from_str(difficulty_label(language, Difficulty::Easy)));
    options.push(String::from_str(difficulty_label(language, Difficulty::Medium)));
    options.push(String::from_str(difficulty_label(language, Difficulty::Hard)));
    options.push(String::from_str(difficulty_label(language, Difficulty::Extreme)));
    options.push(String::from_str(menu_back(language)));
    options.push(labelled(language_label(language), language_name(language)));
    options.push(labelled(settings_pause_on_focus_loss_label(language), on_off));
    options.push(labelled(settings_sound_label(language), on_off));
    options.push(String::from_str(settings_reset_high_scores_label(language)));
    options.push(String::from_str(menu_back(language)));
    options.push(String::from_str(language_name(Language::En)));
    options.push(String::from_str(language_name(Language::Es)));
    options.push(String::from_str(language_name(Language::Ja)));
    options.push(String::from_str(language_name(Language::Pt)));
    options.push(String::from_str(language_name(Language::Zh)));
    options.push(String::from_str(menu_back(language)));
    options.push(String::from_str(confirm_yes(language)));
    options.push(String::from_str(confirm_no(language)));
    options.push(labelled(difficulty_label(language, Difficulty::Easy), MAX_SCORE_TEXT));
    options.push(labelled(difficulty_label(language, Difficulty::Medium), MAX_SCORE_TEXT));
    options.push(labelled(difficulty_label(language, Difficulty::Hard), MAX_SCORE_TEXT));
    options.push(labelled(difficulty_label(language, Difficulty::Extreme), MAX_SCORE_TEXT));
    options.push(String::from_str(menu_back(language)));

    assert(views(texts@) =~= ui_texts(language));
    assert(views(options@) =~= ui_options(language));
    let text_widths = widths_of_texts(&texts);
    let option_widths = widths_of_texts(&options);
    widest_line(&text_widths, &option_widths)
}

} // verus!
