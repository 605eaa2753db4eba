//! The menu screens: which row is selected, what a confirmation does, and
//! the rows each screen shows.

use crate::i18n;
use crate::input::GameInput;
use crate::storage::{HighScores, Settings};
use crate::utils::{language_at, Difficulty, Direction, Language};
use vstd::prelude::*;

verus! {

#[derive(Debug, Clone, Copy, PartialEq, Eq, Structural)]
pub enum MenuScreen {
    Main,
    Difficulty,
    HighScores,
    Settings,
    Language,
    ResetScoresConfirm,
}

/// What the program does after a menu input.
#[derive(Debug, Clone, Copy, PartialEq, Eq, Structural)]
pub enum MenuAction {
    /// Keep showing the menu.
    Stay,
    /// Keep showing the menu; the settings or the high scores changed and
    /// are to be saved.
    Persist,
    /// Leave the menu and play at this difficulty.
    Start(Difficulty),
    /// Leave the program.
    Quit,
}

/// The menu's state: the screen shown, the selected row of each screen,
/// and the data that the menu edits.
#[derive(Debug, Clone, Copy, PartialEq, Eq, Structural)]
pub struct MenuState {
    pub screen: MenuScreen,
    pub main_selected: usize,
    pub difficulty_selected: usize,
    pub settings_selected: usize,
    pub language_selected: usize,
    pub reset_selected: usize,
    pub selected_difficulty: Difficulty,
    pub settings: Settings,
    pub high_scores: HighScores,
}

/// Rows of the settings screen.
pub const SETTINGS_LANGUAGE_ROW: usize = 0;
pub const SETTINGS_PAUSE_ROW: usize = 1;
pub const SETTINGS_SOUND_ROW: usize = 2;
pub const SETTINGS_RESET_ROW: usize = 3;
pub const SETTINGS_BACK_ROW: usize = 4;

/// Index of `d` in the difficulty screen's rows.
pub open spec fn difficulty_index(d: Difficulty) -> usize {
    match d {
        Difficulty::Easy => 0,
        Difficulty::Medium => 1,
        Difficulty::Hard => 2,
        Difficulty::Extreme => 3,
    }
}

/// The difficulty at row `index`; Medium past the end.
pub open spec fn difficulty_at(index: usize) -> Difficulty {
    if index == 0 {
        Difficulty::Easy
    } else if index == 1 {
        Difficulty::Medium
    } else if index == 2 {
        Difficulty::Hard
    } else if index == 3 {
        Difficulty::Extreme
    } else {
        Difficulty::Medium
    }
}

pub fn difficulty_to_index(difficulty: Difficulty) -> (r: usize)
    ensures
        r == difficulty_index(difficulty),
{
    match difficulty {
        Difficulty::Easy => 0,
        Difficulty::Medium => 1,
        Difficulty::Hard => 2,
        Difficulty::Extreme => 3,
    }
}

pub fn difficulty_from_index(index: usize) -> (r: Difficulty)
    ensures
        r == difficulty_at(index),
{
    match index {
        0 => Difficulty::Easy,
        1 => Difficulty::Medium,
        2 => Difficulty::Hard,
        3 => Difficulty::Extreme,
        _ => Difficulty::Medium,
    }
}

/// The last row of a screen.
pub open spec fn last_row(screen: MenuScreen) -> usize {
    match screen {
        MenuScreen::Main => 4,
        MenuScreen::Difficulty => 4,
        MenuScreen::Settings => SETTINGS_BACK_ROW,
        MenuScreen::Language => Language::COUNT,
        MenuScreen::ResetScoresConfirm => 1,
        MenuScreen::HighScores => 0,
    }
}

pub open spec fn min_usize(a: usize, b: usize) -> usize {
    if a <= b {
        a
    } else {
        b
    }
}

impl MenuState {
    /// The selected row of the screen shown.
    pub open spec fn selected(&self) -> usize {
        match self.screen {
            MenuScreen::Main => self.main_selected,
            MenuScreen::Difficulty => self.difficulty_selected,
            MenuScreen::Settings => self.settings_selected,
            MenuScreen::Language => self.language_selected,
            MenuScreen::ResetScoresConfirm => self.reset_selected,
            MenuScreen::HighScores => 0,
        }
    }

    /// The state with row `row` selected on the screen shown.
    pub open spec fn with_selected(self, row: usize) -> MenuState {
        match self.screen {
            MenuScreen::Main => MenuState { main_selected: row, ..self },
            MenuScreen::Difficulty => MenuState { difficulty_selected: row, ..self },
            MenuScreen::Settings => MenuState { settings_selected: row, ..self },
            MenuScreen::Language => MenuState { language_selected: row, ..self },
            MenuScreen::ResetScoresConfirm => MenuState { reset_selected: row, ..self },
            MenuScreen::HighScores => self,
        }
    }

    /// What confirming the selected row does.
    pub open spec fn confirm_spec(self, layout_ok: bool) -> (MenuState, MenuAction) {
        match self.screen {
            MenuScreen::Main => if self.main_selected == 0 {
                (self, if layout_ok {
                    MenuAction::Start(self.selected_difficulty)
                } else {
                    MenuAction::Stay
                })
            } else if self.main_selected == 1 {
                (
                    MenuState {
                        difficulty_selected: difficulty_index(self.selected_difficulty),
                        screen: MenuScreen::Difficulty,
                        ..self
                    },
                    MenuAction::Stay,
                )
            } else if self.main_selected == 2 {
                (MenuState { screen: MenuScreen::HighScores, ..self }, MenuAction::Stay)
            } else if self.main_selected == 3 {
                (MenuState { screen: MenuScreen::Settings, ..self }, MenuAction::Stay)
            } else if self.main_selected == 4 {
                (self, MenuAction::Quit)
            } else {
                (self, MenuAction::Stay)
            },
            MenuScreen::Difficulty => if self.difficulty_selected <= 3 {
                let d = difficulty_at(self.difficulty_selected);
                (
                    MenuState {
                        selected_difficulty: d,
                        settings: Settings { default_difficulty: d, ..self.settings },
                        screen: MenuScreen::Main,
                        ..self
                    },
                    MenuAction::Persist,
                )
            } else {
                (MenuState { screen: MenuScreen::Main, ..self }, MenuAction::Stay)
            },
            MenuScreen::Settings => if self.settings_selected == SETTINGS_LANGUAGE_ROW {
                (
                    MenuState {
                        language_selected: language_index(self.settings.language),
                        screen: MenuScreen::Language,
                        ..self
                    },
                    MenuAction::Stay,
                )
            } else if self.settings_selected == SETTINGS_PAUSE_ROW {
                (
                    MenuState {
                        settings: Settings {
                            pause_on_focus_loss: !self.settings.pause_on_focus_loss,
                            ..self.settings
                        },
                        ..self
                    },
                    MenuAction::Persist,
                )
            } else if self.settings_selected == SETTINGS_SOUND_ROW {
                (
                    MenuState {
                        settings: Settings { sound_on: !self.settings.sound_on, ..self.settings },
                        ..self
                    },
                    MenuAction::Persist,
                )
            } else if self.settings_selected == SETTINGS_RESET_ROW {
                (
                    MenuState {
                        reset_selected: 1,
                        screen: MenuScreen::ResetScoresConfirm,
                        ..self
                    },
                    MenuAction::Stay,
                )
            } else if self.settings_selected == SETTINGS_BACK_ROW {
                (MenuState { screen: MenuScreen::Main, ..self }, MenuAction::Stay)
            } else {
                (self, MenuAction::Stay)
            },
            MenuScreen::Language => if self.language_selected < Language::COUNT {
                (
                    MenuState {
                        settings: Settings {
                            language: language_at(self.language_selected as int),
                            ..self.settings
                        },
                        screen: MenuScreen::Settings,
                        ..self
                    },
                    MenuAction::Persist,
                )
            } else {
                (MenuState { screen: MenuScreen::Settings, ..self }, MenuAction::Stay)
            },
            MenuScreen::ResetScoresConfirm => if self.reset_selected == 0 {
                (
                    MenuState {
                        high_scores: HighScores::zero(),
                        screen: MenuScreen::Settings,
                        ..self
                    },
                    MenuAction::Persist,
                )
            } else {
                (MenuState { screen: MenuScreen::Settings, ..self }, MenuAction::Stay)
            },
            MenuScreen::HighScores => (
                MenuState { screen: MenuScreen::Main, ..self },
                MenuAction::Stay,
            ),
        }
    }

    /// The state and the action after `input`.
    pub open spec fn step_spec(self, input: GameInput, layout_ok: bool) -> (MenuState, MenuAction) {
        match input {
            GameInput::MenuSelect(row) => (
                self.with_selected(min_usize(row, last_row(self.screen))),
                MenuAction::Stay,
            ),
            GameInput::Direction(Direction::Up) => (
                self.with_selected(self.selected().saturating_sub(1)),
                MenuAction::Stay,
            ),
            GameInput::Direction(Direction::Down) => (
                self.with_selected(
                    min_usize(self.selected().saturating_add(1), last_row(self.screen)),
                ),
                MenuAction::Stay,
            ),
            GameInput::MenuConfirm => self.confirm_spec(layout_ok),
            GameInput::Quit => (self, MenuAction::Quit),
            _ => (self, MenuAction::Stay),
        }
    }

    /// The main screen, with `difficulty` chosen and the language's row
    /// preselected; "No" preselected on the reset screen.
    pub fn new(settings: Settings, difficulty: Difficulty, high_scores: HighScores) -> (r: MenuState)
        ensures
            r == (MenuState {
                screen: MenuScreen::Main,
                main_selected: 0,
                difficulty_selected: difficulty_index(difficulty),
                settings_selected: 0,
                language_selected: language_index(settings.language),
                reset_selected: 1,
                selected_difficulty: difficulty,
                settings,
                high_scores,
            }),
    {
        MenuState {
            screen: MenuScreen::Main,
            main_selected: 0,
            difficulty_selected: difficulty_to_index(difficulty),
            settings_selected: 0,
            language_selected: settings.language.to_index(),
            reset_selected: 1,
            selected_difficulty: difficulty,
            settings,
            high_scores,
        }
    }

    /// The selected row of the screen shown.
    pub fn selected_row(&self) -> (r: usize)
        ensures
            r == self.selected(),
    {
        match self.screen {
            MenuScreen::Main => self.main_selected,
            MenuScreen::Difficulty => self.difficulty_selected,
            MenuScreen::Settings => self.settings_selected,
            MenuScreen::Language => self.language_selected,
            MenuScreen::ResetScoresConfirm => self.reset_selected,
            MenuScreen::HighScores => 0,
        }
    }

    fn select(&mut self, row: usize)
        ensures
            *final(self) == old(self).with_selected(row),
    {
        match self.screen {
            MenuScreen::Main => self.main_selected = row,
            MenuScreen::Difficulty => self.difficulty_selected = row,
            MenuScreen::Settings => self.settings_selected = row,
            MenuScreen::Language => self.language_selected = row,
            MenuScreen::ResetScoresConfirm => self.reset_selected = row,
            MenuScreen::HighScores => {},
        }
    }

    fn last_row(&self) -> (r: usize)
        ensures
            r == last_row(self.screen),
    {
        match self.screen {
            MenuScreen::Main => 4,
            MenuScreen::Difficulty => 4,
            MenuScreen::Settings => SETTINGS_BACK_ROW,
            MenuScreen::Language => Language::COUNT,
            MenuScreen::ResetScoresConfirm => 1,
            MenuScreen::HighScores => 0,
        }
    }

    /// Confirms the selected row.
    fn confirm(&mut self, layout_ok: bool) -> (r: MenuAction)
        ensures
            (*final(self), r) == old(self).confirm_spec(layout_ok),
    {
        match self.screen {
            MenuScreen::Main => {
                if self.main_selected == 0 {
                    if layout_ok {
                        MenuAction::Start(self.selected_difficulty)
                    } else {
                        MenuAction::Stay
                    }
                } else if self.main_selected == 1 {
                    self.difficulty_selected = difficulty_to_index(self.selected_difficulty);
                    self.screen = MenuScreen::Difficulty;
                    MenuAction::Stay
                } else if self.main_selected == 2 {
                    self.screen = MenuScreen::HighScores;
                    MenuAction::Stay
                } else if self.main_selected == 3 {
                    self.screen = MenuScreen::Settings;
                    MenuAction::Stay
                } else if self.main_selected == 4 {
                    MenuAction::Quit
                } else {
                    MenuAction::Stay
                }
            },
            MenuScreen::Difficulty => {
                self.screen = MenuScreen::Main;
                if self.difficulty_selected <= 3 {
                    let d = difficulty_from_index(self.difficulty_selected);
                    self.selected_difficulty = d;
                    self.settings.default_difficulty = d;
                    MenuAction::Persist
                } else {
                    MenuAction::Stay
                }
            },
            MenuScreen::Settings => {
                if self.settings_selected == SETTINGS_LANGUAGE_ROW {
                    self.language_selected = self.settings.language.to_index();
                    self.screen = MenuScreen::Language;
                    MenuAction::Stay
                } else if self.settings_selected == SETTINGS_PAUSE_ROW {
                    self.settings.pause_on_focus_loss = !self.settings.pause_on_focus_loss;
                    MenuAction::Persist
                } else if self.settings_selected == SETTINGS_SOUND_ROW {
                    self.settings.sound_on = !self.settings.sound_on;
                    MenuAction::Persist
                } else if self.settings_selected == SETTINGS_RESET_ROW {
                    self.reset_selected = 1;
                    self.screen = MenuScreen::ResetScoresConfirm;
                    MenuAction::Stay
                } else if self.settings_selected == SETTINGS_BACK_ROW {
                    self.screen = MenuScreen::Main;
                    MenuAction::Stay
                } else {
                    MenuAction::Stay
                }
            },
            MenuScreen::Language => {
                self.screen = MenuScreen::Settings;
                if self.language_selected < Language::COUNT {
                    self.settings.language = Language::from_index(self.language_selected);
                    MenuAction::Persist
                } else {
                    MenuAction::Stay
                }
            },
            MenuScreen::ResetScoresConfirm => {
                self.screen = MenuScreen::Settings;
                if self.reset_selected == 0 {
                    self.high_scores = HighScores::default();
                    MenuAction::Persist
                } else {
                    MenuAction::Stay
                }
            },
            MenuScreen::HighScores => {
                self.screen = MenuScreen::Main;
                MenuAction::Stay
            },
        }
    }

    /// Applies one input: a row number selects that row (the last row at
    /// most), up and down move the selection, confirm acts on the selected
    /// row, quit leaves. Playing needs `layout_ok`: a terminal large enough.
    pub fn handle_input(&mut self, input: GameInput, layout_ok: bool) -> (r: MenuAction)
        ensures
            (*final(self), r) == old(self).step_spec(input, layout_ok),
    {
        match input {
            GameInput::MenuSelect(row) => {
                let last = self.last_row();
                let chosen = if row <= last {
                    row
                } else {
                    last
                };
                self.select(chosen);
                MenuAction::Stay
            },
            GameInput::Direction(Direction::Up) => {
                let row = self.selected_row().saturating_sub(1);
                self.select(row);
                MenuAction::Stay
            },
            GameInput::Direction(Direction::Down) => {
                let last = self.last_row();
                let next = self.selected_row().saturating_add(1);
                let row = if next <= last {
                    next
                } else {
                    last
                };
                self.select(row);
                MenuAction::Stay
            },
            GameInput::MenuConfirm => self.confirm(layout_ok),
            GameInput::Quit => MenuAction::Quit,
            _ => MenuAction::Stay,
        }
    }
}

/// Index of `l` in menu order.
pub open spec fn language_index(l: Language) -> usize {
    match l {
        Language::En => 0,
        Language::Es => 1,
        Language::Ja => 2,
        Language::Pt => 3,
        Language::Zh => 4,
    }
}

/// What a menu screen shows: its tag, title, subtitle and rows, the
/// selected row and the row, if any, that destroys data.
pub struct MenuView {
    pub screen_tag: &'static str,
    pub title: &'static str,
    pub subtitle: Option<String>,
    pub options: Vec<String>,
    pub selected_option: usize,
    pub danger_option: Option<usize>,
}

/// "On" or "Off" in `l`.
pub open spec fn on_off_spec(l: Language, on: bool) -> Seq<char> {
    if on {
        i18n::setting_on_spec(l)
    } else {
        i18n::setting_off_spec(l)
    }
}

fn on_off(l: Language, on: bool) -> (r: &'static str)
    ensures
        r@ == on_off_spec(l, on),
{
    if on {
        i18n::setting_on(l)
    } else {
        i18n::setting_off(l)
    }
}

/// "Difficulty: <tier>" in `l`.
pub open spec fn difficulty_line_spec(l: Language, d: Difficulty) -> Seq<char> {
    i18n::labelled_spec(i18n::menu_difficulty_spec(l), i18n::difficulty_label_spec(l, d))
}

/// "Language: <name>" in `l`.
pub open spec fn language_line_spec(l: Language) -> Seq<char> {
    i18n::labelled_spec(i18n::language_label_spec(l), i18n::language_name_spec(l))
}

/// The rows of each screen but the high-score table.
pub open spec fn menu_rows(s: MenuState) -> Seq<Seq<char>> {
    let l = s.settings.language;
    match s.screen {
        MenuScreen::Main => seq![
            i18n::menu_play_spec(l),
            difficulty_line_spec(l, s.selected_difficulty),
            i18n::menu_high_scores_spec(l),
            i18n::menu_settings_spec(l),
            i18n::menu_quit_spec(l),
        ],
        MenuScreen::Difficulty => seq![
            i18n::difficulty_label_spec(l, Difficulty::Easy),
            i18n::difficulty_label_spec(l, Difficulty::Medium),
            i18n::difficulty_label_spec(l, Difficulty::Hard),
            i18n::difficulty_label_spec(l, Difficulty::Extreme),
            i18n::menu_back_spec(l),
        ],
        MenuScreen::Settings => seq![
            language_line_spec(l),
            i18n::labelled_spec(
                i18n::settings_pause_on_focus_loss_label_spec(l),
                on_off_spec(l, s.settings.pause_on_focus_loss),
            ),
            i18n::labelled_spec(
                i18n::settings_sound_label_spec(l),
                on_off_spec(l, s.settings.sound_on),
            ),
            i18n::settings_reset_high_scores_label_spec(l),
            i18n::menu_back_spec(l),
        ],
        MenuScreen::Language => seq![
            i18n::language_name_spec(Language::En),
            i18n::language_name_spec(Language::Es),
            i18n::language_name_spec(Language::Ja),
            i18n::language_name_spec(Language::Pt),
            i18n::language_name_spec(Language::Zh),
            i18n::menu_back_spec(l),
        ],
        MenuScreen::ResetScoresConfirm => seq![i18n::confirm_yes_spec(l), i18n::confirm_no_spec(l)],
        MenuScreen::HighScores => Seq::empty(),
    }
}

/// The tag that names each screen.
pub open spec fn screen_tag_of(screen: MenuScreen) -> Seq<char> {
    match screen {
        MenuScreen::Main => "MENU"@,
        MenuScreen::Difficulty => "DIFFICULTY"@,
        MenuScreen::Settings => "SETTINGS"@,
        MenuScreen::Language => "LANGUAGE"@,
        MenuScreen::ResetScoresConfirm => "RESET"@,
        MenuScreen::HighScores => "HIGH SCORES"@,
    }
}

/// The title of each screen.
pub open spec fn menu_title_of(s: MenuState) -> Seq<char> {
    let l = s.settings.language;
    match s.screen {
        MenuScreen::Main => i18n::menu_title_spec(l),
        MenuScreen::Difficulty => i18n::difficulty_menu_title_spec(l),
        MenuScreen::Settings => i18n::menu_settings_spec(l),
        MenuScreen::Language => i18n::language_popup_title_spec(l),
        MenuScreen::ResetScoresConfirm => i18n::reset_high_scores_title_spec(l),
        MenuScreen::HighScores => i18n::high_scores_menu_title_spec(l),
    }
}

/// The subtitle of each screen.
pub open spec fn menu_subtitle_of(s: MenuState) -> Option<Seq<char>> {
    let l = s.settings.language;
    match s.screen {
        MenuScreen::Main => Some(difficulty_line_spec(l, s.selected_difficulty)),
        MenuScreen::Difficulty => Some(
            difficulty_line_spec(
                l,
                difficulty_at(min_usize(s.difficulty_selected, 3)),
            ),
        ),
        MenuScreen::Settings => Some(
            language_line_spec(l) + "  "@ + i18n::labelled_spec(
                i18n::settings_sound_label_spec(l),
                on_off_spec(l, s.settings.sound_on),
            ),
        ),
        MenuScreen::Language => Some(language_line_spec(l)),
        MenuScreen::ResetScoresConfirm => Some(i18n::settings_reset_high_scores_label_spec(l)),
        MenuScreen::HighScores => None,
    }
}

pub open spec fn string_views(v: Seq<String>) -> Seq<Seq<char>> {
    v.map_values(|t: String| t@)
}

impl MenuState {
    /// What the screen shown displays.
    pub fn view(&self) -> (r: MenuView)
        ensures
            string_views(r.options@) == menu_rows(*self),
            r.screen_tag@ == screen_tag_of(self.screen),
            r.title@ == menu_title_of(*self),
            r.subtitle matches Some(t) ==> menu_subtitle_of(*self) == Some(t@),
            r.subtitle is None ==> menu_subtitle_of(*self) is None,
            r.selected_option == self.selected(),
            r.danger_option == match self.screen {
                MenuScreen::Settings => Some(SETTINGS_RESET_ROW),
                MenuScreen::ResetScoresConfirm => Some(0usize),
                _ => None::<usize>,
            },
    {
        let l = self.settings.language;
        let mut options: Vec<String> = Vec::new();
        let selected_option = self.selected_row();
        match self.screen {
            MenuScreen::Main => {
                let line = i18n::labelled(
                    i18n::menu_difficulty(l),
                    i18n::difficulty_label(l, self.selected_difficulty),
                );
                options.push(String::from_str(i18n::menu_play(l)));
                options.push(line.clone());
                options.push(String::from_str(i18n::menu_high_scores(l)));
                options.push(String::from_str(i18n::menu_settings(l)));
                options.push(String::from_str(i18n::menu_quit(l)));
                assert(string_views(options@) =~= menu_rows(*self));
                MenuView {
                    screen_tag: "MENU",
                    title: i18n::menu_title(l),
                    subtitle: Some(line),
                    options,
                    selected_option,
                    danger_option: None,
                }
            },
            MenuScreen::Difficulty => {
                let shown = if self.difficulty_selected <= 3 {
                    self.difficulty_selected
                } else {
                    3
                };
                let line = i18n::labelled(
                    i18n::menu_difficulty(l),
                    i18n::difficulty_label(l, difficulty_from_index(shown)),
                );
                options.push(String::from_str(i18n::difficulty_label(l, Difficulty::Easy)));
                options.push(String::from_str(i18n::difficulty_label(l, Difficulty::Medium)));
                options.push(String::from_str(i18n::difficulty_label(l, Difficulty::Hard)));
                options.push(String::from_str(i18n::difficulty_label(l, Difficulty::Extreme)));
                options.push(String::from_str(i18n::menu_back(l)));
                assert(string_views(options@) =~= menu_rows(*self));
                MenuView {
                    screen_tag: "DIFFICULTY",
                    title: i18n::difficulty_menu_title(l),
                    subtitle: Some(line),
                    options,
                    selected_option,
                    danger_option: None,
                }
            },
            MenuScreen::Settings => {
                let language_line = i18n::labelled(i18n::language_label(l), i18n::language_name(l));
                let sound_line = i18n::labelled(
                    i18n::settings_sound_label(l),
                    on_off(l, self.settings.sound_on),
                );
                let mut subtitle = language_line.clone();
                subtitle.append("  ");
                subtitle.append(sound_line.as_str());
                options.push(language_line);
                options.push(
                    i18n::labelled(
                        i18n::settings_pause_on_focus_loss_label(l),
                        on_off(l, self.settings.pause_on_focus_loss),
                    ),
                );
                options.push(sound_line);
                options.push(String::from_str(i18n::settings_reset_high_scores_label(l)));
                options.push(String::from_str(i18n::menu_back(l)));
                assert(string_views(options@) =~= menu_rows(*self));
                MenuView {
                    screen_tag: "SETTINGS",
                    title: i18n::menu_settings(l),
                    subtitle: Some(subtitle),
                    options,
                    selected_option,
                    danger_option: Some(SETTINGS_RESET_ROW),
                }
            },
            MenuScreen::Language => {
                options.push(String::from_str(i18n::language_name(Language::En)));
                options.push(String::from_str(i18n::language_name(Language::Es)));
                options.push(String::from_str(i18n::language_name(Language::Ja)));
                options.push(String::from_str(i18n::language_name(Language::Pt)));
                options.push(String::from_str(i18n::language_name(Language::Zh)));
                options.push(String::from_str(i18n::menu_back(l)));
                assert(string_views(options@) =~= menu_rows(*self));
                MenuView {
                    screen_tag: "LANGUAGE",
                    title: i18n::language_popup_title(l),
                    subtitle: Some(i18n::labelled(i18n::language_label(l), i18n::language_name(l))),
                    options,
                    selected_option,
                    danger_option: None,
                }
            },
            MenuScreen::ResetScoresConfirm => {
                options.push(String::from_str(i18n::confirm_yes(l)));
                options.push(String::from_str(i18n::confirm_no(l)));
                assert(string_views(options@) =~= menu_rows(*self));
                MenuView {
                    screen_tag: "RESET",
                    title: i18n::reset_high_scores_title(l),
                    subtitle: Some(String::from_str(i18n::settings_reset_high_scores_label(l))),
                    options,
                    selected_option,
                    danger_option: Some(0),
                }
            },
            MenuScreen::HighScores => {
                assert(string_views(options@) =~= menu_rows(*self));
                MenuView {
                    screen_tag: "HIGH SCORES",
                    title: i18n::high_scores_menu_title(l),
                    subtitle: None,
                    options,
                    selected_option,
                    danger_option: None,
                }
            },
        }
    }
}

} // verus!
