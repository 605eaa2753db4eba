//! Pure helpers of the menu renderer: redraw regions, row text and the
//! ANSI sequences that draw a highlighted row.

use crate::game::{effect_percent, progression_percent, Game};
use crate::i18n::{self, clamp_u16, display_width_of, text_width};
use crate::layout::{Layout, SizeCheck};
use crate::utils::{Difficulty, Language};
use unicode_width::UnicodeWidthChar;
use vstd::prelude::*;

verus! {

pub const ANSI_RESET: &'static str = "\x1b[0m";
pub const STYLE_MENU_OPTION_SELECTED_MID: &'static str = "\x1b[1;38;2;255;255;255;48;2;89;138;207m";
pub const STYLE_MENU_OPTION_SELECTED_DANGER: &'static str = "\x1b[1;97;41m";

/// A rectangle of terminal cells, bounds included.
#[derive(Clone, Copy, Debug, PartialEq, Eq, Structural)]
pub struct Rect {
    pub start_x: u16,
    pub end_x: u16,
    pub start_y: u16,
    pub end_y: u16,
}

pub open spec fn min_u16(a: u16, b: u16) -> u16 {
    if a <= b {
        a
    } else {
        b
    }
}

pub open spec fn max_u16(a: u16, b: u16) -> u16 {
    if a >= b {
        a
    } else {
        b
    }
}

pub open spec fn rect_union_spec(a: Rect, b: Rect) -> Rect {
    Rect {
        start_x: min_u16(a.start_x, b.start_x),
        end_x: max_u16(a.end_x, b.end_x),
        start_y: min_u16(a.start_y, b.start_y),
        end_y: max_u16(a.end_y, b.end_y),
    }
}

/// The smallest rectangle that holds both.
pub fn rect_union(a: Rect, b: Rect) -> (r: Rect)
    ensures
        r == rect_union_spec(a, b),
{
    Rect {
        start_x: if a.start_x <= b.start_x {
            a.start_x
        } else {
            b.start_x
        },
        end_x: if a.end_x >= b.end_x {
            a.end_x
        } else {
            b.end_x
        },
        start_y: if a.start_y <= b.start_y {
            a.start_y
        } else {
            b.start_y
        },
        end_y: if a.end_y >= b.end_y {
            a.end_y
        } else {
            b.end_y
        },
    }
}

pub open spec fn transition_region_spec(previous: Option<Rect>, current: Rect) -> Rect {
    match previous {
        Some(prev) => rect_union_spec(prev, current),
        None => current,
    }
}

/// What to redraw when a screen replaces another: both regions together,
/// or the new one alone when nothing was drawn before.
pub fn transition_redraw_region(previous: Option<Rect>, current: Rect) -> (r: Rect)
    ensures
        r == transition_region_spec(previous, current),
{
    match previous {
        Some(prev) => rect_union(prev, current),
        None => current,
    }
}

/// The region that the last menu screen drew, owned by the renderer.
pub struct MenuRegionCache {
    pub last_region: Option<Rect>,
}

impl MenuRegionCache {
    pub fn new() -> (r: MenuRegionCache)
        ensures
            r.last_region is None,
    {
        MenuRegionCache { last_region: None }
    }

    /// Records `current_region` as drawn, and returns what must be redrawn
    /// to replace the previous screen with it.
    pub fn claim_redraw_region(&mut self, current_region: Rect) -> (r: Rect)
        ensures
            r == transition_region_spec(old(self).last_region, current_region),
            final(self).last_region == Some(current_region),
    {
        let r = transition_redraw_region(self.last_region, current_region);
        self.last_region = Some(current_region);
        r
    }

    pub fn cached_region(&self) -> (r: Option<Rect>)
        ensures
            r == self.last_region,
    {
        self.last_region
    }

    pub fn set_cached_region(&mut self, region: Option<Rect>)
        ensures
            final(self).last_region == region,
    {
        self.last_region = region;
    }

    /// Forgets the last region, as when the screen is cleared.
    pub fn invalidate(&mut self)
        ensures
            final(self).last_region is None,
    {
        self.last_region = None;
    }
}

/// The style of the selected row: red for a row that destroys data.
pub fn selected_option_style(is_danger: bool) -> (r: &'static str)
    ensures
        r@ == if is_danger {
            STYLE_MENU_OPTION_SELECTED_DANGER@
        } else {
            STYLE_MENU_OPTION_SELECTED_MID@
        },
{
    if is_danger {
        STYLE_MENU_OPTION_SELECTED_DANGER
    } else {
        STYLE_MENU_OPTION_SELECTED_MID
    }
}

/// The first column (1-based) that centres `content` columns in `total`.
pub fn center_start(total: u16, content: u16) -> (r: u16)
    ensures
        r == total.saturating_sub(content) / 2 + 1,
{
    total.saturating_sub(content) / 2 + 1
}

pub open spec fn digit_char(d: nat) -> char {
    if d == 0 {
        '0'
    } else if d == 1 {
        '1'
    } else if d == 2 {
        '2'
    } else if d == 3 {
        '3'
    } else if d == 4 {
        '4'
    } else if d == 5 {
        '5'
    } else if d == 6 {
        '6'
    } else if d == 7 {
        '7'
    } else if d == 8 {
        '8'
    } else {
        '9'
    }
}

/// Decimal digits of `n`, without leading zeros.
pub open spec fn decimal_spec(n: nat) -> Seq<char>
    decreases n,
{
    if n < 10 {
        seq![digit_char(n)]
    } else {
        decimal_spec(n / 10) + seq![digit_char(n % 10)]
    }
}

fn digit_text(d: u64) -> (r: &'static str)
    requires
        d < 10,
    ensures
        r@ == seq![digit_char(d as nat)],
{
    proof {
        reveal_strlit("0");
        reveal_strlit("1");
        reveal_strlit("2");
        reveal_strlit("3");
        reveal_strlit("4");
        reveal_strlit("5");
        reveal_strlit("6");
        reveal_strlit("7");
        reveal_strlit("8");
        reveal_strlit("9");
    }
    match d {
        0 => "0",
        1 => "1",
        2 => "2",
        3 => "3",
        4 => "4",
        5 => "5",
        6 => "6",
        7 => "7",
        8 => "8",
        _ => "9",
    }
}

/// Appends the decimal digits of `n`.
fn append_decimal(out: &mut String, n: u64)
    ensures
        final(out)@ == old(out)@ + decimal_spec(n as nat),
    decreases n,
{
    if n >= 10 {
        append_decimal(out, n / 10);
    }
    out.append(digit_text(n % 10));
    assert(out@ =~= old(out)@ + decimal_spec(n as nat));
}

/// Display width, in terminal columns, of one character; `None` for a
/// control character.
pub uninterp spec fn char_width_of(c: char) -> Option<usize>;

/// Relies on unicode_width::UnicodeWidthChar::width: the columns that a
/// character takes, `None` for control characters.
#[verifier::external_body]
fn char_width(c: char) -> (r: Option<usize>)
    ensures
        r == char_width_of(c),
{
    UnicodeWidthChar::width(c)
}

/// A width brought into `u16`, saturating.
pub open spec fn clamp_width(w: usize) -> u16 {
    if w > u16::MAX as usize {
        u16::MAX
    } else {
        w as u16
    }
}

/// How many leading cells, of the given widths, fit in `max_width` columns
/// from index `i` on with `used` columns taken: zero-width cells always
/// fit, the first wider cell that would overflow stops the count.
pub open spec fn fit_count_from(widths: Seq<usize>, max_width: u16, i: nat, used: u16) -> nat
    decreases widths.len() - i,
{
    if i >= widths.len() {
        i
    } else {
        let w = clamp_width(widths[i as int]);
        if w > 0 && used.saturating_add(w) > max_width {
            i
        } else {
            fit_count_from(widths, max_width, i + 1, used.saturating_add(w))
        }
    }
}

/// How many leading cells of the given widths fit in `max_width` columns.
pub open spec fn fit_count(widths: Seq<usize>, max_width: u16) -> nat {
    if max_width == 0 {
        0
    } else {
        fit_count_from(widths, max_width, 0, 0)
    }
}

/// The width of each character, 0 for control characters.
pub open spec fn char_widths(text: Seq<char>) -> Seq<usize> {
    text.map_values(
        |c: char|
            match char_width_of(c) {
                Some(w) => w,
                None => 0,
            },
    )
}

/// The longest prefix of `text` that fits in `max_width` columns.
pub open spec fn clip_spec(text: Seq<char>, max_width: u16) -> Seq<char> {
    text.subrange(0, fit_count(char_widths(text), max_width) as int)
}

/// How many leading cells of the given widths fit in `max_width` columns.
pub fn fitting_prefix_len(widths: &Vec<usize>, max_width: u16) -> (r: usize)
    ensures
        r == fit_count(widths@, max_width),
        r <= widths@.len(),
{
    if max_width == 0 {
        return 0;
    }
    let mut used: u16 = 0;
    let mut i: usize = 0;
    while i < widths.len()
        invariant
            0 <= i <= widths@.len(),
            fit_count_from(widths@, max_width, i as nat, used) == fit_count(widths@, max_width),
            max_width > 0,
        decreases widths@.len() - i,
    {
        let raw = widths[i];
        let w: u16 = if raw > u16::MAX as usize {
            u16::MAX
        } else {
            raw as u16
        };
        if w > 0 && used.saturating_add(w) > max_width {
            return i;
        }
        used = used.saturating_add(w);
        i += 1;
    }
    i
}

/// Cuts `text` to the columns that `max_width` allows.
pub fn clip_by_display_width(text: &str, max_width: u16) -> (r: String)
    ensures
        r@ == clip_spec(text@, max_width),
{
    let n = text.unicode_len();
    let mut widths: Vec<usize> = Vec::new();
    let mut i: usize = 0;
    while i < n
        invariant
            n == text@.len(),
            0 <= i <= n,
            widths@ =~= char_widths(text@).subrange(0, i as int),
        decreases n - i,
    {
        let c = text.get_char(i);
        let w = match char_width(c) {
            Some(w) => w,
            None => 0,
        };
        widths.push(w);
        i += 1;
    }
    assert(widths@ =~= char_widths(text@));
    let keep = fitting_prefix_len(&widths, max_width);
    String::from_str(text.substring_char(0, keep))
}

/// `n` spaces.
pub open spec fn spaces(n: nat) -> Seq<char> {
    Seq::new(n, |i: int| ' ')
}

/// Appends `n` spaces.
fn append_spaces(out: &mut String, n: u16)
    ensures
        final(out)@ == old(out)@ + spaces(n as nat),
{
    proof {
        reveal_strlit(" ");
    }
    let mut i: u16 = 0;
    while i < n
        invariant
            0 <= i <= n,
            out@ =~= old(out)@ + spaces(i as nat),
            " "@ == seq![' '],
        decreases n - i,
    {
        out.append(" ");
        i += 1;
    }
}

/// `text` padded with spaces to `target_width` columns, for a text of
/// `current_width` columns; unchanged when it is already that wide.
pub open spec fn pad_spec(text: Seq<char>, current_width: u16, target_width: u16) -> Seq<char> {
    if current_width >= target_width {
        text
    } else {
        text + spaces((target_width - current_width) as nat)
    }
}

/// Pads `text` with spaces to `target_width` columns, `current_width`
/// being its display width.
pub fn pad_to_width(text: &str, current_width: u16, target_width: u16) -> (r: String)
    ensures
        r@ == pad_spec(text@, current_width, target_width),
{
    let mut out = String::from_str(text);
    if current_width < target_width {
        append_spaces(&mut out, target_width - current_width);
    }
    out
}

/// The columns that `text` takes, saturating at `u16::MAX`.
pub fn display_width(text: &str) -> (r: u16)
    ensures
        r == crate::i18n::clamp_u16(display_width_of(text@)),
{
    let w = text_width(text);
    if w > u16::MAX as usize {
        u16::MAX
    } else {
        w as u16
    }
}

/// Pads `text` with spaces to `target_width` display columns.
pub fn pad_to_display_width(text: &str, target_width: u16) -> (r: String)
    ensures
        r@ == pad_spec(text@, crate::i18n::clamp_u16(display_width_of(text@)), target_width),
{
    pad_to_width(text, display_width(text), target_width)
}

/// The shortcut shown before option `index`: its 1-based number in
/// brackets for the first six, blank brackets after.
pub open spec fn shortcut_spec(index: nat) -> Seq<char> {
    if index < 6 {
        seq!['['] + decimal_spec(index + 1) + seq![']']
    } else {
        seq!['[', ' ', ']']
    }
}

fn shortcut_text(index: usize) -> (r: String)
    ensures
        r@ == shortcut_spec(index as nat),
{
    proof {
        reveal_strlit("[");
        reveal_strlit("]");
        reveal_strlit("[ ]");
    }
    if index < 6 {
        let mut out = String::from_str("[");
        append_decimal(&mut out, (index + 1) as u64);
        out.append("]");
        out
    } else {
        String::from_str("[ ]")
    }
}

/// A menu row: the selection marker, the shortcut and the label cut and
/// padded to `row_label_width` columns, separated by spaces.
pub open spec fn option_line_spec(
    option_index: nat,
    option: Seq<char>,
    selected_option: nat,
    row_label_width: u16,
    label_width: u16,
) -> Seq<char> {
    let marker = if selected_option == option_index {
        seq!['>']
    } else {
        seq![' ']
    };
    marker + seq![' '] + shortcut_spec(option_index) + seq![' '] + pad_spec(
        clip_spec(option, row_label_width),
        label_width,
        row_label_width,
    )
}

/// The text of menu row `option_index`.
pub fn menu_option_line_text(
    option_index: usize,
    option: &str,
    selected_option: usize,
    row_label_width: u16,
) -> (r: String)
    ensures
        r@ == option_line_spec(
            option_index as nat,
            option@,
            selected_option as nat,
            row_label_width,
            crate::i18n::clamp_u16(display_width_of(clip_spec(option@, row_label_width))),
        ),
{
    proof {
        reveal_strlit(">");
        reveal_strlit(" ");
    }
    let marker = if selected_option == option_index {
        ">"
    } else {
        " "
    };
    let clipped = clip_by_display_width(option, row_label_width);
    let padded = pad_to_display_width(clipped.as_str(), row_label_width);
    let mut line = String::from_str(marker);
    line.append(" ");
    let shortcut = shortcut_text(option_index);
    line.append(shortcut.as_str());
    line.append(" ");
    line.append(padded.as_str());
    line
}

/// Appends the sequence that moves the cursor to row `y`, column `x`.
fn append_cursor_move(out: &mut String, y: u16, x: u16)
    ensures
        final(out)@ == old(out)@ + cursor_move_spec(y, x),
{
    out.append("\x1b[");
    append_decimal(out, y as u64);
    out.append(";");
    append_decimal(out, x as u64);
    out.append("H");
}

/// The ANSI sequence that moves the cursor to row `y`, column `x`.
pub open spec fn cursor_move_spec(y: u16, x: u16) -> Seq<char> {
    "\x1b["@ + decimal_spec(y as nat) + ";"@ + decimal_spec(x as nat) + "H"@
}

/// The ANSI text of a highlighted row: the row's cells painted in
/// `row_style`, then `line` written over them, cut to the row's width.
pub open spec fn highlight_row_spec(
    y: u16,
    x: u16,
    row_width: u16,
    row_style: Seq<char>,
    line: Seq<char>,
) -> Seq<char> {
    row_style + cursor_move_spec(y, x) + spaces(row_width as nat) + ANSI_RESET@ + row_style
        + cursor_move_spec(y, x) + clip_spec(line, row_width) + ANSI_RESET@
}

pub fn build_highlight_row_ansi(y: u16, x: u16, row_width: u16, row_style: &str, line: &str) -> (r:
    String)
    ensures
        r@ == highlight_row_spec(y, x, row_width, row_style@, line@),
{
    let mut out = String::from_str(row_style);
    append_cursor_move(&mut out, y, x);
    append_spaces(&mut out, row_width);
    out.append(ANSI_RESET);
    out.append(row_style);
    append_cursor_move(&mut out, y, x);
    let clipped = clip_by_display_width(line, row_width);
    out.append(clipped.as_str());
    out.append(ANSI_RESET);
    out
}

/// The HUD's status line: score, tier, and the paused and muted flags.
pub open spec fn status_text_spec(
    l: Language,
    score: u32,
    difficulty: Difficulty,
    paused: bool,
    muted: bool,
) -> Seq<char> {
    let base = i18n::status_score_label_spec(l) + ":"@ + decimal_spec(score as nat) + "  "@
        + i18n::status_difficulty_label_spec(l) + ":"@ + i18n::difficulty_label_spec(l, difficulty);
    let with_pause = if paused {
        base + "  "@ + i18n::status_paused_spec(l)
    } else {
        base
    };
    if muted {
        with_pause + "  "@ + i18n::status_muted_spec(l)
    } else {
        with_pause
    }
}

/// The HUD's status line for `game`.
pub fn hud_status_text(game: &Game, language: Language) -> (r: String)
    ensures
        r@ == status_text_spec(language, game.score, game.difficulty, game.paused, game.muted),
{
    let mut out = String::from_str(i18n::status_score_label(language));
    out.append(":");
    append_decimal(&mut out, game.score as u64);
    out.append("  ");
    out.append(i18n::status_difficulty_label(language));
    out.append(":");
    out.append(i18n::difficulty_label(language, game.difficulty));
    if game.paused {
        out.append("  ");
        out.append(i18n::status_paused(language));
    }
    if game.muted {
        out.append("  ");
        out.append(i18n::status_muted(language));
    }
    out
}

/// The pace shown by the HUD, in percent: both multipliers together.
pub open spec fn pace_percent(g: Game) -> nat {
    (progression_percent(g.difficulty, g.score as int) * effect_percent(
        g.power_up_timer,
        g.active_speed_effect,
    ) / 100) as nat
}

/// The HUD's second line: best score, pace, and the active speed effect
/// with its ticks left.
pub open spec fn info_text_spec(l: Language, g: Game) -> Seq<char> {
    let base = i18n::info_best_label_spec(l) + ":"@ + decimal_spec(g.high_score as nat) + "  "@
        + i18n::info_pace_label_spec(l) + ":"@ + decimal_spec(pace_percent(g)) + "%"@;
    match (g.active_speed_effect, g.power_up_timer) {
        (Some(kind), Some(ticks)) => if i18n::speed_effect_short_spec(l, kind).len() > 0 {
            base + "  "@ + i18n::info_effect_label_spec(l) + ":"@ + i18n::speed_effect_short_spec(
                l,
                kind,
            ) + "("@ + decimal_spec(ticks as nat) + ")"@
        } else {
            base
        },
        _ => base,
    }
}

/// The HUD's second line for `game`.
pub fn hud_info_text(game: &Game, language: Language) -> (r: String)
    ensures
        r@ == info_text_spec(language, *game),
{
    let pace = game.difficulty_speed_multiplier_percent() * game.speed_multiplier_percent() / 100;
    let mut out = String::from_str(i18n::info_best_label(language));
    out.append(":");
    append_decimal(&mut out, game.high_score as u64);
    out.append("  ");
    out.append(i18n::info_pace_label(language));
    out.append(":");
    append_decimal(&mut out, pace);
    out.append("%");
    match (game.active_speed_effect, game.power_up_timer) {
        (Some(kind), Some(ticks)) => {
            let short = i18n::speed_effect_short(language, kind);
            if short.unicode_len() > 0 {
                out.append("  ");
                out.append(i18n::info_effect_label(language));
                out.append(":");
                out.append(short);
                out.append("(");
                append_decimal(&mut out, ticks as u64);
                out.append(")");
            }
        },
        _ => {},
    }
    out
}

/// A bordered panel: its top-left corner and its inner size.
#[derive(Clone, Copy, Debug, PartialEq, Eq, Structural)]
pub struct PanelBox {
    pub x: u16,
    pub y: u16,
    pub inner_width: u16,
    pub inner_height: u16,
}

/// Rows inside the game-over panel.
pub const GAME_OVER_ROWS: u16 = 5;

/// The game-over panel, centred on the board's interior: as wide as its
/// widest line plus padding and borders, at most the interior's width and
/// at least 10 columns.
pub open spec fn game_over_box_spec(layout: Layout, widest_line: u16) -> PanelBox {
    let interior_width = layout.map_width.saturating_sub(2);
    let interior_height = layout.map_height.saturating_sub(2);
    let wanted = widest_line.saturating_add(4);
    let capped = min_u16(wanted, interior_width);
    let width = max_u16(capped, 10);
    let height = GAME_OVER_ROWS + 2;
    PanelBox {
        x: layout.origin_x.saturating_add(1).saturating_add(
            (interior_width.saturating_sub(width) / 2) as u16,
        ),
        y: layout.origin_y.saturating_add(1).saturating_add(
            (interior_height.saturating_sub(height as u16) / 2) as u16,
        ),
        inner_width: (width - 2) as u16,
        inner_height: GAME_OVER_ROWS,
    }
}

/// Where the game-over panel goes for lines at most `widest_line` wide.
pub fn game_over_box(layout: &Layout, widest_line: u16) -> (r: PanelBox)
    ensures
        r == game_over_box_spec(*layout, widest_line),
{
    let interior_width = layout.map_width.saturating_sub(2);
    let interior_height = layout.map_height.saturating_sub(2);
    let wanted = widest_line.saturating_add(4);
    let capped = if wanted <= interior_width {
        wanted
    } else {
        interior_width
    };
    let width = if capped >= 10 {
        capped
    } else {
        10
    };
    let height: u16 = GAME_OVER_ROWS + 2;
    PanelBox {
        x: layout.origin_x.saturating_add(1).saturating_add(interior_width.saturating_sub(width) / 2),
        y: layout.origin_y.saturating_add(1).saturating_add(
            interior_height.saturating_sub(height) / 2,
        ),
        inner_width: width - 2,
        inner_height: GAME_OVER_ROWS,
    }
}

/// Columns of a menu row taken by the marker and the shortcut.
pub const OPTION_ROW_OVERHEAD: u16 = 6;

/// The narrowest menu panel, inside its border.
pub const MIN_PANEL_INNER_WIDTH: u16 = 32;

/// The logo at the top of every menu panel.
pub const MENU_LOGO: &'static str = "Rustnake";

/// Where the parts of a menu panel go.
#[derive(Clone, Copy, Debug, PartialEq, Eq, Structural)]
pub struct MenuPanel {
    pub panel: PanelBox,
    /// Width of a highlighted row.
    pub row_width: u16,
    /// Columns left for an option's label in a row.
    pub row_label_width: u16,
    /// Column of the first cell of each row.
    pub options_x: u16,
    /// Row of the first option.
    pub options_y: u16,
    /// The cells to clear around the panel.
    pub clear_region: Rect,
}

/// The widths that decide a menu panel's size.
#[derive(Clone, Copy, Debug, PartialEq, Eq, Structural)]
pub struct MenuWidths {
    pub logo: u16,
    pub title: u16,
    /// Width of the subtitle, if there is one.
    pub subtitle: Option<u16>,
    /// The wider of the two hint lines.
    pub footer: u16,
    /// The widest option label.
    pub widest_option: u16,
}

/// The menu panel, centred in the terminal: wide enough for the logo, the
/// title, the subtitle, the hints and the widest row (at least 32 columns),
/// at most the terminal's width; as tall as the logo, title, subtitle,
/// separators, blank lines, rows and hints.
pub open spec fn menu_panel_spec(
    term_width: u16,
    term_height: u16,
    w: MenuWidths,
    option_count: u16,
) -> MenuPanel {
    let max_inner = max_u16(term_width.saturating_sub(2), 1);
    let label_width = min_u16(w.widest_option, max_inner);
    let row_need = label_width.saturating_add(OPTION_ROW_OVERHEAD).saturating_add(2);
    let subtitle_width: u16 = match w.subtitle {
        Some(sw) => sw,
        None => 0,
    };
    let desired = max_u16(
        max_u16(max_u16(w.title, w.logo), max_u16(subtitle_width, w.footer)),
        max_u16(row_need, MIN_PANEL_INNER_WIDTH),
    );
    let inner_width = min_u16(desired, max_inner);
    let row_width = max_u16(inner_width.saturating_sub(2), 1);
    let row_label_width = max_u16(row_width.saturating_sub(OPTION_ROW_OVERHEAD), 1);
    let header: u16 = if w.subtitle is Some {
        3
    } else {
        2
    };
    let inner_height = ((header + 2) as u16).saturating_add(option_count).saturating_add(4);
    let width = inner_width.saturating_add(2);
    let height = inner_height.saturating_add(2);
    let x = (term_width.saturating_sub(width) / 2 + 1) as u16;
    let y = (term_height.saturating_sub(height) / 2 + 1) as u16;
    MenuPanel {
        panel: PanelBox { x, y, inner_width, inner_height },
        row_width,
        row_label_width,
        options_x: x.saturating_add(1).saturating_add(
            (inner_width.saturating_sub(row_width) / 2) as u16,
        ),
        options_y: y.saturating_add((header + 3) as u16),
        clear_region: Rect {
            start_x: max_u16(x.saturating_sub(2), 1),
            end_x: min_u16(x.saturating_add(width).saturating_add(1), max_u16(term_width, 1)),
            start_y: max_u16(y.saturating_sub(1), 1),
            end_y: min_u16(y.saturating_add(height).saturating_add(1), max_u16(term_height, 1)),
        },
    }
}

fn min16(a: u16, b: u16) -> (r: u16)
    ensures
        r == min_u16(a, b),
{
    if a <= b {
        a
    } else {
        b
    }
}

fn max16(a: u16, b: u16) -> (r: u16)
    ensures
        r == max_u16(a, b),
{
    if a >= b {
        a
    } else {
        b
    }
}

/// Places a menu panel with `option_count` rows in the terminal.
pub fn menu_panel(term_width: u16, term_height: u16, w: MenuWidths, option_count: u16) -> (r:
    MenuPanel)
    ensures
        r == menu_panel_spec(term_width, term_height, w, option_count),
{
    let max_inner = max16(term_width.saturating_sub(2), 1);
    let label_width = min16(w.widest_option, max_inner);
    let row_need = label_width.saturating_add(OPTION_ROW_OVERHEAD).saturating_add(2);
    let subtitle_width: u16 = match w.subtitle {
        Some(sw) => sw,
        None => 0,
    };
    let desired = max16(
        max16(max16(w.title, w.logo), max16(subtitle_width, w.footer)),
        max16(row_need, MIN_PANEL_INNER_WIDTH),
    );
    let inner_width = min16(desired, max_inner);
    let row_width = max16(inner_width.saturating_sub(2), 1);
    let row_label_width = max16(row_width.saturating_sub(OPTION_ROW_OVERHEAD), 1);
    let header: u16 = if w.subtitle.is_some() {
        3
    } else {
        2
    };
    let inner_height = (header + 2).saturating_add(option_count).saturating_add(4);
    let width = inner_width.saturating_add(2);
    let height = inner_height.saturating_add(2);
    let x = term_width.saturating_sub(width) / 2 + 1;
    let y = term_height.saturating_sub(height) / 2 + 1;
    MenuPanel {
        panel: PanelBox { x, y, inner_width, inner_height },
        row_width,
        row_label_width,
        options_x: x.saturating_add(1).saturating_add(inner_width.saturating_sub(row_width) / 2),
        options_y: y.saturating_add(header + 3),
        clear_region: Rect {
            start_x: max16(x.saturating_sub(2), 1),
            end_x: min16(x.saturating_add(width).saturating_add(1), max16(term_width, 1)),
            start_y: max16(y.saturating_sub(1), 1),
            end_y: min16(y.saturating_add(height).saturating_add(1), max16(term_height, 1)),
        },
    }
}

/// What a menu screen drew, but for its selected row: the part that, when
/// unchanged, lets a redraw touch only the rows whose selection moved.
pub struct MenuFrameKey {
    pub screen_tag: String,
    pub title: String,
    pub subtitle: Option<String>,
    pub options: Vec<String>,
    pub danger_option: Option<usize>,
    pub term_width: u16,
    pub term_height: u16,
    pub language: Language,
}

/// The texts of a frame key, compared by value.
pub open spec fn frame_key_view(k: &MenuFrameKey) -> (
    Seq<char>,
    Seq<char>,
    Option<Seq<char>>,
    Seq<Seq<char>>,
    Option<usize>,
    u16,
    u16,
    Language,
) {
    (
        k.screen_tag@,
        k.title@,
        match k.subtitle {
            Some(t) => Some(t@),
            None => None,
        },
        k.options@.map_values(|t: String| t@),
        k.danger_option,
        k.term_width,
        k.term_height,
        k.language,
    )
}

/// What the high-score table drew.
#[derive(Clone, Copy, Debug, PartialEq, Eq, Structural)]
pub struct HighScoresFrameKey {
    pub high_scores: crate::storage::HighScores,
    pub term_width: u16,
    pub term_height: u16,
    pub language: Language,
}

fn same_texts(a: &Vec<String>, b: &Vec<String>) -> (r: bool)
    ensures
        r == (a@.map_values(|t: String| t@) == b@.map_values(|t: String| t@)),
{
    if a.len() != b.len() {
        proof {
            assert(a@.map_values(|t: String| t@).len() != b@.map_values(|t: String| t@).len());
        }
        return false;
    }
    let mut i: usize = 0;
    while i < a.len()
        invariant
            a@.len() == b@.len(),
            0 <= i <= a@.len(),
            forall|j: int| 0 <= j < i ==> a@[j]@ == b@[j]@,
        decreases a@.len() - i,
    {
        if a[i] != b[i] {
            proof {
                let va = a@.map_values(|t: String| t@);
                let vb = b@.map_values(|t: String| t@);
                assert(va[i as int] != vb[i as int]);
            }
            return false;
        }
        i += 1;
    }
    assert(a@.map_values(|t: String| t@) =~= b@.map_values(|t: String| t@));
    true
}

fn same_subtitle(a: &Option<String>, b: &Option<String>) -> (r: bool)
    ensures
        r == ((match *a {
            Some(t) => Some(t@),
            None => None::<Seq<char>>,
        }) == (match *b {
            Some(t) => Some(t@),
            None => None::<Seq<char>>,
        })),
{
    match (a, b) {
        (Some(x), Some(y)) => x.eq(y),
        (None, None) => true,
        _ => false,
    }
}

fn same_frame_key(a: &MenuFrameKey, b: &MenuFrameKey) -> (r: bool)
    ensures
        r == (frame_key_view(a) == frame_key_view(b)),
{
    a.screen_tag == b.screen_tag && a.title == b.title && same_subtitle(&a.subtitle, &b.subtitle)
        && same_texts(&a.options, &b.options) && a.danger_option == b.danger_option
        && a.term_width == b.term_width && a.term_height == b.term_height && a.language
        == b.language
}

/// The frames that the menu renderer drew last, owned by the renderer, so
/// that a redraw of an unchanged screen repaints only the rows whose
/// selection changed.
pub struct MenuFrameCache {
    pub menu_key: Option<MenuFrameKey>,
    pub selected_option: Option<usize>,
    pub high_scores_key: Option<HighScoresFrameKey>,
}

impl MenuFrameCache {
    pub fn new() -> (r: MenuFrameCache)
        ensures
            r.menu_key is None,
            r.selected_option is None,
            r.high_scores_key is None,
    {
        MenuFrameCache { menu_key: None, selected_option: None, high_scores_key: None }
    }

    /// Records that a menu screen is drawn with `selected_option`. Returns
    /// whether the screen must be drawn in full (it differs from the last
    /// one drawn), and otherwise the row that was selected before.
    pub fn menu_redraw_state(&mut self, key: MenuFrameKey, selected_option: usize) -> (r: (
        bool,
        Option<usize>,
    ))
        ensures
            r.0 == !(old(self).menu_key matches Some(k) && frame_key_view(&k) == frame_key_view(
                &key,
            )),
            r.1 == if r.0 {
                None
            } else {
                old(self).selected_option
            },
            final(self).menu_key matches Some(k) && frame_key_view(&k) == frame_key_view(&key),
            final(self).selected_option == Some(selected_option),
            final(self).high_scores_key is None,
    {
        let unchanged = match &self.menu_key {
            Some(k) => same_frame_key(k, &key),
            None => false,
        };
        let previous = if unchanged {
            self.selected_option
        } else {
            None
        };
        if !unchanged {
            self.menu_key = Some(key);
        }
        self.selected_option = Some(selected_option);
        self.high_scores_key = None;
        (!unchanged, previous)
    }

    /// Records that the high-score table is drawn. Returns whether the same
    /// table is already on screen, in which case nothing needs drawing.
    pub fn begin_high_scores_draw(&mut self, key: HighScoresFrameKey) -> (r: bool)
        ensures
            r == (old(self).high_scores_key == Some(key)),
            final(self).high_scores_key == Some(key),
            !r ==> final(self).menu_key is None && final(self).selected_option is None,
    {
        if self.high_scores_key == Some(key) {
            return true;
        }
        self.high_scores_key = Some(key);
        self.menu_key = None;
        self.selected_option = None;
        false
    }

    /// Forgets every frame, as when the screen is cleared.
    pub fn invalidate(&mut self)
        ensures
            final(self).menu_key is None,
            final(self).selected_option is None,
            final(self).high_scores_key is None,
    {
        self.menu_key = None;
        self.selected_option = None;
        self.high_scores_key = None;
    }
}

/// The line of the size warning: the terminal's size and the least size
/// it needs, as `label: WxH  label: WxH`.
pub open spec fn size_line_spec(l: Language, check: SizeCheck) -> Seq<char> {
    i18n::small_window_current_label_spec(l) + ": "@ + decimal_spec(check.current_width as nat)
        + "x"@ + decimal_spec(check.current_height as nat) + "  "@
        + i18n::small_window_minimum_label_spec(l) + ": "@ + decimal_spec(
        check.minimum.width as nat,
    ) + "x"@ + decimal_spec(check.minimum.height as nat)
}

pub fn size_warning_line(check: SizeCheck, language: Language) -> (r: String)
    ensures
        r@ == size_line_spec(language, check),
{
    let mut out = String::from_str(i18n::small_window_current_label(language));
    out.append(": ");
    append_decimal(&mut out, check.current_width as u64);
    out.append("x");
    append_decimal(&mut out, check.current_height as u64);
    out.append("  ");
    out.append(i18n::small_window_minimum_label(language));
    out.append(": ");
    append_decimal(&mut out, check.minimum.width as u64);
    out.append("x");
    append_decimal(&mut out, check.minimum.height as u64);
    out
}

/// `label: value` with a number for the value.
pub open spec fn score_line_spec(label: Seq<char>, score: u32) -> Seq<char> {
    label + ": "@ + decimal_spec(score as nat)
}

fn score_line(label: &str, score: u32) -> (r: String)
    ensures
        r@ == score_line_spec(label@, score),
{
    let mut out = String::from_str(label);
    out.append(": ");
    append_decimal(&mut out, score as u64);
    out
}

/// The final score, as the game-over panel shows it.
pub fn game_over_score_line(score: u32, language: Language) -> (r: String)
    ensures
        r@ == score_line_spec(i18n::status_score_label_spec(language), score),
{
    score_line(i18n::status_score_label(language), score)
}

/// The rows of the high-score table, easiest tier first.
pub fn high_score_rows(scores: &crate::storage::HighScores, language: Language) -> (r: Vec<String>)
    ensures
        r@.len() == 4,
        r@[0]@ == score_line_spec(i18n::difficulty_label_spec(language, Difficulty::Easy), scores.easy),
        r@[1]@ == score_line_spec(
            i18n::difficulty_label_spec(language, Difficulty::Medium),
            scores.medium,
        ),
        r@[2]@ == score_line_spec(i18n::difficulty_label_spec(language, Difficulty::Hard), scores.hard),
        r@[3]@ == score_line_spec(
            i18n::difficulty_label_spec(language, Difficulty::Extreme),
            scores.extreme,
        ),
{
    let mut rows: Vec<String> = Vec::new();
    rows.push(score_line(i18n::difficulty_label(language, Difficulty::Easy), scores.easy));
    rows.push(score_line(i18n::difficulty_label(language, Difficulty::Medium), scores.medium));
    rows.push(score_line(i18n::difficulty_label(language, Difficulty::Hard), scores.hard));
    rows.push(score_line(i18n::difficulty_label(language, Difficulty::Extreme), scores.extreme));
    rows
}

} // verus!
