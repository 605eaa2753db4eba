//! Where the board and the HUD stand in the terminal, and the smallest
//! terminal that fits them.

use crate::i18n::{minimum_ui_width, minimum_ui_width_spec};
use crate::utils::Language;
use vstd::prelude::*;

verus! {

/// Rows below the board taken by the HUD.
pub const HUD_BOTTOM_PADDING: u16 = 5;

/// The board's place in the terminal; coordinates are 1-based.
#[derive(Clone, Copy, Debug, PartialEq, Eq, Structural)]
pub struct Layout {
    pub term_width: u16,
    pub term_height: u16,
    pub map_width: u16,
    pub map_height: u16,
    pub origin_x: u16,
    pub origin_y: u16,
}

#[derive(Clone, Copy, Debug, PartialEq, Eq, Structural)]
pub struct MinSize {
    pub width: u16,
    pub height: u16,
}

/// A terminal too small for the board: its size and the least it needs.
#[derive(Clone, Copy, Debug, PartialEq, Eq, Structural)]
pub struct SizeCheck {
    pub current_width: u16,
    pub current_height: u16,
    pub minimum: MinSize,
}

/// The least terminal size for a board of `map_width` by `map_height` and
/// text that needs `ui_width` columns.
pub open spec fn min_size_spec(map_width: u16, map_height: u16, ui_width: u16) -> MinSize {
    MinSize {
        width: if map_width >= ui_width {
            map_width
        } else {
            ui_width
        },
        height: map_height.saturating_add(HUD_BOTTOM_PADDING),
    }
}

/// The layout, or the size check that fails, for a terminal of
/// `term_width` by `term_height`.
pub open spec fn layout_spec(
    term_width: u16,
    term_height: u16,
    map_width: u16,
    map_height: u16,
    ui_width: u16,
) -> Result<Layout, SizeCheck> {
    let minimum = min_size_spec(map_width, map_height, ui_width);
    if term_width < minimum.width || term_height < minimum.height {
        Err(SizeCheck { current_width: term_width, current_height: term_height, minimum })
    } else {
        Ok(
            Layout {
                term_width,
                term_height,
                map_width,
                map_height,
                origin_x: ((term_width - map_width) / 2 + 1) as u16,
                origin_y: ((term_height - minimum.height) / 2 + 1) as u16,
            },
        )
    }
}

impl Layout {
    /// The board and the HUD below it lie inside the terminal.
    pub open spec fn wf(&self) -> bool {
        &&& 1 <= self.origin_x
        &&& 1 <= self.origin_y
        &&& self.origin_x + self.map_width <= self.term_width + 1
        &&& self.origin_y + self.map_height <= self.term_height + 1
    }

    /// The terminal column of the board's right edge.
    pub fn map_right(&self) -> (r: u16)
        requires
            self.wf(),
        ensures
            r == self.origin_x + self.map_width - 1,
    {
        (self.origin_x - 1) + self.map_width
    }

    /// The terminal row of the board's bottom edge.
    pub fn map_bottom(&self) -> (r: u16)
        requires
            self.wf(),
        ensures
            r == self.origin_y + self.map_height - 1,
    {
        (self.origin_y - 1) + self.map_height
    }

    /// The terminal cell of board cell (x, y).
    pub fn board_to_screen(&self, x: u16, y: u16) -> (r: (u16, u16))
        requires
            1 <= x,
            1 <= y,
            self.origin_x + x - 1 <= u16::MAX,
            self.origin_y + y - 1 <= u16::MAX,
        ensures
            r.0 == self.origin_x + x - 1,
            r.1 == self.origin_y + y - 1,
    {
        (self.origin_x + (x - 1), self.origin_y + (y - 1))
    }

    pub fn hud_score_y(&self) -> (r: u16)
        requires
            self.wf(),
        ensures
            r == ((self.origin_y + self.map_height - 1) as u16).saturating_add(2),
    {
        self.map_bottom().saturating_add(2)
    }

    pub fn hud_info_y(&self) -> (r: u16)
        requires
            self.wf(),
        ensures
            r == ((self.origin_y + self.map_height - 1) as u16).saturating_add(3),
    {
        self.map_bottom().saturating_add(3)
    }

    pub fn hud_controls_y(&self) -> (r: u16)
        requires
            self.wf(),
        ensures
            r == ((self.origin_y + self.map_height - 1) as u16).saturating_add(HUD_BOTTOM_PADDING),
    {
        self.map_bottom().saturating_add(HUD_BOTTOM_PADDING)
    }
}

/// The least terminal size: the wider of the board and `ui_width`, and the
/// board's height plus the HUD.
pub fn min_terminal_size_for(map_width: u16, map_height: u16, ui_width: u16) -> (r: MinSize)
    ensures
        r == min_size_spec(map_width, map_height, ui_width),
{
    let width = if map_width >= ui_width {
        map_width
    } else {
        ui_width
    };
    MinSize { width, height: map_height.saturating_add(HUD_BOTTOM_PADDING) }
}

/// The least terminal size for the board and every text of `language`.
/// The width covers the localized control hint and, deliberately, every
/// other title, hint and menu option of the language too, so that the
/// menus fit wherever the board does.
pub fn min_terminal_size(map_width: u16, map_height: u16, language: Language) -> (r: MinSize)
    ensures
        r == min_size_spec(map_width, map_height, minimum_ui_width_spec(language)),
{
    min_terminal_size_for(map_width, map_height, minimum_ui_width(language))
}

/// Centres the board and the HUD in the terminal, or reports the size it
/// lacks, for text that needs `ui_width` columns.
pub fn compute_layout_for(
    term_width: u16,
    term_height: u16,
    map_width: u16,
    map_height: u16,
    ui_width: u16,
) -> (r: Result<Layout, SizeCheck>)
    ensures
        r == layout_spec(term_width, term_height, map_width, map_height, ui_width),
        r matches Ok(l) ==> l.wf(),
{
    let minimum = min_terminal_size_for(map_width, map_height, ui_width);
    if term_width < minimum.width || term_height < minimum.height {
        return Err(SizeCheck { current_width: term_width, current_height: term_height, minimum });
    }
    let origin_x = (term_width - map_width) / 2 + 1;
    let origin_y = (term_height - minimum.height) / 2 + 1;
    Ok(Layout { term_width, term_height, map_width, map_height, origin_x, origin_y })
}

/// Centres the board and the HUD in the terminal, or reports the size it
/// lacks, for the texts of `language`: the width needed is the wider of
/// the board and the widest line of the language's UI (control hint,
/// titles, other hints and menu options).
pub fn compute_layout(
    term_width: u16,
    term_height: u16,
    map_width: u16,
    map_height: u16,
    language: Language,
) -> (r: Result<Layout, SizeCheck>)
    ensures
        r == layout_spec(
            term_width,
            term_height,
            map_width,
            map_height,
            minimum_ui_width_spec(language),
        ),
        r matches Ok(l) ==> l.wf(),
{
    compute_layout_for(term_width, term_height, map_width, map_height, minimum_ui_width(language))
}

} // verus!
