//! Common types shared by the engine, the layout rules and the menus.

use vstd::prelude::*;

verus! {

/// Default board width, border included.
pub const WIDTH: u16 = 40;

/// Default board height, border included.
pub const HEIGHT: u16 = 20;

#[derive(Debug, Clone, Copy, PartialEq, Eq, Structural)]
pub enum Difficulty {
    Easy,
    Medium,
    Hard,
    Extreme,
}

/// Position of a tier in the order Easy < Medium < Hard < Extreme.
pub open spec fn difficulty_rank(d: Difficulty) -> int {
    match d {
        Difficulty::Easy => 0,
        Difficulty::Medium => 1,
        Difficulty::Hard => 2,
        Difficulty::Extreme => 3,
    }
}

#[derive(Debug, Clone, Copy, PartialEq, Eq, Structural)]
pub enum Language {
    En,
    Es,
    Ja,
    Pt,
    Zh,
}

/// The languages in menu order.
pub open spec fn language_at(index: int) -> Language {
    if index == 1 {
        Language::Es
    } else if index == 2 {
        Language::Ja
    } else if index == 3 {
        Language::Pt
    } else if index == 4 {
        Language::Zh
    } else {
        Language::En
    }
}

impl Language {
    /// Number of supported languages.
    pub const COUNT: usize = 5;

    pub fn to_index(self) -> (r: usize)
        ensures
            r < Language::COUNT,
            language_at(r as int) == self,
    {
        match self {
            Language::En => 0,
            Language::Es => 1,
            Language::Ja => 2,
            Language::Pt => 3,
            Language::Zh => 4,
        }
    }

    /// The language at `index` in menu order; English for an index past the end.
    pub fn from_index(index: usize) -> (r: Language)
        ensures
            r == language_at(index as int),
    {
        match index {
            0 => Language::En,
            1 => Language::Es,
            2 => Language::Ja,
            3 => Language::Pt,
            4 => Language::Zh,
            _ => Language::En,
        }
    }

    /// Two-letter upper-case code of the language.
    pub fn code(self) -> (r: &'static str)
        ensures
            self == Language::En ==> r@ == "EN"@,
            self == Language::Es ==> r@ == "ES"@,
            self == Language::Ja ==> r@ == "JA"@,
            self == Language::Pt ==> r@ == "PT"@,
            self == Language::Zh ==> r@ == "ZH"@,
    {
        match self {
            Language::En => "EN",
            Language::Es => "ES",
            Language::Ja => "JA",
            Language::Pt => "PT",
            Language::Zh => "ZH",
        }
    }

    /// All languages in menu order.
    pub fn all() -> (r: Vec<Language>)
        ensures
            r@.len() == Language::COUNT,
            forall|i: int| 0 <= i < r@.len() ==> #[trigger] r@[i] == language_at(i),
    {
        let r = vec![Language::En, Language::Es, Language::Ja, Language::Pt, Language::Zh];
        assert(r@[0] == language_at(0));
        r
    }
}

impl Default for Language {
    fn default() -> (r: Language)
        ensures
            r == Language::En,
    {
        Language::En
    }
}

#[derive(Debug, Clone, Copy, PartialEq, Eq, Structural)]
pub enum Direction {
    Up,
    Down,
    Left,
    Right,
}

/// `b` points the exact opposite way from `a`.
pub open spec fn is_opposite(a: Direction, b: Direction) -> bool {
    match (a, b) {
        (Direction::Up, Direction::Down) => true,
        (Direction::Down, Direction::Up) => true,
        (Direction::Left, Direction::Right) => true,
        (Direction::Right, Direction::Left) => true,
        _ => false,
    }
}

/// A grid cell; the playable interior starts at 2 on each axis, inside a
/// one-cell border.
#[derive(Debug, Clone, Copy, PartialEq, Eq, Hash, Structural)]
pub struct Position {
    pub x: u16,
    pub y: u16,
}

#[derive(Debug, Clone, Copy, PartialEq, Eq, Structural)]
pub enum PowerUpType {
    SpeedBoost,
    SlowDown,
    ExtraPoints,
    Grow,
    Shrink,
}

#[derive(Debug, Clone, Copy, PartialEq, Eq, Structural)]
pub struct PowerUp {
    pub position: Position,
    pub power_up_type: PowerUpType,
    pub active: bool,
}

} // verus!
