//! The persisted record: high scores per difficulty and the settings, with
//! the migration of older file versions.

use crate::utils::{Difficulty, Language};
use vstd::prelude::*;

verus! {

/// The version that files are written in.
pub const CURRENT_CONFIG_VERSION: u32 = 1;

/// Files larger than this are ignored.
pub const MAX_CONFIG_BYTES: u64 = 65536;

#[derive(Debug, Clone, Copy, PartialEq, Eq, Structural)]
pub struct HighScores {
    pub easy: u32,
    pub medium: u32,
    pub hard: u32,
    pub extreme: u32,
}

impl HighScores {
    /// The score recorded for `difficulty`.
    pub open spec fn score_for(&self, difficulty: Difficulty) -> u32 {
        match difficulty {
            Difficulty::Easy => self.easy,
            Difficulty::Medium => self.medium,
            Difficulty::Hard => self.hard,
            Difficulty::Extreme => self.extreme,
        }
    }

    pub fn get(&self, difficulty: Difficulty) -> (r: u32)
        ensures
            r == self.score_for(difficulty),
    {
        match difficulty {
            Difficulty::Easy => self.easy,
            Difficulty::Medium => self.medium,
            Difficulty::Hard => self.hard,
            Difficulty::Extreme => self.extreme,
        }
    }

    /// Records `score` for `difficulty`; the other tiers keep theirs.
    pub fn set(&mut self, difficulty: Difficulty, score: u32)
        ensures
            final(self).score_for(difficulty) == score,
            forall|d: Difficulty|
                d != difficulty ==> #[trigger] final(self).score_for(d) == old(self).score_for(d),
    {
        match difficulty {
            Difficulty::Easy => self.easy = score,
            Difficulty::Medium => self.medium = score,
            Difficulty::Hard => self.hard = score,
            Difficulty::Extreme => self.extreme = score,
        }
    }

    /// Records `score` for `difficulty` when it beats the score there;
    /// returns whether it did.
    pub fn record(&mut self, difficulty: Difficulty, score: u32) -> (r: bool)
        ensures
            r == (score > old(self).score_for(difficulty)),
            final(self).score_for(difficulty) == if r {
                score
            } else {
                old(self).score_for(difficulty)
            },
            forall|d: Difficulty|
                d != difficulty ==> #[trigger] final(self).score_for(d) == old(self).score_for(d),
    {
        if score > self.get(difficulty) {
            self.set(difficulty, score);
            true
        } else {
            false
        }
    }

    /// The same score for every tier.
    pub fn uniform(score: u32) -> (r: HighScores)
        ensures
            r == (HighScores { easy: score, medium: score, hard: score, extreme: score }),
    {
        HighScores { easy: score, medium: score, hard: score, extreme: score }
    }

    /// Every tier is still at zero.
    pub fn is_empty(&self) -> (r: bool)
        ensures
            r == (*self == HighScores::zero()),
    {
        self.easy == 0 && self.medium == 0 && self.hard == 0 && self.extreme == 0
    }

    pub open spec fn zero() -> HighScores {
        HighScores { easy: 0, medium: 0, hard: 0, extreme: 0 }
    }
}

impl Default for HighScores {
    fn default() -> (r: HighScores)
        ensures
            r == HighScores::zero(),
    {
        HighScores { easy: 0, medium: 0, hard: 0, extreme: 0 }
    }
}

#[derive(Debug, Clone, Copy, PartialEq, Eq, Structural)]
pub struct Settings {
    pub language: Language,
    pub pause_on_focus_loss: bool,
    pub sound_on: bool,
    pub default_difficulty: Difficulty,
}

impl Settings {
    pub open spec fn defaults() -> Settings {
        Settings {
            language: Language::En,
            pause_on_focus_loss: true,
            sound_on: true,
            default_difficulty: Difficulty::Medium,
        }
    }
}

impl Default for Settings {
    fn default() -> (r: Settings)
        ensures
            r == Settings::defaults(),
    {
        Settings {
            language: Language::En,
            pause_on_focus_loss: true,
            sound_on: true,
            default_difficulty: Difficulty::Medium,
        }
    }
}

#[derive(Debug, Clone, Copy, PartialEq, Eq, Structural)]
pub struct AppConfig {
    pub high_scores: HighScores,
    pub settings: Settings,
}

impl Default for AppConfig {
    fn default() -> (r: AppConfig)
        ensures
            r == (AppConfig { high_scores: HighScores::zero(), settings: Settings::defaults() }),
    {
        AppConfig { high_scores: HighScores::default(), settings: Settings::default() }
    }
}

/// A file as read, of any version: absent fields already hold their
/// defaults. `high_score` is the single score of the oldest files.
#[derive(Debug, Clone, Copy, PartialEq, Eq, Structural)]
pub struct RawConfig {
    pub config_version: Option<u32>,
    pub high_scores: HighScores,
    pub settings: Settings,
    pub high_score: Option<u32>,
}

/// The record that a file holds, and whether it must be rewritten in the
/// current version.
pub open spec fn migrate_spec(raw: RawConfig) -> (AppConfig, bool) {
    let version: u32 = match raw.config_version {
        Some(v) => v,
        None => 0,
    };
    let high_scores = if version == 0 && raw.high_scores == HighScores::zero() {
        match raw.high_score {
            Some(s) => HighScores { easy: s, medium: s, hard: s, extreme: s },
            None => HighScores::zero(),
        }
    } else {
        raw.high_scores
    };
    (AppConfig { high_scores, settings: raw.settings }, version < CURRENT_CONFIG_VERSION)
}

/// Brings a file of any version to the current record. An unversioned file
/// without per-tier scores takes its single legacy score for every tier.
/// The flag says whether the file is older than the current version.
pub fn migrate_config(raw: RawConfig) -> (r: (AppConfig, bool))
    ensures
        r == migrate_spec(raw),
{
    let version: u32 = match raw.config_version {
        Some(v) => v,
        None => 0,
    };
    let high_scores = if version == 0 && raw.high_scores.is_empty() {
        match raw.high_score {
            Some(score) => HighScores::uniform(score),
            None => HighScores::default(),
        }
    } else {
        raw.high_scores
    };
    (AppConfig { high_scores, settings: raw.settings }, version < CURRENT_CONFIG_VERSION)
}

/// Whether a file of `len` bytes is small enough to be read.
pub fn config_size_acceptable(len: u64) -> (r: bool)
    ensures
        r == (len <= MAX_CONFIG_BYTES),
{
    len <= MAX_CONFIG_BYTES
}

} // verus!
