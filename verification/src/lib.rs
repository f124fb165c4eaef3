//! Difficulty and performance evaluation for rhythm-game beatmaps.
//!
//! The crate models the integer core of the evaluator: game modes and
//! their conversion rules, the modifier bitset, beatmap attributes in
//! exact fixed-point arithmetic, score states, and the synthesis of
//! hitresults from an accuracy target.

pub mod attributes;
pub mod beatmap;
pub mod converted;
pub mod difficulty;
pub mod gradual;
pub mod map_attrs;
pub mod math;
pub mod mode;
pub mod mods;
pub mod performance;
pub mod score_state;

pub use attributes::OsuDifficultyAttributes;
pub use beatmap::BeatmapData;
pub use converted::{CatchBeatmap, Converted, ManiaBeatmap, OsuBeatmap, TaikoBeatmap};
pub use difficulty::ModeDifficulty;
pub use gradual::GradualCursor;
pub use map_attrs::{BeatmapAttributes, BeatmapAttributesBuilder, HitWindows};
pub use mode::{Catch, ConvertStatus, GameMode, IGameMode, Mania, Osu, Taiko};
pub use mods::Mods;
pub use performance::{Accuracy, HitResultPriority, OsuPerformance};
pub use score_state::OsuScoreState;
