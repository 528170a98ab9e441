//! Run repository for a speedrun leaderboard: the track hierarchy, run
//! records, the hierarchical decoder that flattens nested submission
//! documents into per-track runs, and the deterministic ranker that turns
//! the flat collection into an ordered leaderboard.

pub mod decode;
mod decode_exec;
pub mod document;
pub mod gamedata;
pub mod laws;
pub mod loader;
pub mod rank;
pub mod text;

pub use decode::LoadError;
pub use gamedata::Category;
pub use gamedata::Difficulty;
pub use gamedata::Run;
pub use gamedata::Track;
pub use loader::load_runs;
pub use loader::parse_toml;
pub use rank::RankError;
pub use rank::rank;
pub use rank::track_options;
pub use text::format_igt;
