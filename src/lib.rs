//! Finds, in a video player's script bundle, the pieces of code that undo the
//! obfuscation of media-access tokens, and keeps them in a player cache.
pub mod text;
pub mod matcher;
pub mod patterns;
pub mod extract;
pub mod player;
pub mod laws;

pub use extract::{extract_player_data, PlayerData};
pub use patterns::PatternLibrary;
pub use player::{
    apply_update, check_freshness, FetchUpdateStatus, Freshness, PlayerInfo, PlayerState,
    UpdateConfig,
};
