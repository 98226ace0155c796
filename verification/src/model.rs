//! The player profile and the envelope the upstream service wraps it in.
//!
//! Every field but a player's UUID may be missing: a missing field was not
//! asked for or does not apply. Profiles are built once and never changed.

use vstd::prelude::*;

verus! {

/// The decoded upstream response.
#[derive(Clone, Debug, PartialEq)]
pub struct ApiResponse {
    /// The payload; missing when the upstream service answered with an error.
    pub data: Option<ApiResponseData>,
}

/// The payload of an upstream response. A query by username fills
/// `player_by_username`, a query by UUID fills `player`.
#[derive(Clone, Debug, PartialEq)]
pub struct ApiResponseData {
    pub player_by_username: Option<Player>,
    pub player: Option<Player>,
    pub message: Option<String>,
    pub request_id: Option<String>,
}

/// A player profile.
#[derive(Clone, Debug, PartialEq)]
pub struct Player {
    pub uuid: String,
    pub username: Option<String>,
    pub ranks: Vec<Rank>,
    pub crown_level: CrownLevel,
    pub status: Option<Status>,
    pub collections: Option<Collections>,
    pub social: Option<Social>,
}

#[derive(Clone, Copy, Debug, PartialEq, Eq, Structural)]
pub enum Rank {
    Champ,
    GrandChamp,
    GrandChampRoyale,
    Creator,
    Contestant,
    Moderator,
    Noxcrew,
}

/// Progression of a player.
#[derive(Clone, Debug, PartialEq)]
pub struct CrownLevel {
    pub level: u32,
    pub next_evolution_level: Option<u32>,
    pub next_level_progress: Option<ProgressionData>,
    pub trophies: TrophyData,
}

#[derive(Clone, Copy, Debug, PartialEq, Eq, Structural)]
pub struct ProgressionData {
    pub obtained: u32,
    pub obtainable: u32,
}

#[derive(Clone, Copy, Debug, PartialEq, Eq, Structural)]
pub struct TrophyData {
    pub obtained: u32,
    pub obtainable: u32,
    pub bonus: u32,
}

/// A point in time: whole seconds since the Unix epoch, and the nanoseconds
/// past that second.
#[derive(Clone, Copy, Debug, PartialEq, Eq, Structural)]
pub struct Timestamp {
    pub seconds: i64,
    pub nanos: u32,
}

/// Presence of a player.
#[derive(Clone, Debug, PartialEq)]
pub struct Status {
    pub online: bool,
    pub server: Option<Server>,
    pub first_join: Option<Timestamp>,
    pub last_join: Option<Timestamp>,
}

/// The server a player is on.
#[derive(Clone, Debug, PartialEq)]
pub struct Server {
    pub category: ServerCategory,
    pub sub_type: String,
    pub associated_game: Option<Game>,
}

#[derive(Clone, Copy, Debug, PartialEq, Eq, Structural)]
pub enum ServerCategory {
    Lobby,
    Game,
    Limbo,
    Queue,
}

#[derive(Clone, Copy, Debug, PartialEq, Eq, Structural)]
pub enum Game {
    HoleInTheWall,
    Tgttos,
    BattleBox,
    SkyBattle,
    ParkourWarrior,
    Dynaball,
    RocketSpleef,
}

#[derive(Clone, Debug, PartialEq)]
pub struct Collections {
    pub currency: Currency,
}

/// Currency balances, each counted on its own.
#[derive(Clone, Copy, Debug, PartialEq, Eq, Structural)]
pub struct Currency {
    pub coins: u32,
    pub gems: u32,
    pub royal_reputation: u32,
    pub silver: u32,
    pub material_dust: u32,
}

#[derive(Clone, Debug, PartialEq)]
pub struct Social {
    pub friends: Vec<MinimalPlayer>,
    pub party: Party,
}

#[derive(Clone, Debug, PartialEq)]
pub struct Party {
    pub active: bool,
    pub leader: Option<MinimalPlayer>,
    pub members: Option<Vec<MinimalPlayer>>,
}

/// A reference to another player, as it appears among friends and party
/// members.
#[derive(Clone, Debug, PartialEq)]
pub struct MinimalPlayer {
    pub uuid: String,
    pub username: Option<String>,
}

} // verus!
