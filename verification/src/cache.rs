//! How the cache of profiles is to be set up.
//!
//! The cache itself belongs to the caller: any store that bounds its size
//! and the age of its entries will do. The keys are lookup keys as given,
//! the values the profiles that [`crate::lookup::CacheWrite`] hands out.
//! An entry weighs what [`weigh`] says: an estimate of the bytes it holds.

use vstd::prelude::*;
use vstd::string::StringSliceAdditionalSpecFns;
use vstd::utf8::encode_utf8;
use crate::model::{CrownLevel, MinimalPlayer, Party, Player, Server, Social, Status};

verus! {

/// The default bound on what the cache holds: 64 MiB.
pub const DEFAULT_MAX_CAPACITY: u64 = 64 * 1024 * 1024;

/// The default life of an entry, counted from its insertion: five minutes.
pub const DEFAULT_TIME_TO_LIVE_SECS: u64 = 5 * 60;

/// The bounds of the cache.
#[derive(Clone, Copy, Debug, PartialEq, Eq, Structural)]
pub struct CachePolicy {
    /// The most that the entries together may weigh.
    pub max_capacity: u64,
    /// The seconds after its insertion at which an entry is no longer
    /// handed out.
    pub time_to_live_secs: u64,
}

impl Default for CachePolicy {
    fn default() -> (policy: CachePolicy)
        ensures
            policy.max_capacity == DEFAULT_MAX_CAPACITY,
            policy.time_to_live_secs == DEFAULT_TIME_TO_LIVE_SECS,
    {
        CachePolicy {
            max_capacity: DEFAULT_MAX_CAPACITY,
            time_to_live_secs: DEFAULT_TIME_TO_LIVE_SECS,
        }
    }
}

/// Bytes counted for a number.
pub const NUMBER_SIZE: u32 = 4;

/// Bytes counted for a flag or a tag.
pub const TAG_SIZE: u32 = 1;

/// Bytes counted for a point in time.
pub const TIMESTAMP_SIZE: u32 = 12;

/// The bytes of the text `s` in UTF-8.
pub open spec fn text_size(s: Seq<char>) -> nat {
    encode_utf8(s).len()
}

/// The bytes of a text that may be missing.
pub open spec fn optional_text_size(s: Option<String>) -> nat {
    match s {
        None => 0,
        Some(s) => text_size(s@),
    }
}

/// `size` where the value is there, nothing where it is missing.
pub open spec fn if_some<T>(value: Option<T>, size: nat) -> nat {
    if value is Some {
        size
    } else {
        0
    }
}

/// The bytes of the texts of a reference to a player.
pub open spec fn minimal_player_size(p: MinimalPlayer) -> nat {
    text_size(p.uuid@) + optional_text_size(p.username)
}

/// The sizes of `players` added up.
pub open spec fn minimal_players_size(players: Seq<MinimalPlayer>) -> nat
    decreases players.len(),
{
    if players.len() == 0 {
        0
    } else {
        minimal_players_size(players.drop_last()) + minimal_player_size(players.last())
    }
}

/// The size of a party's leader, if it has one.
pub open spec fn leader_size(leader: Option<MinimalPlayer>) -> nat {
    match leader {
        None => 0,
        Some(leader) => minimal_player_size(leader),
    }
}

/// The sizes of a party's members, if they are listed.
pub open spec fn members_size(members: Option<Vec<MinimalPlayer>>) -> nat {
    match members {
        None => 0,
        Some(members) => minimal_players_size(members@),
    }
}

/// One flag, the leader and the members.
pub open spec fn party_size(p: Party) -> nat {
    TAG_SIZE as nat + leader_size(p.leader) + members_size(p.members)
}

/// The friends and the party.
pub open spec fn social_size(s: Social) -> nat {
    minimal_players_size(s.friends@) + party_size(s.party)
}

/// The category, the text of the sub-type and the game, if there is one.
pub open spec fn server_size(s: Server) -> nat {
    TAG_SIZE as nat + text_size(s.sub_type@) + if_some(s.associated_game, TAG_SIZE as nat)
}

/// The size of the server, if the player is on one.
pub open spec fn optional_server_size(server: Option<Server>) -> nat {
    match server {
        None => 0,
        Some(server) => server_size(server),
    }
}

/// One flag, the server and the two points in time.
pub open spec fn status_size(s: Status) -> nat {
    TAG_SIZE as nat + optional_server_size(s.server) + if_some(s.first_join, TIMESTAMP_SIZE as nat)
        + if_some(s.last_join, TIMESTAMP_SIZE as nat)
}

/// The size of the status, if the profile has one.
pub open spec fn optional_status_size(status: Option<Status>) -> nat {
    match status {
        None => 0,
        Some(status) => status_size(status),
    }
}

/// The size of the social data, if the profile has them.
pub open spec fn optional_social_size(social: Option<Social>) -> nat {
    match social {
        None => 0,
        Some(social) => social_size(social),
    }
}

/// The level, the three trophy counters, and what there is of the next
/// level and the progress towards it.
pub open spec fn crown_level_size(c: CrownLevel) -> nat {
    NUMBER_SIZE as nat + if_some(c.next_evolution_level, NUMBER_SIZE as nat) + if_some(
        c.next_level_progress,
        2 * NUMBER_SIZE as nat,
    ) + 3 * NUMBER_SIZE as nat
}

/// The estimate of the bytes that a profile holds: the bytes of its texts,
/// four for each number, one for each flag, rank or other tag, twelve for
/// each point in time, five numbers for the currencies. What is missing
/// counts nothing.
pub open spec fn player_size(p: Player) -> nat {
    text_size(p.uuid@) + optional_text_size(p.username) + p.ranks@.len() * TAG_SIZE as nat
        + crown_level_size(p.crown_level) + optional_status_size(p.status) + if_some(
        p.collections,
        5 * NUMBER_SIZE as nat,
    ) + optional_social_size(p.social)
}

/// `size` as a weight: weights end at `u32::MAX`.
pub open spec fn capped(size: nat) -> u32 {
    if size >= u32::MAX {
        u32::MAX
    } else {
        size as u32
    }
}

/// The weight of the cache entry that holds `profile` under `key`: the
/// bytes of the key and the estimate for the profile.
pub open spec fn entry_weight(key: Seq<char>, profile: Player) -> u32 {
    capped(text_size(key) + player_size(profile))
}

/// Adds `more` to a capped size. `a` is the size before the cap.
fn add_capped(sum: u32, more: usize, Ghost(a): Ghost<nat>) -> (r: u32)
    requires
        sum == capped(a),
    ensures
        r == capped(a + more as nat),
{
    let room: u32 = u32::MAX - sum;
    if more >= room as usize {
        u32::MAX
    } else {
        sum + more as u32
    }
}

/// Adds the bytes of `s` to a capped size.
fn add_text(sum: u32, s: &str, Ghost(a): Ghost<nat>) -> (r: u32)
    requires
        sum == capped(a),
    ensures
        r == capped(a + text_size(s@)),
{
    add_capped(sum, s.as_bytes().len(), Ghost(a))
}

/// Adds the bytes of `s`, if it is there, to a capped size.
fn add_optional_text(sum: u32, s: &Option<String>, Ghost(a): Ghost<nat>) -> (r: u32)
    requires
        sum == capped(a),
    ensures
        r == capped(a + optional_text_size(*s)),
{
    match s {
        None => sum,
        Some(s) => add_text(sum, s.as_str(), Ghost(a)),
    }
}

/// Adds the size of `p` to a capped size.
fn add_minimal_player(sum: u32, p: &MinimalPlayer, Ghost(a): Ghost<nat>) -> (r: u32)
    requires
        sum == capped(a),
    ensures
        r == capped(a + minimal_player_size(*p)),
{
    let with_uuid = add_text(sum, p.uuid.as_str(), Ghost(a));
    add_optional_text(with_uuid, &p.username, Ghost(a + text_size(p.uuid@)))
}

/// Adds the sizes of `players` to a capped size.
fn add_minimal_players(sum: u32, players: &Vec<MinimalPlayer>, Ghost(a): Ghost<nat>) -> (r: u32)
    requires
        sum == capped(a),
    ensures
        r == capped(a + minimal_players_size(players@)),
{
    let mut total: u32 = sum;
    let mut i: usize = 0;
    assert(players@.take(0) =~= Seq::<MinimalPlayer>::empty());
    while i < players.len()
        invariant
            i <= players.len(),
            total == capped(a + minimal_players_size(players@.take(i as int))),
        decreases players.len() - i,
    {
        let ghost before = a + minimal_players_size(players@.take(i as int));
        proof {
            let next = players@.take(i + 1);
            assert(next.drop_last() =~= players@.take(i as int));
            assert(next.last() == players@[i as int]);
        }
        total = add_minimal_player(total, &players[i], Ghost(before));
        i += 1;
    }
    assert(players@.take(i as int) =~= players@);
    total
}

/// Adds the size of `p` to a capped size.
fn add_party(sum: u32, p: &Party, Ghost(a): Ghost<nat>) -> (r: u32)
    requires
        sum == capped(a),
    ensures
        r == capped(a + party_size(*p)),
{
    let with_flag = add_capped(sum, TAG_SIZE as usize, Ghost(a));
    let ghost b = a + TAG_SIZE as nat;
    let with_leader = match &p.leader {
        None => with_flag,
        Some(leader) => add_minimal_player(with_flag, leader, Ghost(b)),
    };
    let ghost c = b + leader_size(p.leader);
    match &p.members {
        None => with_leader,
        Some(members) => add_minimal_players(with_leader, members, Ghost(c)),
    }
}

/// Adds the size of `s` to a capped size.
fn add_status(sum: u32, s: &Status, Ghost(a): Ghost<nat>) -> (r: u32)
    requires
        sum == capped(a),
    ensures
        r == capped(a + status_size(*s)),
{
    let with_flag = add_capped(sum, TAG_SIZE as usize, Ghost(a));
    let ghost b = a + TAG_SIZE as nat;
    let with_server = match &s.server {
        None => with_flag,
        Some(server) => {
            let t = add_capped(with_flag, TAG_SIZE as usize, Ghost(b));
            let u = add_text(t, server.sub_type.as_str(), Ghost(b + TAG_SIZE as nat));
            if server.associated_game.is_some() {
                add_capped(
                    u,
                    TAG_SIZE as usize,
                    Ghost(b + TAG_SIZE as nat + text_size(server.sub_type@)),
                )
            } else {
                u
            }
        },
    };
    let ghost c = b + optional_server_size(s.server);
    let with_first = if s.first_join.is_some() {
        add_capped(with_server, TIMESTAMP_SIZE as usize, Ghost(c))
    } else {
        with_server
    };
    let ghost d = c + if_some(s.first_join, TIMESTAMP_SIZE as nat);
    if s.last_join.is_some() {
        add_capped(with_first, TIMESTAMP_SIZE as usize, Ghost(d))
    } else {
        with_first
    }
}

/// Adds the size of `c` to a capped size.
fn add_crown_level(sum: u32, c: &CrownLevel, Ghost(a): Ghost<nat>) -> (r: u32)
    requires
        sum == capped(a),
    ensures
        r == capped(a + crown_level_size(*c)),
{
    let fixed: usize = 4 * NUMBER_SIZE as usize;
    let with_fixed = add_capped(sum, fixed, Ghost(a));
    let ghost b = a + 4 * NUMBER_SIZE as nat;
    let with_next = if c.next_evolution_level.is_some() {
        add_capped(with_fixed, NUMBER_SIZE as usize, Ghost(b))
    } else {
        with_fixed
    };
    let ghost d = b + if_some(c.next_evolution_level, NUMBER_SIZE as nat);
    if c.next_level_progress.is_some() {
        let two: usize = 2 * NUMBER_SIZE as usize;
        add_capped(with_next, two, Ghost(d))
    } else {
        with_next
    }
}

/// The weight of the cache entry that holds `profile` under `key`.
pub fn weigh(key: &str, profile: &Player) -> (weight: u32)
    ensures
        weight == entry_weight(key@, *profile),
{
    let w0 = add_text(0, key, Ghost(0nat));
    let ghost a0 = text_size(key@);
    let w1 = add_text(w0, profile.uuid.as_str(), Ghost(a0));
    let ghost a1 = a0 + text_size(profile.uuid@);
    let w2 = add_optional_text(w1, &profile.username, Ghost(a1));
    let ghost a2 = a1 + optional_text_size(profile.username);
    let w3 = add_capped(w2, profile.ranks.len(), Ghost(a2));
    let ghost a3 = a2 + profile.ranks@.len();
    let w4 = add_crown_level(w3, &profile.crown_level, Ghost(a3));
    let ghost a4 = a3 + crown_level_size(profile.crown_level);
    let w5 = match &profile.status {
        None => w4,
        Some(status) => add_status(w4, status, Ghost(a4)),
    };
    let ghost a5 = a4 + optional_status_size(profile.status);
    let w6 = if profile.collections.is_some() {
        let five: usize = 5 * NUMBER_SIZE as usize;
        add_capped(w5, five, Ghost(a5))
    } else {
        w5
    };
    let ghost a6 = a5 + if_some(profile.collections, 5 * NUMBER_SIZE as nat);
    match &profile.social {
        None => w6,
        Some(social) => {
            let w7 = add_minimal_players(w6, &social.friends, Ghost(a6));
            add_party(w7, &social.party, Ghost(a6 + minimal_players_size(social.friends@)))
        },
    }
}

} // verus!
