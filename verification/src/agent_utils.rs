use vstd::prelude::*;

use crate::err::Error;
use crate::selection::{first_min_index, first_min_result};

verus! {

/// The player state in which the game counts a player as dead.
pub const STATE_DEAD: u8 = 1;

/// What the helper decides on of a player entity: its state, the wait
/// counters of its weapons and its team. Positions, angles and health are
/// only used in floating-point drawing and stay with the caller.
#[derive(Clone, Copy, Debug)]
pub struct Playerent {
    pub state: u8,
    pub gun_wait: [i32; 9],
    pub team: i32,
}

/// What the helper reads of a map entity (an item or a spawn point): its
/// position in map units, its kind and whether it is currently spawned.
#[derive(Clone, Copy, Debug)]
pub struct PersistentEnt {
    pub x: i16,
    pub y: i16,
    pub z: i16,
    pub type_: u8,
    pub spawned: bool,
}

/// A player is trackable when it is on another team, or when it is dead.
pub open spec fn trackable(player1: Playerent, player: Playerent) -> bool {
    player.team != player1.team || player.state == STATE_DEAD
}

/// An enemy of `player1`: a player of another team, alive or dead.
pub open spec fn enemy(player1: Playerent, player: Playerent) -> bool {
    player.team != player1.team
}

/// Which of `players` are enemies of `player1`.
pub open spec fn enemy_flags(player1: Playerent, players: Seq<Playerent>) -> Seq<bool> {
    Seq::new(players.len(), |j: int| enemy(player1, players[j]))
}

/// Whether `player` is a target the navigation follows: a player of another
/// team, or a dead one. It never fails.
pub fn is_trackable_target(player1: &Playerent, player: &Playerent) -> (r: Result<bool, Error>)
    ensures
        r == Ok::<bool, Error>(trackable(*player1, *player)),
{
    let mut trackable = false;
    if player.team != player1.team || player.state == STATE_DEAD {
        trackable = true;
    }
    Ok(trackable)
}

/// The closest enemy, by index into `players`: of the players on another
/// team than `player1` (a trackable player that is a teammate, being dead,
/// is no enemy), the one closest to `player1`.
///
/// `players` is `None` when the game's player list pointer is null.
/// `distance_keys[j]` orders the players by their distance from `player1`:
/// smaller key, closer player. Among equally close players the first wins.
pub fn closest_enemy(
    player1: &Playerent,
    players: Option<&Vec<Playerent>>,
    distance_keys: &Vec<u32>,
) -> (r: Result<Option<usize>, Error>)
    requires
        players matches Some(v) ==> v.len() == distance_keys.len(),
    ensures
        players is None ==> r == Err::<Option<usize>, Error>(Error::PlayersListError),
        players matches Some(v) ==> (r matches Ok(o) && first_min_result(
            enemy_flags(*player1, v@),
            distance_keys@,
            o,
        )),
{
    let players = match players {
        Some(v) => v,
        None => {
            return Err(Error::PlayersListError);
        },
    };
    let mut flags: Vec<bool> = Vec::new();
    let mut i: usize = 0;
    while i < players.len()
        invariant
            0 <= i <= players.len(),
            flags@.len() == i,
            forall|j: int| 0 <= j < i ==> flags@[j] == enemy(*player1, players@[j]),
        decreases players.len() - i,
    {
        let t = match is_trackable_target(player1, &players[i]) {
            Ok(t) => t,
            Err(e) => {
                return Err(Error::PlayersListError);
            },
        };
        flags.push(t && players[i].team != player1.team);
        i = i + 1;
    }
    assert(flags@ =~= enemy_flags(*player1, players@));
    Ok(first_min_index(&flags, distance_keys))
}

/// Looks for the next target after a path was walked: fails when the local
/// player or the player list is missing, and otherwise yields the nearest
/// enemy, as [`closest_enemy`] finds it, for the caller to act on.
pub fn process_next_target(
    player1: Option<&Playerent>,
    players: Option<&Vec<Playerent>>,
    distance_keys: &Vec<u32>,
) -> (r: Result<Option<usize>, Error>)
    requires
        players matches Some(v) ==> v.len() == distance_keys.len(),
    ensures
        player1 is None ==> r == Err::<Option<usize>, Error>(Error::Player1Error),
        player1 is Some && players is None ==> r == Err::<Option<usize>, Error>(
            Error::PlayersListError,
        ),
        player1 matches Some(p) ==> (players matches Some(v) ==> (r matches Ok(o)
            && first_min_result(enemy_flags(*p, v@), distance_keys@, o))),
{
    let player1 = match player1 {
        Some(p) => p,
        None => {
            return Err(Error::Player1Error);
        },
    };
    let players = match players {
        Some(v) => v,
        None => {
            return Err(Error::PlayersListError);
        },
    };
    closest_enemy(player1, Some(players), distance_keys)
}

} // verus!
