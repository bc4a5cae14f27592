use vstd::prelude::*;

use crate::agent_utils::{Playerent, STATE_DEAD};
use crate::err::Error;
use crate::selection::{first_min_index, first_min_result};

verus! {

/// The wait counter above which a weapon is not ready to fire, for the six
/// weapons whose counters stand at `gun_wait[3..9]`.
pub open spec fn spec_gun_state_threshold(k: int) -> i32 {
    if k == 0 {
        160
    } else if k == 1 {
        720
    } else if k == 2 {
        880
    } else if k == 3 {
        80
    } else if k == 4 {
        1500
    } else {
        120
    }
}

/// Index of the first weapon counter that the readiness check looks at.
pub const FIRST_CHECKED_GUN: usize = 3;

/// Number of weapon counters that the readiness check looks at.
pub const CHECKED_GUNS: usize = 6;

/// The local player may fire: no checked weapon counter is above its
/// threshold and the player is alive.
pub open spec fn combat_ready(player1: Playerent) -> bool {
    &&& forall|k: int|
        0 <= k < CHECKED_GUNS ==> player1.gun_wait@[FIRST_CHECKED_GUN + k]
            <= #[trigger] spec_gun_state_threshold(k)
    &&& player1.state != STATE_DEAD
}

/// A player is worth a visibility test: alive and on another team.
pub open spec fn candidate_target(player1: Playerent, player: Playerent) -> bool {
    player.state != STATE_DEAD && player1.team != player.team
}

/// The outcome of the target test for `player`, given the outcome of the
/// game's line-of-sight test: `None` when that test is not available.
pub open spec fn valid_target_result(
    player1: Playerent,
    player: Playerent,
    visible: Option<bool>,
) -> Result<bool, Error> {
    if !candidate_target(player1, player) {
        Ok(false)
    } else {
        match visible {
            Some(v) => Ok(v),
            None => Err(Error::TraceLineError),
        }
    }
}

/// Whether `player` is worth the line-of-sight test at all; the test's
/// outcome only matters for such players.
pub fn is_candidate_target(player1: &Playerent, player: &Playerent) -> (r: bool)
    ensures
        r == candidate_target(*player1, *player),
{
    player.state != STATE_DEAD && player1.team != player.team
}

/// Whether the aim assistant may aim at `player`: alive, of another team, and
/// in sight. `visible` is what the game's line-of-sight test from `player1`'s
/// head to `player`'s head returned, or `None` when the game function was not
/// found; it is consulted only for alive players of another team.
pub fn is_valid_target(player1: &Playerent, player: &Playerent, visible: Option<bool>) -> (r: Result<
    bool,
    Error,
>)
    ensures
        r == valid_target_result(*player1, *player, visible),
{
    if player.state == STATE_DEAD || player1.team == player.team {
        return Ok(false);
    }
    match visible {
        Some(result) => Ok(result),
        None => Err(Error::TraceLineError),
    }
}

/// The threshold of checked weapon `k` (`k < 6`).
fn gun_state_threshold(k: usize) -> (t: i32)
    requires
        k < CHECKED_GUNS,
    ensures
        t == spec_gun_state_threshold(k as int),
{
    if k == 0 {
        160
    } else if k == 1 {
        720
    } else if k == 2 {
        880
    } else if k == 3 {
        80
    } else if k == 4 {
        1500
    } else {
        120
    }
}

/// Whether the local player can fire: every one of the six weapon counters
/// `gun_wait[3..9]` is at most its weapon's threshold (160, 720, 880, 80,
/// 1500, 120), and the player is not dead. It never fails.
pub fn is_combat_ready(player1: &Playerent) -> (r: Result<bool, Error>)
    ensures
        r == Ok::<bool, Error>(combat_ready(*player1)),
{
    let mut k: usize = 0;
    while k < CHECKED_GUNS
        invariant
            0 <= k <= CHECKED_GUNS,
            forall|m: int|
                0 <= m < k ==> player1.gun_wait@[FIRST_CHECKED_GUN + m]
                    <= #[trigger] spec_gun_state_threshold(m),
        decreases CHECKED_GUNS - k,
    {
        let threshold = gun_state_threshold(k);
        if player1.gun_wait[FIRST_CHECKED_GUN + k] > threshold {
            assert(!combat_ready(*player1)) by {
                assert(player1.gun_wait@[FIRST_CHECKED_GUN + k as int] > spec_gun_state_threshold(
                    k as int,
                ));
            }
            return Ok(false);
        }
        k = k + 1;
    }
    if player1.state == STATE_DEAD {
        return Ok(false);
    }
    Ok(true)
}

/// Some player's target test fails.
pub open spec fn some_target_test_fails(
    player1: Playerent,
    players: Seq<Playerent>,
    visibility: Seq<Option<bool>>,
) -> bool {
    exists|j: int|
        0 <= j < players.len() && #[trigger] valid_target_result(
            player1,
            players[j],
            visibility[j],
        ) is Err
}

/// Which players pass the target test.
pub open spec fn valid_target_flags(
    player1: Playerent,
    players: Seq<Playerent>,
    visibility: Seq<Option<bool>>,
) -> Seq<bool> {
    Seq::new(
        players.len(),
        |j: int| valid_target_result(player1, players[j], visibility[j]) == Ok::<bool, Error>(true),
    )
}

/// What the choice of the best target yields.
pub open spec fn best_target_result(
    player1: Playerent,
    players: Seq<Playerent>,
    visibility: Seq<Option<bool>>,
    angle_keys: Seq<u32>,
    r: Result<Option<usize>, Error>,
) -> bool {
    if !combat_ready(player1) {
        r == Ok::<Option<usize>, Error>(None)
    } else if some_target_test_fails(player1, players, visibility) {
        r == Err::<Option<usize>, Error>(Error::TraceLineError)
    } else {
        r matches Ok(o) && first_min_result(
            valid_target_flags(player1, players, visibility),
            angle_keys,
            o,
        )
    }
}

/// The player to aim at, by index into `players`.
///
/// Nothing is chosen while the local player cannot fire. Otherwise every
/// player goes through the target test (`visibility[j]` is the outcome of the
/// line-of-sight test for `players[j]`); if one of those tests fails, the
/// choice fails with it. Of the players that pass, the one whose
/// `angle_keys` entry (the size of the turn needed to face it) is smallest is
/// chosen, the first among equals.
pub fn get_best_viewangles(
    player1: &Playerent,
    players: &Vec<Playerent>,
    visibility: &Vec<Option<bool>>,
    angle_keys: &Vec<u32>,
) -> (r: Result<Option<usize>, Error>)
    requires
        players.len() == visibility.len(),
        players.len() == angle_keys.len(),
    ensures
        best_target_result(*player1, players@, visibility@, angle_keys@, r),
{
    match is_combat_ready(player1) {
        Ok(result) => {
            if !result {
                return Ok(None);
            }
        },
        Err(_) => {
            return Err(Error::Player1Error);
        },
    }
    let mut flags: Vec<bool> = Vec::new();
    let mut i: usize = 0;
    while i < players.len()
        invariant
            players.len() == visibility.len(),
            combat_ready(*player1),
            0 <= i <= players.len(),
            flags@.len() == i,
            forall|j: int|
                0 <= j < i ==> flags@[j] == (valid_target_result(
                    *player1,
                    players@[j],
                    visibility@[j],
                ) == Ok::<bool, Error>(true)),
            forall|j: int|
                0 <= j < i ==> !(#[trigger] valid_target_result(
                    *player1,
                    players@[j],
                    visibility@[j],
                ) is Err),
        decreases players.len() - i,
    {
        match is_valid_target(player1, &players[i], visibility[i]) {
            Ok(v) => {
                flags.push(v);
            },
            Err(e) => {
                assert(some_target_test_fails(*player1, players@, visibility@)) by {
                    assert(valid_target_result(*player1, players@[i as int], visibility@[i as int]) is Err);
                }
                return Err(e);
            },
        }
        i = i + 1;
    }
    assert(flags@ =~= valid_target_flags(*player1, players@, visibility@));
    Ok(first_min_index(&flags, angle_keys))
}

/// The aim step of one frame: fails when the local player or the player list
/// is missing, and otherwise yields the player to aim at, as
/// [`get_best_viewangles`] chooses it. The caller draws the chosen player and
/// turns the local player towards it.
pub fn update_agent_viewangles(
    player1: Option<&Playerent>,
    players: Option<&Vec<Playerent>>,
    visibility: &Vec<Option<bool>>,
    angle_keys: &Vec<u32>,
) -> (r: Result<Option<usize>, Error>)
    requires
        players matches Some(v) ==> v.len() == visibility.len() && v.len() == angle_keys.len(),
    ensures
        player1 is None ==> r == Err::<Option<usize>, Error>(Error::Player1Error),
        player1 is Some && players is None ==> r == Err::<Option<usize>, Error>(
            Error::PlayersListError,
        ),
        player1 matches Some(p) ==> (players matches Some(v) ==> best_target_result(
            *p,
            v@,
            visibility@,
            angle_keys@,
            r,
        )),
{
    let player1 = match player1 {
        Some(p) => p,
        None => {
            return Err(Error::Player1Error);
        },
    };
    let players = match players {
        Some(v) => v,
        None => {
            return Err(Error::PlayersListError);
        },
    };
    get_best_viewangles(player1, players, visibility, angle_keys)
}

} // verus!
