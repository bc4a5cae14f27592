//! Properties that relate the helper's decisions to one another.
use vstd::prelude::*;

use crate::agent_utils::{enemy_flags, trackable, PersistentEnt, Playerent, STATE_DEAD};
use crate::aimbot_utils::{
    best_target_result, candidate_target, combat_ready, valid_target_flags, valid_target_result,
    spec_gun_state_threshold, CHECKED_GUNS, FIRST_CHECKED_GUN,
};
use crate::err::Error;
use crate::hooks::{spec_game_symbols, symbol_lookup, symbol_named};
use crate::esp::{GL_BLEND, GL_CULL_FACE, GL_DEPTH_TEST, GL_LINE_LOOP, GL_MODELVIEW, GL_PROJECTION, GL_TEXTURE_2D, class_mark, ent_color, entity_marks, usable_ent, EntityMark, esp_class, player_marks, PlayerMark, PlayerMarkKind, Rgb};
use crate::selection::{first_min_result, is_first_min};

verus! {

/// Every player the aim assistant may aim at is also one the navigation
/// tracks.
pub proof fn law_valid_target_is_trackable(player1: Playerent, player: Playerent, visible: Option<bool>)
    requires
        valid_target_result(player1, player, visible) == Ok::<bool, Error>(true),
    ensures
        trackable(player1, player),
{
}

/// The aim assistant's target test and the overlay's classification agree: a
/// player passes the target test exactly when its ESP class is 1 (a live
/// enemy in sight).
pub proof fn law_valid_target_iff_visible_enemy(
    player1: Playerent,
    player: Playerent,
    visible: Option<bool>,
)
    ensures
        (valid_target_result(player1, player, visible) == Ok::<bool, Error>(true)) <==> (esp_class(
            player1,
            player,
            visible,
        ) == Ok::<i32, Error>(1)),
{
}

/// An ESP class is one of -1 (dead), 0 (enemy out of sight), 1 (enemy in
/// sight), 2 (teammate out of sight) and 3 (teammate in sight).
pub proof fn law_esp_class_range(player1: Playerent, player: Playerent, visible: Option<bool>)
    ensures
        esp_class(player1, player, visible) matches Ok(c) ==> -1 <= c <= 3,
        esp_class(player1, player, visible) == Ok::<i32, Error>(-1i32) <==> player.state == STATE_DEAD,
        player.state != STATE_DEAD ==> (esp_class(player1, player, visible) matches Ok(c) ==> (c
            >= 2 <==> player.team == player1.team)),
        player.state != STATE_DEAD ==> (esp_class(player1, player, visible) matches Ok(c) ==> (c
            == 1 || c == 3 <==> visible == Some(true))),
{
}

/// Readiness to fire only improves as weapons cool down: a live player whose
/// checked weapon counters are each no higher than those of a ready player
/// is ready too.
pub proof fn law_combat_ready_monotone(ready: Playerent, other: Playerent)
    requires
        combat_ready(ready),
        other.state != STATE_DEAD,
        forall|k: int|
            0 <= k < CHECKED_GUNS ==> other.gun_wait@[FIRST_CHECKED_GUN + k] <= #[trigger] ready.gun_wait@[FIRST_CHECKED_GUN
                + k],
    ensures
        combat_ready(other),
{
    assert forall|k: int| 0 <= k < CHECKED_GUNS implies other.gun_wait@[FIRST_CHECKED_GUN + k]
        <= #[trigger] crate::aimbot_utils::spec_gun_state_threshold(k) by {
        assert(ready.gun_wait@[FIRST_CHECKED_GUN + k] <= crate::aimbot_utils::spec_gun_state_threshold(k));
        assert(other.gun_wait@[FIRST_CHECKED_GUN + k] <= ready.gun_wait@[FIRST_CHECKED_GUN + k]);
    }
}

/// A dead local player never aims, and whatever the aim step picks is a live
/// enemy in sight, while the local player can fire.
pub proof fn law_best_target_is_visible_enemy(
    player1: Playerent,
    players: Seq<Playerent>,
    visibility: Seq<Option<bool>>,
    angle_keys: Seq<u32>,
    r: Result<Option<usize>, Error>,
)
    requires
        players.len() == visibility.len(),
        best_target_result(player1, players, visibility, angle_keys, r),
    ensures
        player1.state == STATE_DEAD ==> r == Ok::<Option<usize>, Error>(None),
        r matches Ok(Some(i)) ==> {
            &&& combat_ready(player1)
            &&& i < players.len()
            &&& candidate_target(player1, players[i as int])
            &&& visibility[i as int] == Some(true)
        },
{
    if let Ok(Some(i)) = r {
        assert(combat_ready(player1));
        assert(is_first_min(valid_target_flags(player1, players, visibility), angle_keys, i as int));
        assert(valid_target_flags(player1, players, visibility)[i as int]);
    }
}

/// Each of `marks` is on a live player out of sight: a red box on an
/// enemy, a green skeleton on a teammate; the marks are in strictly
/// increasing player order.
pub open spec fn marks_out_of_sight(
    player1: Playerent,
    players: Seq<Playerent>,
    visibility: Seq<Option<bool>>,
    marks: Seq<PlayerMark>,
) -> bool {
    &&& forall|m: int|
        0 <= m < marks.len() ==> {
            let i = #[trigger] marks[m].index as int;
            &&& 0 <= i < players.len()
            &&& players[i].state != STATE_DEAD
            &&& visibility[i] == Some(false)
            &&& (marks[m].kind == PlayerMarkKind::BoundingBox <==> players[i].team != player1.team)
            &&& marks[m].kind == PlayerMarkKind::BoundingBox ==> marks[m].color == Rgb {
                r: 255,
                g: 0,
                b: 0,
            }
            &&& marks[m].kind == PlayerMarkKind::Skeleton ==> marks[m].color == Rgb {
                r: 0,
                g: 255,
                b: 0,
            }
        }
    &&& forall|m: int, n: int|
        0 <= m < n < marks.len() ==> #[trigger] marks[m].index < #[trigger] marks[n].index
}

/// The overlay marks only live players that are out of sight: enemies with a
/// red box, teammates with a green skeleton; marks come in list order, one
/// per player at most.
pub proof fn law_player_marks_out_of_sight(
    player1: Playerent,
    players: Seq<Playerent>,
    visibility: Seq<Option<bool>>,
)
    requires
        players.len() <= visibility.len(),
        players.len() <= usize::MAX,
    ensures
        marks_out_of_sight(player1, players, visibility, player_marks(player1, players, visibility)),
    decreases players.len(),
{
    if players.len() > 0 {
        let prefix = players.drop_last();
        let last = players.len() - 1;
        law_player_marks_out_of_sight(player1, prefix, visibility);
        lemma_marks_below(player1, prefix, visibility);
        let old_marks = player_marks(player1, prefix, visibility);
        let new_marks = class_mark(esp_class(player1, players[last], visibility[last]), last);
        let marks = player_marks(player1, players, visibility);
        assert(marks == old_marks + new_marks);
        assert forall|m: int| 0 <= m < old_marks.len() implies old_marks[m].index < last by {}
        assert forall|m: int|
            0 <= m < marks.len() implies #[trigger] marks[m].index as int >= 0 && {
                let i = marks[m].index as int;
                &&& 0 <= i < players.len()
                &&& players[i].state != STATE_DEAD
                &&& visibility[i] == Some(false)
                &&& (marks[m].kind == PlayerMarkKind::BoundingBox <==> players[i].team
                    != player1.team)
                &&& marks[m].kind == PlayerMarkKind::BoundingBox ==> marks[m].color == Rgb {
                    r: 255,
                    g: 0,
                    b: 0,
                }
                &&& marks[m].kind == PlayerMarkKind::Skeleton ==> marks[m].color == Rgb {
                    r: 0,
                    g: 255,
                    b: 0,
                }
            } by {
            if m < old_marks.len() {
                assert(marks[m] == old_marks[m]);
                let i = old_marks[m].index as int;
                assert(0 <= i < prefix.len());
                assert(prefix[i] == players[i]);
            } else {
                assert(marks[m] == new_marks[m - old_marks.len()]);
                let c = esp_class(player1, players[last], visibility[last]);
                if c == Ok::<i32, Error>(0) {
                    assert(new_marks[0].index == last);
                } else if c == Ok::<i32, Error>(2) {
                    assert(new_marks[0].index == last);
                } else {
                    assert(new_marks.len() == 0);
                }
            }
        }
        assert forall|m: int, n: int|
            0 <= m < n < marks.len() implies #[trigger] marks[m].index < #[trigger] marks[n].index by {
            if n < old_marks.len() {
                assert(marks[m] == old_marks[m]);
                assert(marks[n] == old_marks[n]);
                assert(old_marks[m].index < old_marks[n].index);
            } else {
                assert(m < old_marks.len());
                assert(marks[m] == old_marks[m]);
                assert(marks[n] == new_marks[n - old_marks.len()]);
            }
        }
    }
}

/// Each of `marks` is on a usable entity, in the colour of its kind, and the
/// marks are in strictly increasing entity order.
pub open spec fn marks_on_usable(ents: Seq<PersistentEnt>, marks: Seq<EntityMark>) -> bool {
    &&& forall|m: int|
        0 <= m < marks.len() ==> {
            let i = #[trigger] marks[m].index as int;
            &&& 0 <= i < ents.len()
            &&& usable_ent(ents[i])
            &&& marks[m].color == ent_color(ents[i].type_)
        }
    &&& forall|m: int, n: int|
        0 <= m < n < marks.len() ==> #[trigger] marks[m].index < #[trigger] marks[n].index
}

/// The overlay boxes exactly the usable entities: every box is on a usable
/// entity in its kind's colour, in list order, and every usable entity has
/// one.
pub proof fn law_entity_marks_on_usable(ents: Seq<PersistentEnt>)
    requires
        ents.len() <= usize::MAX,
    ensures
        marks_on_usable(ents, entity_marks(ents)),
        forall|i: int|
            0 <= i < ents.len() && usable_ent(ents[i]) ==> exists|m: int|
                0 <= m < entity_marks(ents).len() && #[trigger] entity_marks(ents)[m].index == i,
    decreases ents.len(),
{
    if ents.len() > 0 {
        let prefix = ents.drop_last();
        let last = ents.len() - 1;
        law_entity_marks_on_usable(prefix);
        let old_marks = entity_marks(prefix);
        let marks = entity_marks(ents);
        let new_marks = if usable_ent(ents[last]) {
            seq![EntityMark { index: last as usize, color: ent_color(ents[last].type_) }]
        } else {
            Seq::<EntityMark>::empty()
        };
        assert(marks == old_marks + new_marks);
        assert forall|m: int| 0 <= m < marks.len() implies {
            let i = #[trigger] marks[m].index as int;
            &&& 0 <= i < ents.len()
            &&& usable_ent(ents[i])
            &&& marks[m].color == ent_color(ents[i].type_)
        } by {
            if m < old_marks.len() {
                assert(marks[m] == old_marks[m]);
                let i = old_marks[m].index as int;
                assert(prefix[i] == ents[i]);
            } else {
                assert(marks[m] == new_marks[m - old_marks.len()]);
            }
        }
        assert forall|m: int, n: int|
            0 <= m < n < marks.len() implies #[trigger] marks[m].index < #[trigger] marks[n].index by {
            assert(marks[m] == old_marks[m]);
            if n < old_marks.len() {
                assert(marks[n] == old_marks[n]);
            } else {
                assert(marks[n] == new_marks[n - old_marks.len()]);
                assert(old_marks[m].index < last);
            }
        }
        assert forall|i: int| 0 <= i < ents.len() && usable_ent(ents[i]) implies exists|m: int|
            0 <= m < marks.len() && #[trigger] marks[m].index == i by {
            if i < last {
                assert(prefix[i] == ents[i]);
                assert(usable_ent(prefix[i]));
                let m = choose|m: int| 0 <= m < old_marks.len() && #[trigger] old_marks[m].index == i;
                assert(marks[m] == old_marks[m]);
                assert(marks[m].index == i);
            } else {
                let m = old_marks.len() as int;
                assert(marks[m] == new_marks[0]);
                assert(marks[m].index == i);
            }
        }
    }
}

/// Every mark of a list points below the list's length.
proof fn lemma_marks_below(player1: Playerent, players: Seq<Playerent>, visibility: Seq<Option<bool>>)
    ensures
        forall|m: int|
            0 <= m < player_marks(player1, players, visibility).len() ==> player_marks(
                player1,
                players,
                visibility,
            )[m].index < players.len(),
    decreases players.len(),
{
    if players.len() > 0 {
        lemma_marks_below(player1, players.drop_last(), visibility);
    }
}

/// Readiness to fire, spelled out: the local player can fire exactly when
/// it is alive and its weapon wait counters 3 to 8 are at most 160, 720,
/// 880, 80, 1500 and 120.
pub proof fn law_combat_ready_thresholds(p: Playerent)
    ensures
        combat_ready(p) <==> {
            &&& p.gun_wait@[3] <= 160
            &&& p.gun_wait@[4] <= 720
            &&& p.gun_wait@[5] <= 880
            &&& p.gun_wait@[6] <= 80
            &&& p.gun_wait@[7] <= 1500
            &&& p.gun_wait@[8] <= 120
            &&& p.state != STATE_DEAD
        },
{
    assert(spec_gun_state_threshold(0) == 160);
    assert(spec_gun_state_threshold(1) == 720);
    assert(spec_gun_state_threshold(2) == 880);
    assert(spec_gun_state_threshold(3) == 80);
    assert(spec_gun_state_threshold(4) == 1500);
    assert(spec_gun_state_threshold(5) == 120);
}

/// The box colours by entity kind: magenta for kinds 3 and 4, green for 6,
/// blue for 9, and white for every other kind.
pub proof fn law_entity_colors(type_: u8)
    ensures
        type_ == 3 || type_ == 4 ==> ent_color(type_) == (Rgb { r: 255, g: 0, b: 255 }),
        type_ == 6 ==> ent_color(type_) == (Rgb { r: 0, g: 255, b: 0 }),
        type_ == 9 ==> ent_color(type_) == (Rgb { r: 0, g: 0, b: 255 }),
        type_ != 3 && type_ != 4 && type_ != 6 && type_ != 9 ==> ent_color(type_) == (Rgb {
            r: 255,
            g: 255,
            b: 255,
        }),
{
}

/// The navigation target is an enemy: a choice made over the enemy flags of
/// a list is `None` exactly when every player is on `player1`'s team, and
/// otherwise a player of another team whose key is no larger than that of
/// any other such player, and smaller than that of every such player before
/// it.
pub proof fn law_closest_enemy_other_team(
    player1: Playerent,
    players: Seq<Playerent>,
    keys: Seq<u32>,
    r: Option<usize>,
)
    requires
        players.len() == keys.len(),
        first_min_result(enemy_flags(player1, players), keys, r),
    ensures
        r is None <==> forall|j: int| 0 <= j < players.len() ==> players[j].team == player1.team,
        r matches Some(i) ==> {
            &&& i < players.len()
            &&& players[i as int].team != player1.team
            &&& forall|j: int|
                0 <= j < players.len() && players[j].team != player1.team ==> keys[i as int]
                    <= keys[j]
            &&& forall|j: int|
                0 <= j < i && players[j].team != player1.team ==> keys[i as int] < keys[j]
        },
{
    let flags = enemy_flags(player1, players);
    assert forall|j: int| 0 <= j < players.len() implies flags[j] == (players[j].team
        != player1.team) by {}
    if let Some(i) = r {
        assert(is_first_min(flags, keys, i as int));
        assert forall|j: int|
            0 <= j < players.len() && players[j].team != player1.team implies keys[i as int]
            <= keys[j] by {
            assert(flags[j]);
        }
        assert forall|j: int|
            0 <= j < i && players[j].team != player1.team implies keys[i as int] < keys[j] by {
            assert(flags[j]);
        }
    }
    if r is None {
        assert forall|j: int| 0 <= j < players.len() implies players[j].team == player1.team by {
            if players[j].team != player1.team {
                assert(flags[j]);
            }
        }
    }
}

/// The overlay misses no one it should mark: every live player out of
/// sight gets a mark, a box when it is an enemy and a skeleton when it is a
/// teammate.
pub proof fn law_player_marks_complete(
    player1: Playerent,
    players: Seq<Playerent>,
    visibility: Seq<Option<bool>>,
)
    requires
        players.len() <= visibility.len(),
        players.len() <= usize::MAX,
    ensures
        forall|i: int|
            0 <= i < players.len() && players[i].state != STATE_DEAD && visibility[i] == Some(
                false,
            ) ==> exists|m: int|
                0 <= m < player_marks(player1, players, visibility).len()
                    && #[trigger] player_marks(player1, players, visibility)[m].index == i
                    && (player_marks(player1, players, visibility)[m].kind
                    == PlayerMarkKind::BoundingBox <==> players[i].team != player1.team),
    decreases players.len(),
{
    if players.len() > 0 {
        let prefix = players.drop_last();
        let last = players.len() - 1;
        law_player_marks_complete(player1, prefix, visibility);
        let old_marks = player_marks(player1, prefix, visibility);
        let new_marks = class_mark(esp_class(player1, players[last], visibility[last]), last);
        let marks = player_marks(player1, players, visibility);
        assert(marks == old_marks + new_marks);
        assert forall|i: int|
            0 <= i < players.len() && players[i].state != STATE_DEAD && visibility[i] == Some(
                false,
            ) implies exists|m: int|
            0 <= m < marks.len() && #[trigger] marks[m].index == i && (marks[m].kind
                == PlayerMarkKind::BoundingBox <==> players[i].team != player1.team) by {
            if i < last {
                assert(prefix[i] == players[i]);
                let m = choose|m: int|
                    0 <= m < old_marks.len() && #[trigger] old_marks[m].index == i && (
                    old_marks[m].kind == PlayerMarkKind::BoundingBox <==> prefix[i].team
                        != player1.team);
                assert(marks[m] == old_marks[m]);
                assert(marks[m].index == i);
            } else {
                let m = old_marks.len() as int;
                assert(new_marks.len() == 1);
                assert(marks[m] == new_marks[0]);
                assert(marks[m].index == i);
            }
        }
    }
}

/// A symbol named `name` exists in the tables and the image base plus its
/// value (the first such symbol's) fits in 64 bits.
pub open spec fn found_in_range(
    base_addr: u64,
    syms: Seq<(usize, u64)>,
    strs: Map<usize, Seq<char>>,
    name: Seq<char>,
) -> bool {
    match symbol_lookup(syms, strs, name) {
        Some(v) => base_addr + v <= u64::MAX,
        None => false,
    }
}

/// `addr` is the image base plus the value of the first symbol named `name`.
pub open spec fn located_at(
    base_addr: u64,
    syms: Seq<(usize, u64)>,
    strs: Map<usize, Seq<char>>,
    name: Seq<char>,
    addr: u64,
) -> bool {
    match symbol_lookup(syms, strs, name) {
        Some(v) => addr == base_addr + v,
        None => false,
    }
}

/// The game addresses are resolved name by name: resolution succeeds exactly
/// when each of the ten names is in the symbol table with an address that
/// fits in 64 bits, and then each address is the image base plus the value
/// of its own name's first symbol.
pub proof fn law_game_symbols_by_name(
    base_addr: u64,
    syms: Seq<(usize, u64)>,
    strs: Map<usize, Seq<char>>,
)
    ensures
        spec_game_symbols(base_addr, syms, strs) is Some <==> {
            &&& found_in_range(base_addr, syms, strs, "players"@)
            &&& found_in_range(base_addr, syms, strs, "ents"@)
            &&& found_in_range(base_addr, syms, strs, "player1"@)
            &&& found_in_range(base_addr, syms, strs, "mvpmatrix"@)
            &&& found_in_range(base_addr, syms, strs, "screenw"@)
            &&& found_in_range(base_addr, syms, strs, "screenh"@)
            &&& found_in_range(base_addr, syms, strs, "worldpos"@)
            &&& found_in_range(base_addr, syms, strs, "_Z9TraceLine3vecS_P6dynentbP13traceresult_sb"@)
            &&& found_in_range(base_addr, syms, strs, "_Z9IsVisible3vecS_P6dynentb"@)
            &&& found_in_range(base_addr, syms, strs, "_Z9draw_textPKciiiiiiii"@)
        },
        spec_game_symbols(base_addr, syms, strs) matches Some(g) ==> {
            &&& located_at(base_addr, syms, strs, "players"@, g.players)
            &&& located_at(base_addr, syms, strs, "ents"@, g.ents)
            &&& located_at(base_addr, syms, strs, "player1"@, g.player1)
            &&& located_at(base_addr, syms, strs, "mvpmatrix"@, g.mvpmatrix)
            &&& located_at(base_addr, syms, strs, "screenw"@, g.screenw)
            &&& located_at(base_addr, syms, strs, "screenh"@, g.screenh)
            &&& located_at(base_addr, syms, strs, "worldpos"@, g.worldpos)
            &&& located_at(base_addr, syms, strs, "_Z9TraceLine3vecS_P6dynentbP13traceresult_sb"@, g.trace_line)
            &&& located_at(base_addr, syms, strs, "_Z9IsVisible3vecS_P6dynentb"@, g.is_visible)
            &&& located_at(base_addr, syms, strs, "_Z9draw_textPKciiiiiiii"@, g.draw_text)
        },
{
}

/// Navigation tracks exactly the players of another team and the dead.
pub proof fn law_trackable_players(player1: Playerent, player: Playerent)
    ensures
        trackable(player1, player) <==> (player.team != player1.team || player.state == 1),
{
}

/// The aim assistant's target test passes exactly for a live player of
/// another team whose line-of-sight test reported it in sight; it fails only
/// when such a player's test is unavailable.
pub proof fn law_valid_target_cases(player1: Playerent, player: Playerent, visible: Option<bool>)
    ensures
        valid_target_result(player1, player, visible) == Ok::<bool, Error>(true) <==> (player.state
            != 1 && player.team != player1.team && visible == Some(true)),
        valid_target_result(player1, player, visible) is Err <==> (player.state != 1 && player.team
            != player1.team && visible is None),
{
}

/// An entity gets a box exactly when it is spawned and of a kind from 3 to 9.
pub proof fn law_usable_entity_kinds(ent: PersistentEnt)
    ensures
        usable_ent(ent) <==> (3 <= ent.type_ && ent.type_ <= 9 && ent.spawned),
{
}

/// The OpenGL enumerants used for drawing have their standard values.
pub proof fn law_gl_enumerants()
    ensures
        GL_BLEND == 0x0BE2,
        GL_TEXTURE_2D == 0x0DE1,
        GL_LINE_LOOP == 2,
        GL_DEPTH_TEST == 0x0B71,
        GL_CULL_FACE == 0x0B44,
        GL_MODELVIEW == 0x1700,
        GL_PROJECTION == 0x1701,
{
}

/// A symbol lookup finds the first symbol of the name: it yields a value
/// exactly when some symbol has that name, and then the value of a symbol
/// of that name with no symbol of that name before it.
pub proof fn law_symbol_lookup_first_match(
    syms: Seq<(usize, u64)>,
    strs: Map<usize, Seq<char>>,
    name: Seq<char>,
)
    ensures
        symbol_lookup(syms, strs, name) is None <==> forall|i: int|
            0 <= i < syms.len() ==> !(strs.dom().contains(#[trigger] syms[i].0) && strs[syms[i].0]
                == name),
        symbol_lookup(syms, strs, name) matches Some(v) ==> exists|i: int|
            0 <= i < syms.len() && strs.dom().contains(#[trigger] syms[i].0) && strs[syms[i].0]
                == name && syms[i].1 == v && forall|j: int|
                0 <= j < i ==> !(strs.dom().contains(syms[j].0) && strs[syms[j].0] == name),
{
    if exists|i: int|
        0 <= i < syms.len() && strs.dom().contains(#[trigger] syms[i].0) && strs[syms[i].0]
            == name {
        let k = choose|i: int|
            0 <= i < syms.len() && strs.dom().contains(#[trigger] syms[i].0) && strs[syms[i].0]
                == name;
        lemma_first_of(syms, strs, name, k);
        let f = choose|i: int| crate::hooks::first_named(syms, strs, i, name);
        assert(strs.dom().contains(syms[f].0) && strs[syms[f].0] == name);
        assert forall|j: int| 0 <= j < f implies !(strs.dom().contains(syms[j].0)
            && strs[syms[j].0] == name) by {
            assert(!symbol_named(syms, strs, j, name));
        }
    } else {
        assert forall|i: int| 0 <= i < syms.len() implies !(strs.dom().contains(
            #[trigger] syms[i].0,
        ) && strs[syms[i].0] == name) by {}
        if exists|i: int| crate::hooks::first_named(syms, strs, i, name) {
            let i = choose|i: int| crate::hooks::first_named(syms, strs, i, name);
            assert(symbol_named(syms, strs, i, name));
            assert(strs.dom().contains(syms[i].0));
        }
    }
}

/// When symbol `k` has the name, some symbol is the first of that name.
proof fn lemma_first_of(syms: Seq<(usize, u64)>, strs: Map<usize, Seq<char>>, name: Seq<char>, k: int)
    requires
        0 <= k < syms.len(),
        symbol_named(syms, strs, k, name),
    ensures
        exists|i: int| crate::hooks::first_named(syms, strs, i, name),
    decreases k,
{
    if forall|j: int| 0 <= j < k ==> !symbol_named(syms, strs, j, name) {
        assert(crate::hooks::first_named(syms, strs, k, name));
    } else {
        let j = choose|j: int| 0 <= j < k && symbol_named(syms, strs, j, name);
        lemma_first_of(syms, strs, name, j);
    }
}

} // verus!
