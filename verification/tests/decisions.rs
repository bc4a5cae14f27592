use ac_internal::agent_utils::{
    closest_enemy, is_trackable_target, process_next_target, PersistentEnt, Playerent,
};
use ac_internal::aimbot_utils::{
    get_best_viewangles, is_candidate_target, is_combat_ready, is_valid_target,
    update_agent_viewangles,
};
use ac_internal::esp::{
    cleanup_draw, draw_entities, draw_line_finish, draw_players, entity_box_color, gl_modes, is_usable_ent,
    player_esp_class, prepare_to_draw, EntityMark, GlCommand, PlayerMark, PlayerMarkKind, Rgb,
    GL_BLEND, GL_CULL_FACE, GL_DEPTH_TEST, GL_MODELVIEW, GL_PROJECTION, GL_TEXTURE_2D,
};
use ac_internal::selection::first_min_index;
use ac_internal::Error;

fn player(team: i32, state: u8) -> Playerent {
    Playerent { state, gun_wait: [0; 9], team }
}

fn ent(type_: u8, spawned: bool) -> PersistentEnt {
    PersistentEnt { x: 10, y: 20, z: 4, type_, spawned }
}

#[test]
fn trackable_is_other_team_or_dead() {
    let me = player(0, 0);
    assert_eq!(is_trackable_target(&me, &player(1, 0)), Ok(true));
    assert_eq!(is_trackable_target(&me, &player(0, 0)), Ok(false));
    assert_eq!(is_trackable_target(&me, &player(0, 1)), Ok(true));
}

#[test]
fn first_min_picks_first_of_equal_keys() {
    assert_eq!(first_min_index(&vec![true, true, true], &vec![5, 3, 3]), Some(1));
    assert_eq!(first_min_index(&vec![true, false, true], &vec![5, 1, 4]), Some(2));
    assert_eq!(first_min_index(&vec![false, false], &vec![1, 2]), None);
    assert_eq!(first_min_index(&vec![], &vec![]), None);
}

#[test]
fn closest_enemy_skips_teammates() {
    let me = player(0, 0);
    let players = vec![player(0, 0), player(1, 0), player(1, 0)];
    assert_eq!(closest_enemy(&me, Some(&players), &vec![1, 9, 4]), Ok(Some(2)));
    assert_eq!(closest_enemy(&me, Some(&vec![player(0, 0)]), &vec![1]), Ok(None));
    // a dead teammate is trackable but no enemy
    assert_eq!(closest_enemy(&me, Some(&vec![player(0, 1)]), &vec![1]), Ok(None));
    // a dead enemy is still an enemy
    assert_eq!(closest_enemy(&me, Some(&vec![player(1, 0), player(1, 1)]), &vec![5, 2]), Ok(Some(1)));
    assert_eq!(closest_enemy(&me, None, &vec![]), Err(Error::PlayersListError));
}

#[test]
fn process_next_target_errors() {
    let me = player(0, 0);
    let players = vec![player(1, 0)];
    assert_eq!(process_next_target(None, Some(&players), &vec![0]), Err(Error::Player1Error));
    assert_eq!(process_next_target(Some(&me), None, &vec![]), Err(Error::PlayersListError));
    assert_eq!(process_next_target(Some(&me), Some(&players), &vec![0]), Ok(Some(0)));
    let mixed = vec![player(0, 0), player(2, 0), player(0, 1)];
    assert_eq!(process_next_target(Some(&me), Some(&mixed), &vec![0, 7, 3]), Ok(Some(1)));
}

#[test]
fn combat_ready_thresholds() {
    let mut me = player(0, 0);
    assert_eq!(is_combat_ready(&me), Ok(true));
    me.gun_wait = [9999, 9999, 9999, 160, 720, 880, 80, 1500, 120];
    assert_eq!(is_combat_ready(&me), Ok(true));
    me.gun_wait[6] = 81;
    assert_eq!(is_combat_ready(&me), Ok(false));
    me.gun_wait[6] = 80;
    me.gun_wait[8] = 121;
    assert_eq!(is_combat_ready(&me), Ok(false));
    me.gun_wait[8] = 0;
    me.state = 1;
    assert_eq!(is_combat_ready(&me), Ok(false));
}

#[test]
fn combat_ready_monotone_example() {
    let mut ready = player(0, 0);
    ready.gun_wait = [0, 0, 0, 100, 700, 800, 50, 1000, 100];
    assert_eq!(is_combat_ready(&ready), Ok(true));
    let mut cooler = ready;
    cooler.gun_wait = [0, 0, 0, 10, 70, 80, 5, 100, 10];
    assert_eq!(is_combat_ready(&cooler), Ok(true));
}

#[test]
fn valid_target_needs_live_visible_enemy() {
    let me = player(0, 0);
    assert_eq!(is_valid_target(&me, &player(1, 0), Some(true)), Ok(true));
    assert_eq!(is_valid_target(&me, &player(1, 0), Some(false)), Ok(false));
    assert_eq!(is_valid_target(&me, &player(0, 0), Some(true)), Ok(false));
    assert_eq!(is_valid_target(&me, &player(1, 1), Some(true)), Ok(false));
    assert_eq!(is_valid_target(&me, &player(1, 0), None), Err(Error::TraceLineError));
    assert_eq!(is_valid_target(&me, &player(0, 0), None), Ok(false));
    assert!(is_candidate_target(&me, &player(1, 0)));
    assert!(!is_candidate_target(&me, &player(1, 1)));
}

#[test]
fn valid_target_is_trackable_example() {
    let me = player(3, 0);
    let p = player(4, 0);
    assert_eq!(is_valid_target(&me, &p, Some(true)), Ok(true));
    assert_eq!(is_trackable_target(&me, &p), Ok(true));
}

#[test]
fn valid_target_agrees_with_esp_class() {
    let me = player(0, 0);
    for p in [player(1, 0), player(0, 0), player(1, 1), player(0, 1)] {
        for v in [Some(true), Some(false), None] {
            assert_eq!(is_valid_target(&me, &p, v) == Ok(true), player_esp_class(&me, &p, v) == Ok(1));
        }
    }
}

#[test]
fn best_viewangles_choice() {
    let me = player(0, 0);
    let players = vec![player(1, 0), player(1, 0), player(0, 0), player(1, 1)];
    let vis = vec![Some(true), Some(true), Some(true), Some(true)];
    assert_eq!(get_best_viewangles(&me, &players, &vis, &vec![30, 20, 1, 1]), Ok(Some(1)));
    let vis2 = vec![Some(false), Some(true), None, None];
    assert_eq!(get_best_viewangles(&me, &players, &vis2, &vec![1, 20, 1, 1]), Ok(Some(1)));
    let vis3 = vec![None, Some(true), None, None];
    assert_eq!(get_best_viewangles(&me, &players, &vis3, &vec![1, 2, 3, 4]), Err(Error::TraceLineError));
    let mut busy = me;
    busy.gun_wait[3] = 161;
    assert_eq!(get_best_viewangles(&busy, &players, &vis3, &vec![1, 2, 3, 4]), Ok(None));
    let dead = player(0, 1);
    assert_eq!(get_best_viewangles(&dead, &players, &vis, &vec![1, 2, 3, 4]), Ok(None));
}

#[test]
fn update_viewangles_errors_and_choice() {
    let me = player(0, 0);
    let players = vec![player(1, 0)];
    let vis = vec![Some(true)];
    assert_eq!(update_agent_viewangles(None, Some(&players), &vis, &vec![0]), Err(Error::Player1Error));
    assert_eq!(update_agent_viewangles(Some(&me), None, &vis, &vec![0]), Err(Error::PlayersListError));
    assert_eq!(update_agent_viewangles(Some(&me), Some(&players), &vis, &vec![0]), Ok(Some(0)));
}

#[test]
fn esp_classes() {
    let me = player(0, 0);
    assert_eq!(player_esp_class(&me, &player(1, 1), None), Ok(-1));
    assert_eq!(player_esp_class(&me, &player(1, 0), Some(false)), Ok(0));
    assert_eq!(player_esp_class(&me, &player(1, 0), Some(true)), Ok(1));
    assert_eq!(player_esp_class(&me, &player(0, 0), Some(false)), Ok(2));
    assert_eq!(player_esp_class(&me, &player(0, 0), Some(true)), Ok(3));
    assert_eq!(player_esp_class(&me, &player(0, 0), None), Err(Error::TraceLineError));
}

#[test]
fn player_marks_only_out_of_sight() {
    let me = player(0, 0);
    let players = vec![player(1, 0), player(0, 0), player(1, 0), player(0, 1), player(0, 0), player(1, 0)];
    let vis = vec![Some(false), Some(false), Some(true), Some(false), Some(true), None];
    let marks = draw_players(Some(&me), Some(&players), &vis).unwrap();
    assert_eq!(
        marks,
        vec![
            PlayerMark { index: 0, kind: PlayerMarkKind::BoundingBox, color: Rgb { r: 255, g: 0, b: 0 } },
            PlayerMark { index: 1, kind: PlayerMarkKind::Skeleton, color: Rgb { r: 0, g: 255, b: 0 } },
        ]
    );
    assert_eq!(draw_players(None, Some(&players), &vis), Err(Error::Player1Error));
    assert_eq!(draw_players(Some(&me), None, &vis), Err(Error::PlayersListError));
}

#[test]
fn usable_entities() {
    assert_eq!(is_usable_ent(&ent(2, true)), Ok(false));
    assert_eq!(is_usable_ent(&ent(3, true)), Ok(true));
    assert_eq!(is_usable_ent(&ent(9, true)), Ok(true));
    assert_eq!(is_usable_ent(&ent(10, true)), Ok(false));
    assert_eq!(is_usable_ent(&ent(5, false)), Ok(false));
}

#[test]
fn entity_colors() {
    assert_eq!(entity_box_color(3), Rgb { r: 255, g: 0, b: 255 });
    assert_eq!(entity_box_color(4), Rgb { r: 255, g: 0, b: 255 });
    assert_eq!(entity_box_color(6), Rgb { r: 0, g: 255, b: 0 });
    assert_eq!(entity_box_color(9), Rgb { r: 0, g: 0, b: 255 });
    assert_eq!(entity_box_color(7), Rgb { r: 255, g: 255, b: 255 });
}

#[test]
fn entity_marks() {
    let ents = vec![ent(1, true), ent(4, true), ent(6, false), ent(9, true), ent(8, true)];
    assert_eq!(
        draw_entities(Some(&ents)),
        Ok(vec![
            EntityMark { index: 1, color: Rgb { r: 255, g: 0, b: 255 } },
            EntityMark { index: 3, color: Rgb { r: 0, g: 0, b: 255 } },
            EntityMark { index: 4, color: Rgb { r: 255, g: 255, b: 255 } },
        ])
    );
    assert_eq!(draw_entities(None), Err(Error::EntsListError));
}

#[test]
fn gl_enumerants() {
    let m = gl_modes();
    assert_eq!(m.gl_blend, 0x0BE2);
    assert_eq!(m.gl_texture_2d, 0x0DE1);
    assert_eq!(m.gl_line_loop, 2);
    assert_eq!(m.gl_depth_test, 0x0B71);
    assert_eq!(m.gl_cull_face, 0x0B44);
}

#[test]
fn gl_setup_and_teardown() {
    let prep = prepare_to_draw(Some((800, 600)));
    assert_eq!(prep.len(), 11);
    assert_eq!(prep[7], GlCommand::Ortho { width: 800, height: 600 });
    assert_eq!(prepare_to_draw(None).len(), 10);
    let clean = cleanup_draw();
    assert_eq!(
        clean,
        vec![
            GlCommand::Enable(GL_BLEND),
            GlCommand::Enable(GL_TEXTURE_2D),
            GlCommand::Enable(GL_DEPTH_TEST),
            GlCommand::Enable(GL_CULL_FACE),
            GlCommand::MatrixMode(GL_MODELVIEW),
            GlCommand::PopMatrix,
            GlCommand::MatrixMode(GL_PROJECTION),
            GlCommand::PopMatrix,
        ]
    );
}

#[test]
fn gl_pushes_balance_pops() {
    let prep = prepare_to_draw(Some((1024, 768)));
    let clean = cleanup_draw();
    let pushes = prep.iter().filter(|c| **c == GlCommand::PushMatrix).count();
    let pops = clean.iter().filter(|c| **c == GlCommand::PopMatrix).count();
    assert_eq!(pushes, pops);
    for cap in [GL_BLEND, GL_TEXTURE_2D, GL_DEPTH_TEST, GL_CULL_FACE] {
        assert!(prep.contains(&GlCommand::Disable(cap)));
        assert!(clean.contains(&GlCommand::Enable(cap)));
    }
}

#[test]
fn line_finish_reenables_texturing_and_blending() {
    assert_eq!(
        draw_line_finish(),
        vec![GlCommand::Enable(GL_TEXTURE_2D), GlCommand::Enable(GL_BLEND)]
    );
}
