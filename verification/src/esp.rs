use vstd::prelude::*;

use crate::agent_utils::{PersistentEnt, Playerent, STATE_DEAD};
use crate::err::Error;

verus! {

/// The OpenGL enumerants the drawing code uses.
pub struct GlModes {
    pub gl_blend: u32,
    pub gl_texture_2d: u32,
    pub gl_line_loop: i32,
    pub gl_depth_test: u32,
    pub gl_cull_face: u32,
}

/// `GL_BLEND`.
pub const GL_BLEND: u32 = 0x0BE2;

/// `GL_TEXTURE_2D`.
pub const GL_TEXTURE_2D: u32 = 0x0DE1;

/// `GL_LINE_LOOP`.
pub const GL_LINE_LOOP: i32 = 0x0002;

/// `GL_DEPTH_TEST`.
pub const GL_DEPTH_TEST: u32 = 0x0B71;

/// `GL_CULL_FACE`.
pub const GL_CULL_FACE: u32 = 0x0B44;

/// `GL_MODELVIEW`.
pub const GL_MODELVIEW: i32 = 0x1700;

/// `GL_PROJECTION`.
pub const GL_PROJECTION: i32 = 0x1701;

/// The enumerants the drawing code uses.
pub fn gl_modes() -> (m: GlModes)
    ensures
        m.gl_blend == GL_BLEND,
        m.gl_texture_2d == GL_TEXTURE_2D,
        m.gl_line_loop == GL_LINE_LOOP,
        m.gl_depth_test == GL_DEPTH_TEST,
        m.gl_cull_face == GL_CULL_FACE,
{
    GlModes {
        gl_blend: GL_BLEND,
        gl_texture_2d: GL_TEXTURE_2D,
        gl_line_loop: GL_LINE_LOOP,
        gl_depth_test: GL_DEPTH_TEST,
        gl_cull_face: GL_CULL_FACE,
    }
}

/// One fixed-function OpenGL call of the drawing set-up and tear-down.
#[derive(Clone, Copy, Debug, PartialEq, Eq, Structural)]
pub enum GlCommand {
    Disable(u32),
    Enable(u32),
    MatrixMode(i32),
    PushMatrix,
    PopMatrix,
    LoadIdentity,
    /// `glOrtho(0, width, height, 0, -1, 1)`: screen pixels, origin top left.
    Ortho { width: i32, height: i32 },
}

/// The calls that prepare 2D drawing: blending, texturing, depth testing and
/// face culling off; a fresh projection mapping screen pixels (when the
/// screen size is known) and a fresh model-view matrix, each pushed so that
/// the previous one can be restored.
pub open spec fn prepare_commands(screen: Option<(i32, i32)>) -> Seq<GlCommand> {
    seq![
        GlCommand::Disable(GL_BLEND),
        GlCommand::Disable(GL_TEXTURE_2D),
        GlCommand::Disable(GL_DEPTH_TEST),
        GlCommand::Disable(GL_CULL_FACE),
        GlCommand::MatrixMode(GL_PROJECTION),
        GlCommand::PushMatrix,
        GlCommand::LoadIdentity,
    ] + match screen {
        Some((w, h)) => seq![GlCommand::Ortho { width: w, height: h }],
        None => Seq::<GlCommand>::empty(),
    } + seq![GlCommand::MatrixMode(GL_MODELVIEW), GlCommand::PushMatrix, GlCommand::LoadIdentity]
}

/// The calls that end a line before the tear-down: texturing and blending
/// switched back on.
pub open spec fn line_finish_commands() -> Seq<GlCommand> {
    seq![GlCommand::Enable(GL_TEXTURE_2D), GlCommand::Enable(GL_BLEND)]
}

/// The calls that end 2D drawing: the four capabilities back on, and the
/// model-view and projection matrices popped.
pub open spec fn cleanup_commands() -> Seq<GlCommand> {
    seq![
        GlCommand::Enable(GL_BLEND),
        GlCommand::Enable(GL_TEXTURE_2D),
        GlCommand::Enable(GL_DEPTH_TEST),
        GlCommand::Enable(GL_CULL_FACE),
        GlCommand::MatrixMode(GL_MODELVIEW),
        GlCommand::PopMatrix,
        GlCommand::MatrixMode(GL_PROJECTION),
        GlCommand::PopMatrix,
    ]
}

/// The calls to make before drawing; `screen` is the screen's width and
/// height, or `None` when the game's screen size is not known.
pub fn prepare_to_draw(screen: Option<(i32, i32)>) -> (cmds: Vec<GlCommand>)
    ensures
        cmds@ == prepare_commands(screen),
{
    let mut cmds: Vec<GlCommand> = Vec::new();
    cmds.push(GlCommand::Disable(GL_BLEND));
    cmds.push(GlCommand::Disable(GL_TEXTURE_2D));
    cmds.push(GlCommand::Disable(GL_DEPTH_TEST));
    cmds.push(GlCommand::Disable(GL_CULL_FACE));
    cmds.push(GlCommand::MatrixMode(GL_PROJECTION));
    cmds.push(GlCommand::PushMatrix);
    cmds.push(GlCommand::LoadIdentity);
    if let Some((width, height)) = screen {
        cmds.push(GlCommand::Ortho { width, height });
    }
    cmds.push(GlCommand::MatrixMode(GL_MODELVIEW));
    cmds.push(GlCommand::PushMatrix);
    cmds.push(GlCommand::LoadIdentity);
    assert(cmds@ =~= prepare_commands(screen));
    cmds
}

/// The calls a line makes after its vertices, before the tear-down.
pub fn draw_line_finish() -> (cmds: Vec<GlCommand>)
    ensures
        cmds@ == line_finish_commands(),
{
    let mut cmds: Vec<GlCommand> = Vec::new();
    cmds.push(GlCommand::Enable(GL_TEXTURE_2D));
    cmds.push(GlCommand::Enable(GL_BLEND));
    assert(cmds@ =~= line_finish_commands());
    cmds
}

/// The calls to make after drawing.
pub fn cleanup_draw() -> (cmds: Vec<GlCommand>)
    ensures
        cmds@ == cleanup_commands(),
{
    let mut cmds: Vec<GlCommand> = Vec::new();
    cmds.push(GlCommand::Enable(GL_BLEND));
    cmds.push(GlCommand::Enable(GL_TEXTURE_2D));
    cmds.push(GlCommand::Enable(GL_DEPTH_TEST));
    cmds.push(GlCommand::Enable(GL_CULL_FACE));
    cmds.push(GlCommand::MatrixMode(GL_MODELVIEW));
    cmds.push(GlCommand::PopMatrix);
    cmds.push(GlCommand::MatrixMode(GL_PROJECTION));
    cmds.push(GlCommand::PopMatrix);
    assert(cmds@ =~= cleanup_commands());
    cmds
}

} // verus!

verus! {

/// A colour with full or no intensity per channel, as the drawing code uses
/// them (255 is full).
#[derive(Clone, Copy, Debug, PartialEq, Eq, Structural)]
pub struct Rgb {
    pub r: u8,
    pub g: u8,
    pub b: u8,
}

/// The ESP class of a player seen from `player1`: -1 for a dead player;
/// otherwise 2 for a teammate (0 for an enemy), plus 1 when in sight.
/// `visible` is the outcome of the line-of-sight test, `None` when the game
/// function is missing, which fails the classification of a live player.
pub open spec fn esp_class(player1: Playerent, player: Playerent, visible: Option<bool>) -> Result<
    i32,
    Error,
> {
    if player.state == STATE_DEAD {
        Ok(-1i32)
    } else {
        match visible {
            None => Err(Error::TraceLineError),
            Some(v) => Ok(
                if player.team == player1.team {
                    if v { 3i32 } else { 2i32 }
                } else {
                    if v { 1i32 } else { 0i32 }
                },
            ),
        }
    }
}

/// Classifies `player` for the ESP overlay (see [`esp_class`]).
pub fn player_esp_class(player1: &Playerent, player: &Playerent, visible: Option<bool>) -> (r: Result<
    i32,
    Error,
>)
    ensures
        r == esp_class(*player1, *player, visible),
{
    let mut state: i32 = -1;
    if player.state == STATE_DEAD {
        return Ok(state);
    } else {
        state = 0;
    }
    if player.team == player1.team {
        state += 2;
    }
    match visible {
        Some(result) => {
            if result {
                state += 1;
            }
        },
        None => {
            return Err(Error::TraceLineError);
        },
    }
    Ok(state)
}

/// An entity is drawn when it is one of the pickup kinds 3 to 9 and is
/// currently spawned.
pub open spec fn usable_ent(ent: PersistentEnt) -> bool {
    ent.type_ > 2 && ent.type_ < 10 && ent.spawned
}

/// Whether `ent` gets a box on the overlay. It never fails.
pub fn is_usable_ent(ent: &PersistentEnt) -> (r: Result<bool, Error>)
    ensures
        r == Ok::<bool, Error>(usable_ent(*ent)),
{
    let type_ = ent.type_;
    if type_ > 2 && type_ < 10 && ent.spawned {
        return Ok(true);
    } else {
        return Ok(false);
    }
}

/// The colour of an entity's box by kind: magenta for kinds 3 and 4, green
/// for 6, blue for 9, white otherwise.
pub open spec fn ent_color(type_: u8) -> Rgb {
    if type_ == 4 || type_ == 3 {
        Rgb { r: 255, g: 0, b: 255 }
    } else if type_ == 6 {
        Rgb { r: 0, g: 255, b: 0 }
    } else if type_ == 9 {
        Rgb { r: 0, g: 0, b: 255 }
    } else {
        Rgb { r: 255, g: 255, b: 255 }
    }
}

/// The box colour for an entity of kind `type_`: white, with the channels
/// that the kind takes out set to zero.
pub fn entity_box_color(type_: u8) -> (c: Rgb)
    ensures
        c == ent_color(type_),
{
    let mut color = Rgb { r: 255, g: 255, b: 255 };
    if type_ == 4 || type_ == 3 {
        color.g = color.g - 255;
    }
    if type_ == 6 {
        color.r = color.r - 255;
        color.b = color.b - 255;
    }
    if type_ == 9 {
        color.r = color.r - 255;
        color.g = color.g - 255;
    }
    color
}

/// A box to draw around entity `index` of the entity list.
#[derive(Clone, Copy, Debug, PartialEq, Eq, Structural)]
pub struct EntityMark {
    pub index: usize,
    pub color: Rgb,
}

/// The boxes for the entities `ents`, in list order: one per usable entity,
/// coloured by kind.
pub open spec fn entity_marks(ents: Seq<PersistentEnt>) -> Seq<EntityMark>
    decreases ents.len(),
{
    if ents.len() == 0 {
        Seq::empty()
    } else {
        let last = (ents.len() - 1) as int;
        entity_marks(ents.drop_last()) + if usable_ent(ents[last]) {
            seq![EntityMark { index: last as usize, color: ent_color(ents[last].type_) }]
        } else {
            Seq::empty()
        }
    }
}

/// The entity part of the overlay: fails when the entity list is missing,
/// and otherwise yields the boxes to draw, in list order.
pub fn draw_entities(ents: Option<&Vec<PersistentEnt>>) -> (r: Result<Vec<EntityMark>, Error>)
    ensures
        ents is None ==> r is Err && r->Err_0 == Error::EntsListError,
        ents matches Some(v) ==> r is Ok && r->Ok_0@ == entity_marks(v@),
{
    let ents = match ents {
        Some(v) => v,
        None => {
            return Err(Error::EntsListError);
        },
    };
    let mut marks: Vec<EntityMark> = Vec::new();
    let mut i: usize = 0;
    while i < ents.len()
        invariant
            0 <= i <= ents.len(),
            marks@ == entity_marks(ents@.take(i as int)),
        decreases ents.len() - i,
    {
        assert(ents@.take(i + 1).drop_last() =~= ents@.take(i as int));
        match is_usable_ent(&ents[i]) {
            Ok(true) => {
                let color = entity_box_color(ents[i].type_);
                marks.push(EntityMark { index: i, color });
            },
            Ok(false) => {},
            Err(_) => {},
        }
        assert(marks@ =~= entity_marks(ents@.take(i + 1)));
        i = i + 1;
    }
    assert(ents@.take(ents.len() as int) =~= ents@);
    Ok(marks)
}

/// How a player is marked on the overlay.
#[derive(Clone, Copy, Debug, PartialEq, Eq, Structural)]
pub enum PlayerMarkKind {
    /// A box from the feet to above the head.
    BoundingBox,
    /// A line from the feet to the head.
    Skeleton,
}

/// A mark to draw on player `index` of the player list.
#[derive(Clone, Copy, Debug, PartialEq, Eq, Structural)]
pub struct PlayerMark {
    pub index: usize,
    pub kind: PlayerMarkKind,
    pub color: Rgb,
}

/// The mark for a player of ESP class `class`, at `index`: a red box on a
/// live enemy out of sight, a green skeleton on a live teammate out of
/// sight, nothing on anyone else or when classification failed.
pub open spec fn class_mark(class: Result<i32, Error>, index: int) -> Seq<PlayerMark> {
    if class == Ok::<i32, Error>(0) {
        seq![PlayerMark { index: index as usize, kind: PlayerMarkKind::BoundingBox, color: Rgb { r: 255, g: 0, b: 0 } }]
    } else if class == Ok::<i32, Error>(2) {
        seq![PlayerMark { index: index as usize, kind: PlayerMarkKind::Skeleton, color: Rgb { r: 0, g: 255, b: 0 } }]
    } else {
        Seq::empty()
    }
}

/// The marks for `players` seen from `player1`, in list order.
pub open spec fn player_marks(
    player1: Playerent,
    players: Seq<Playerent>,
    visibility: Seq<Option<bool>>,
) -> Seq<PlayerMark>
    decreases players.len(),
{
    if players.len() == 0 {
        Seq::empty()
    } else {
        let last = (players.len() - 1) as int;
        player_marks(player1, players.drop_last(), visibility) + class_mark(
            esp_class(player1, players[last], visibility[last]),
            last,
        )
    }
}

/// The player part of the overlay: fails when the local player or the player
/// list is missing, and otherwise yields the marks to draw, in list order.
/// `visibility[j]` is the outcome of the line-of-sight test for `players[j]`.
pub fn draw_players(
    player1: Option<&Playerent>,
    players: Option<&Vec<Playerent>>,
    visibility: &Vec<Option<bool>>,
) -> (r: Result<Vec<PlayerMark>, Error>)
    requires
        players matches Some(v) ==> v.len() == visibility.len(),
    ensures
        player1 is None ==> r is Err && r->Err_0 == Error::Player1Error,
        player1 is Some && players is None ==> r is Err && r->Err_0 == Error::PlayersListError,
        player1 matches Some(p) ==> (players matches Some(v) ==> r is Ok && r->Ok_0@
            == player_marks(*p, v@, visibility@)),
{
    let player1 = match player1 {
        Some(p) => p,
        None => {
            return Err(Error::Player1Error);
        },
    };
    let players = match players {
        Some(v) => v,
        None => {
            return Err(Error::PlayersListError);
        },
    };
    let mut marks: Vec<PlayerMark> = Vec::new();
    let mut i: usize = 0;
    while i < players.len()
        invariant
            players.len() == visibility.len(),
            0 <= i <= players.len(),
            marks@ == player_marks(*player1, players@.take(i as int), visibility@),
        decreases players.len() - i,
    {
        assert(players@.take(i + 1).drop_last() =~= players@.take(i as int));
        let class = player_esp_class(player1, &players[i], visibility[i]);
        match class {
            Ok(result) => {
                if result == 0 {
                    marks.push(
                        PlayerMark {
                            index: i,
                            kind: PlayerMarkKind::BoundingBox,
                            color: Rgb { r: 255, g: 0, b: 0 },
                        },
                    );
                }
                if result == 2 {
                    marks.push(
                        PlayerMark {
                            index: i,
                            kind: PlayerMarkKind::Skeleton,
                            color: Rgb { r: 0, g: 255, b: 0 },
                        },
                    );
                }
            },
            Err(_) => {},
        }
        assert(marks@ =~= player_marks(*player1, players@.take(i + 1), visibility@));
        i = i + 1;
    }
    assert(players@.take(players.len() as int) =~= players@);
    Ok(marks)
}

} // verus!
