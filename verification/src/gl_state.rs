use vstd::prelude::*;

use crate::esp::{
    cleanup_commands, prepare_commands, GlCommand, GL_BLEND, GL_CULL_FACE, GL_DEPTH_TEST,
    GL_MODELVIEW, GL_PROJECTION, GL_TEXTURE_2D,
};

verus! {

/// A matrix, written as the calls that built it: a stack entry that was
/// there before is some sequence, `LoadIdentity` starts a new one, `Ortho`
/// multiplies onto it.
pub type MatrixWord = Seq<GlCommand>;

/// The part of the fixed-function state that drawing touches: the current
/// matrix mode, the projection and model-view matrix stacks (top last), and
/// the set of disabled capabilities.
pub struct GlState {
    pub mode: i32,
    pub projection: Seq<MatrixWord>,
    pub modelview: Seq<MatrixWord>,
    pub disabled: Set<u32>,
}

/// The top of `stack` after the matrix call `c`: `LoadIdentity` replaces it,
/// any other call is multiplied onto it. An empty stack stays empty.
pub open spec fn map_top(stack: Seq<MatrixWord>, c: GlCommand) -> Seq<MatrixWord> {
    if stack.len() == 0 {
        stack
    } else {
        let top = stack.last();
        let new_top = match c {
            GlCommand::LoadIdentity => seq![GlCommand::LoadIdentity],
            _ => top.push(c),
        };
        stack.update(stack.len() - 1, new_top)
    }
}

/// The effect of one call on a matrix stack.
pub open spec fn stack_step(stack: Seq<MatrixWord>, c: GlCommand) -> Seq<MatrixWord> {
    match c {
        GlCommand::PushMatrix => if stack.len() == 0 {
            stack
        } else {
            stack.push(stack.last())
        },
        GlCommand::PopMatrix => if stack.len() <= 1 {
            stack
        } else {
            stack.drop_last()
        },
        GlCommand::LoadIdentity => map_top(stack, c),
        GlCommand::Ortho { .. } => map_top(stack, c),
        _ => stack,
    }
}

/// The effect of one call on the drawing state. A push or pop that the
/// stack cannot take is an error that leaves it as it was.
pub open spec fn gl_step(s: GlState, c: GlCommand) -> GlState {
    match c {
        GlCommand::Disable(cap) => GlState { disabled: s.disabled.insert(cap), ..s },
        GlCommand::Enable(cap) => GlState { disabled: s.disabled.remove(cap), ..s },
        GlCommand::MatrixMode(m) => GlState { mode: m, ..s },
        _ => if s.mode == GL_PROJECTION {
            GlState { projection: stack_step(s.projection, c), ..s }
        } else if s.mode == GL_MODELVIEW {
            GlState { modelview: stack_step(s.modelview, c), ..s }
        } else {
            s
        },
    }
}

/// The state after the calls `cmds`, in order.
pub open spec fn gl_run(s: GlState, cmds: Seq<GlCommand>) -> GlState
    decreases cmds.len(),
{
    if cmds.len() == 0 {
        s
    } else {
        gl_run(gl_step(s, cmds[0]), cmds.drop_first())
    }
}

/// The four capabilities that 2D drawing switches off.
pub open spec fn drawing_caps() -> Set<u32> {
    set![GL_BLEND, GL_TEXTURE_2D, GL_DEPTH_TEST, GL_CULL_FACE]
}

proof fn lemma_run_append(s: GlState, a: Seq<GlCommand>, b: Seq<GlCommand>)
    ensures
        gl_run(s, a + b) == gl_run(gl_run(s, a), b),
    decreases a.len(),
{
    if a.len() == 0 {
        assert(a + b =~= b);
    } else {
        assert((a + b).drop_first() =~= a.drop_first() + b);
        lemma_run_append(gl_step(s, a[0]), a.drop_first(), b);
    }
}

/// While drawing, coordinates are screen pixels: after the set-up calls the
/// model-view matrix is the identity, the projection is the screen's
/// orthographic mapping (or the identity when the screen size is unknown),
/// the previous matrices are saved beneath them, the model-view stack is
/// current and the four capabilities are off. This holds from any state in
/// which both matrix stacks hold a matrix.
pub proof fn law_prepare_sets_screen_space(s: GlState, screen: Option<(i32, i32)>)
    requires
        s.projection.len() >= 1,
        s.modelview.len() >= 1,
    ensures
        ({
            let t = gl_run(s, prepare_commands(screen));
            &&& t.mode == GL_MODELVIEW
            &&& t.modelview == s.modelview.push(seq![GlCommand::LoadIdentity])
            &&& t.projection == s.projection.push(
                match screen {
                    Some((w, h)) => seq![
                        GlCommand::LoadIdentity,
                        GlCommand::Ortho { width: w, height: h },
                    ],
                    None => seq![GlCommand::LoadIdentity],
                },
            )
            &&& t.disabled == s.disabled.union(drawing_caps())
        }),
{
    let caps = seq![
        GlCommand::Disable(GL_BLEND),
        GlCommand::Disable(GL_TEXTURE_2D),
        GlCommand::Disable(GL_DEPTH_TEST),
        GlCommand::Disable(GL_CULL_FACE),
    ];
    let proj = seq![GlCommand::MatrixMode(GL_PROJECTION), GlCommand::PushMatrix, GlCommand::LoadIdentity];
    let ortho = match screen {
        Some((w, h)) => seq![GlCommand::Ortho { width: w, height: h }],
        None => Seq::<GlCommand>::empty(),
    };
    let mv = seq![GlCommand::MatrixMode(GL_MODELVIEW), GlCommand::PushMatrix, GlCommand::LoadIdentity];
    assert(prepare_commands(screen) =~= caps + proj + ortho + mv);
    lemma_run_append(s, caps + proj + ortho, mv);
    lemma_run_append(s, caps + proj, ortho);
    lemma_run_append(s, caps, proj);
    reveal_with_fuel(gl_run, 5);
    let s1 = gl_run(s, caps);
    assert(s1.disabled =~= s.disabled.union(drawing_caps()));
    assert(s1.projection == s.projection);
    assert(s1.modelview == s.modelview);
    let s2 = gl_run(s1, proj);
    assert(s2.mode == GL_PROJECTION);
    assert(s2.projection =~= s.projection.push(seq![GlCommand::LoadIdentity]));
    let s3 = gl_run(s2, ortho);
    let s4 = gl_run(s3, mv);
    assert(s3.mode == GL_PROJECTION);
    match screen {
        Some((w, h)) => {
            assert(seq![GlCommand::LoadIdentity].push(GlCommand::Ortho { width: w, height: h })
                =~= seq![GlCommand::LoadIdentity, GlCommand::Ortho { width: w, height: h }]);
            assert(s3.projection =~= s.projection.push(
                seq![GlCommand::LoadIdentity, GlCommand::Ortho { width: w, height: h }],
            ));
        },
        None => {
            assert(s3 == s2);
        },
    }
    assert(s4.modelview =~= s.modelview.push(seq![GlCommand::LoadIdentity]));
}

/// Every call of `cmds` switches one of the four drawing capabilities on or
/// off, as drawing does between set-up and tear-down (a line switches
/// texturing and blending back on); the vertex, colour and line-width calls
/// of a drawing touch none of the state modelled here.
pub open spec fn caps_only(cmds: Seq<GlCommand>) -> bool {
    forall|i: int|
        0 <= i < cmds.len() ==> match #[trigger] cmds[i] {
            GlCommand::Enable(c) => drawing_caps().contains(c),
            GlCommand::Disable(c) => drawing_caps().contains(c),
            _ => false,
        }
}

/// Calls that only switch the drawing capabilities keep the matrices and
/// the mode, and every other capability.
proof fn lemma_caps_only(t: GlState, cmds: Seq<GlCommand>)
    requires
        caps_only(cmds),
    ensures
        gl_run(t, cmds).mode == t.mode,
        gl_run(t, cmds).projection == t.projection,
        gl_run(t, cmds).modelview == t.modelview,
        gl_run(t, cmds).disabled.difference(drawing_caps()) == t.disabled.difference(
            drawing_caps(),
        ),
    decreases cmds.len(),
{
    if cmds.len() > 0 {
        let c = cmds[0];
        assert(caps_only(cmds.drop_first())) by {
            assert forall|i: int| 0 <= i < cmds.drop_first().len() implies match #[trigger] cmds.drop_first()[i] {
                GlCommand::Enable(c) => drawing_caps().contains(c),
                GlCommand::Disable(c) => drawing_caps().contains(c),
                _ => false,
            } by {
                assert(cmds.drop_first()[i] == cmds[i + 1]);
            }
        }
        let t1 = gl_step(t, c);
        lemma_caps_only(t1, cmds.drop_first());
        match c {
            GlCommand::Enable(cap) => {
                assert(t1.disabled.difference(drawing_caps()) =~= t.disabled.difference(drawing_caps()));
            },
            GlCommand::Disable(cap) => {
                assert(t1.disabled.difference(drawing_caps()) =~= t.disabled.difference(drawing_caps()));
            },
            _ => {},
        }
    }
}

/// Drawing leaves the state as it found it: the set-up calls, then any
/// calls that only switch the drawing capabilities (as drawing a line does),
/// then the tear-down calls restore both matrix stacks exactly, leave the
/// four capabilities switched on (and every other capability as it was),
/// and end in projection mode. This holds from any state in which both
/// matrix stacks hold a matrix.
pub proof fn law_cleanup_restores_state(s: GlState, screen: Option<(i32, i32)>, drawing: Seq<GlCommand>)
    requires
        s.projection.len() >= 1,
        s.modelview.len() >= 1,
        caps_only(drawing),
    ensures
        ({
            let t = gl_run(s, prepare_commands(screen) + drawing + cleanup_commands());
            &&& t.projection == s.projection
            &&& t.modelview == s.modelview
            &&& t.disabled == s.disabled.difference(drawing_caps())
            &&& t.mode == GL_PROJECTION
        }),
{
    law_prepare_sets_screen_space(s, screen);
    lemma_run_append(s, prepare_commands(screen) + drawing, cleanup_commands());
    lemma_run_append(s, prepare_commands(screen), drawing);
    let p0 = gl_run(s, prepare_commands(screen));
    lemma_caps_only(p0, drawing);
    let p = gl_run(p0, drawing);
    assert(p.disabled.difference(drawing_caps()) =~= s.disabled.difference(drawing_caps()));
    let en = seq![
        GlCommand::Enable(GL_BLEND),
        GlCommand::Enable(GL_TEXTURE_2D),
        GlCommand::Enable(GL_DEPTH_TEST),
        GlCommand::Enable(GL_CULL_FACE),
    ];
    let mvpop = seq![GlCommand::MatrixMode(GL_MODELVIEW), GlCommand::PopMatrix];
    let prpop = seq![GlCommand::MatrixMode(GL_PROJECTION), GlCommand::PopMatrix];
    assert(cleanup_commands() =~= en + mvpop + prpop);
    lemma_run_append(p, en + mvpop, prpop);
    lemma_run_append(p, en, mvpop);
    reveal_with_fuel(gl_run, 5);
    let q1 = gl_run(p, en);
    assert(q1.disabled =~= p.disabled.difference(drawing_caps()));
    let q2 = gl_run(q1, mvpop);
    assert(q2.modelview =~= s.modelview);
    let q3 = gl_run(q2, prpop);
    assert(q3.projection =~= s.projection);
}

/// A line switches texturing and blending back on before the tear-down, and
/// those calls only switch drawing capabilities.
pub proof fn law_line_finish_is_caps_only()
    ensures
        caps_only(crate::esp::line_finish_commands()),
{
    let cmds = crate::esp::line_finish_commands();
    assert forall|i: int| 0 <= i < cmds.len() implies match #[trigger] cmds[i] {
        GlCommand::Enable(c) => drawing_caps().contains(c),
        GlCommand::Disable(c) => drawing_caps().contains(c),
        _ => false,
    } by {
        assert(drawing_caps().contains(GL_TEXTURE_2D));
        assert(drawing_caps().contains(GL_BLEND));
    }
}

} // verus!
