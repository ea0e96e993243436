//! A scene of either concrete kind, and the caller-level fallback policy.
//!
//! Hosts that do not care which kind of scene they drive hold an
//! `AnyScene`; pattern access recovers the concrete variant for
//! inspection. The fallback policy lives here too: prefer a state machine,
//! and where none can be instantiated, let the bare artboard itself be the
//! scene.

use vstd::prelude::*;

use crate::artboard::Artboard;
use crate::instantiate::{Handle, Instantiate};
use crate::renderer::{stack_depth, RenderCommand, Renderer};
use crate::scene::{Loop, PointerKind, Scene, SceneBacking, SceneError, SceneState, Viewport};
use crate::state_machine::{resolve_machine, StateMachine};

verus! {

/// Either a bare artboard or a state-machine-driven scene.
#[derive(Debug)]
pub enum AnyScene {
    Artboard(Artboard),
    Machine(StateMachine),
}

impl AnyScene {
    /// The preferred-then-fallback instantiation chain: a scene backed by
    /// the machine the handle denotes, or, when the handle resolves to no
    /// machine, the bare artboard's own scene, unchanged.
    pub fn machine_or_artboard(artboard: Artboard, handle: Handle) -> (r: AnyScene)
        requires
            artboard.wf(),
        ensures
            (match r {
                AnyScene::Machine(m) => <StateMachine as Instantiate>::resolves_to(
                    &artboard,
                    handle,
                    Some(m),
                ),
                AnyScene::Artboard(a) => resolve_machine(artboard.data(), handle) is None && a
                    == artboard,
            }),
            r.wf(),
    {
        match StateMachine::instantiate(&artboard, handle) {
            Some(m) => AnyScene::Machine(m),
            None => AnyScene::Artboard(artboard),
        }
    }

    /// The bare artboard behind this scene, when that is what it is.
    pub fn as_artboard(&self) -> (r: Option<&Artboard>)
        ensures
            (match self {
                AnyScene::Artboard(a) => r == Some(a),
                AnyScene::Machine(_) => r is None,
            }),
    {
        match self {
            AnyScene::Artboard(a) => Some(a),
            AnyScene::Machine(_) => None,
        }
    }

    /// The state machine behind this scene, when that is what it is.
    pub fn as_machine(&self) -> (r: Option<&StateMachine>)
        ensures
            (match self {
                AnyScene::Machine(m) => r == Some(m),
                AnyScene::Artboard(_) => r is None,
            }),
    {
        match self {
            AnyScene::Machine(m) => Some(m),
            AnyScene::Artboard(_) => None,
        }
    }
}

/// Fallback behaviour: when no state machine can be instantiated, the
/// scene the fallback chain produces is the bare artboard's own scene; its
/// size and name are the artboard's.
pub proof fn lemma_fallback_is_artboard_scene(artboard: Artboard, r: AnyScene)
    requires
        r == AnyScene::Artboard(artboard),
    ensures
        r.spec_width() == artboard.spec_width(),
        r.spec_height() == artboard.spec_height(),
        r.spec_name() == artboard.spec_name(),
        r.spec_loop() == artboard.spec_loop(),
        r.spec_duration() == artboard.spec_duration(),
{
}

impl Scene for AnyScene {
    open spec fn wf(&self) -> bool {
        match self {
            AnyScene::Artboard(a) => a.wf(),
            AnyScene::Machine(m) => m.wf(),
        }
    }

    open spec fn spec_width(&self) -> u32 {
        match self {
            AnyScene::Artboard(a) => a.spec_width(),
            AnyScene::Machine(m) => m.spec_width(),
        }
    }

    open spec fn spec_height(&self) -> u32 {
        match self {
            AnyScene::Artboard(a) => a.spec_height(),
            AnyScene::Machine(m) => m.spec_height(),
        }
    }

    open spec fn spec_name(&self) -> Seq<u8> {
        match self {
            AnyScene::Artboard(a) => a.spec_name(),
            AnyScene::Machine(m) => m.spec_name(),
        }
    }

    open spec fn spec_loop(&self) -> Loop {
        match self {
            AnyScene::Artboard(a) => a.spec_loop(),
            AnyScene::Machine(m) => m.spec_loop(),
        }
    }

    open spec fn spec_translucent(&self) -> bool {
        match self {
            AnyScene::Artboard(a) => a.spec_translucent(),
            AnyScene::Machine(m) => m.spec_translucent(),
        }
    }

    open spec fn spec_duration(&self) -> Option<u64> {
        match self {
            AnyScene::Artboard(a) => a.spec_duration(),
            AnyScene::Machine(m) => m.spec_duration(),
        }
    }

    open spec fn backing(&self) -> SceneBacking {
        match self {
            AnyScene::Artboard(a) => a.backing(),
            AnyScene::Machine(m) => m.backing(),
        }
    }

    open spec fn state(&self) -> SceneState {
        match self {
            AnyScene::Artboard(a) => a.state(),
            AnyScene::Machine(m) => m.state(),
        }
    }

    open spec fn draw_output(&self) -> Seq<RenderCommand> {
        match self {
            AnyScene::Artboard(a) => a.draw_output(),
            AnyScene::Machine(m) => m.draw_output(),
        }
    }

    open spec fn pointer_state(
        &self,
        s: SceneState,
        kind: PointerKind,
        x: u32,
        y: u32,
        viewport: Viewport,
    ) -> SceneState {
        match self {
            AnyScene::Artboard(a) => a.pointer_state(s, kind, x, y, viewport),
            AnyScene::Machine(m) => m.pointer_state(s, kind, x, y, viewport),
        }
    }

    open spec fn advance_state(&self, s: SceneState, elapsed: u64) -> SceneState {
        match self {
            AnyScene::Artboard(a) => a.advance_state(s, elapsed),
            AnyScene::Machine(m) => m.advance_state(s, elapsed),
        }
    }

    open spec fn advance_reports(&self, s: SceneState, elapsed: u64) -> bool {
        match self {
            AnyScene::Artboard(a) => a.advance_reports(s, elapsed),
            AnyScene::Machine(m) => m.advance_reports(s, elapsed),
        }
    }

    proof fn lemma_draw_output_balanced(&self) {
        match self {
            AnyScene::Artboard(a) => a.lemma_draw_output_balanced(),
            AnyScene::Machine(m) => m.lemma_draw_output_balanced(),
        }
    }

    proof fn lemma_wf_dims(&self) {
        match self {
            AnyScene::Artboard(a) => a.lemma_wf_dims(),
            AnyScene::Machine(m) => m.lemma_wf_dims(),
        }
    }

    fn width(&self) -> (r: u32) {
        match self {
            AnyScene::Artboard(a) => a.width(),
            AnyScene::Machine(m) => m.width(),
        }
    }

    fn height(&self) -> (r: u32) {
        match self {
            AnyScene::Artboard(a) => a.height(),
            AnyScene::Machine(m) => m.height(),
        }
    }

    fn name(&self) -> (r: Result<String, SceneError>) {
        match self {
            AnyScene::Artboard(a) => a.name(),
            AnyScene::Machine(m) => m.name(),
        }
    }

    fn loop_mode(&self) -> (r: Loop) {
        match self {
            AnyScene::Artboard(a) => a.loop_mode(),
            AnyScene::Machine(m) => m.loop_mode(),
        }
    }

    fn is_translucent(&self) -> (r: bool) {
        match self {
            AnyScene::Artboard(a) => a.is_translucent(),
            AnyScene::Machine(m) => m.is_translucent(),
        }
    }

    fn duration(&self) -> (r: Option<u64>) {
        match self {
            AnyScene::Artboard(a) => a.duration(),
            AnyScene::Machine(m) => m.duration(),
        }
    }

    fn pointer_down(&mut self, x: u32, y: u32, viewport: &Viewport) {
        match self {
            AnyScene::Artboard(a) => a.pointer_down(x, y, viewport),
            AnyScene::Machine(m) => m.pointer_down(x, y, viewport),
        }
    }

    fn pointer_move(&mut self, x: u32, y: u32, viewport: &Viewport) {
        match self {
            AnyScene::Artboard(a) => a.pointer_move(x, y, viewport),
            AnyScene::Machine(m) => m.pointer_move(x, y, viewport),
        }
    }

    fn pointer_up(&mut self, x: u32, y: u32, viewport: &Viewport) {
        match self {
            AnyScene::Artboard(a) => a.pointer_up(x, y, viewport),
            AnyScene::Machine(m) => m.pointer_up(x, y, viewport),
        }
    }

    fn advance_and_apply(&mut self, elapsed: u64) -> (r: bool) {
        match self {
            AnyScene::Artboard(a) => {
                let rr = a.advance_and_apply(elapsed);
                proof {
                    // settles how the report of the concrete scene is the
                    // report this variant makes
                    assert(rr == old(self).advance_reports(old(self).state(), elapsed));
                }
                rr
            },
            AnyScene::Machine(m) => {
                let rr = m.advance_and_apply(elapsed);
                proof {
                    assert(rr == old(self).advance_reports(old(self).state(), elapsed));
                }
                rr
            },
        }
    }

    fn draw<R: Renderer>(&self, renderer: &mut R) {
        match self {
            AnyScene::Artboard(a) => a.draw(renderer),
            AnyScene::Machine(m) => m.draw(renderer),
        }
    }
}

} // verus!
