//! State machines: behaviour-driven scenes instantiated from an artboard.
//!
//! A state machine retains its artboard's owner (and through it the file),
//! so neither can be released while the machine lives. It fulfils the
//! `Scene` role with the machine's own playback policy and duration, and it
//! queues pointer events, mapped into content space through the viewport's
//! cached inverse transform, for the next advance to consume.

use std::sync::Arc;

use vstd::prelude::*;

use crate::artboard::{Artboard, ArtboardInner};
use crate::asset::{ArtboardData, FileData, MachineData};
use crate::encoding::{bytes_eq, string_from_utf8};
use crate::instantiate::{Handle, Instantiate};
use crate::renderer::{
    command_depth_delta, lemma_bracketed_flat_balanced, lemma_stack_depth_concat,
    lemma_stack_depth_push, RenderCommand, Renderer,
};
use crate::scene::{
    sat_add_u64, Loop, PointerEvent, PointerKind, Scene, SceneBacking, SceneError, SceneState,
    Viewport,
};
use crate::transform::{affine_model, apply_affine, RationalPoint};

verus! {

/// The shared owner of one state-machine instance: the artboard's owner
/// (retained, so the artboard outlives the machine) and which machine of
/// that artboard this is.
#[derive(Debug)]
pub(crate) struct StateMachineInner {
    pub(crate) artboard: Arc<ArtboardInner>,
    pub(crate) index: usize,
}

/// A state-machine-driven scene over an artboard.
#[derive(Debug)]
pub struct StateMachine {
    inner: Arc<StateMachineInner>,
    elapsed_nanos: u64,
    queued: Vec<PointerEvent>,
}

/// The first machine with this exact name at or after position `i`.
pub open spec fn find_machine(ms: Seq<MachineData>, name: Seq<u8>, i: int) -> Option<int>
    decreases ms.len() - i,
{
    if i < 0 || i >= ms.len() {
        None
    } else if ms[i].name == name {
        Some(i)
    } else {
        find_machine(ms, name, i + 1)
    }
}

/// Which state machine a handle denotes inside an artboard.
pub open spec fn resolve_machine(a: ArtboardData, handle: Handle) -> Option<int> {
    match handle {
        Handle::Default => if a.machines.len() > 0 {
            Some(0int)
        } else {
            None
        },
        Handle::Index(i) => if i < a.machines.len() {
            Some(i as int)
        } else {
            None
        },
        Handle::Name(s) => find_machine(a.machines, vstd::utf8::encode_utf8(s@), 0),
    }
}

/// The content-space pointer event that mapping a surface position through
/// a cached inverse transform produces.
pub open spec fn mapped_event(
    t: crate::transform::Affine,
    kind: PointerKind,
    x: u32,
    y: u32,
) -> PointerEvent {
    let p = apply_affine(
        affine_model(t),
        RationalPoint { x: x as int, y: y as int, den: 1 },
    );
    PointerEvent { kind: kind, x: p.x as i128, y: p.y as i128, den: p.den as i128 }
}

impl StateMachine {
    pub closed spec fn file_data(&self) -> FileData {
        self.inner.artboard.file.data@
    }

    pub closed spec fn artboard_index(&self) -> int {
        self.inner.artboard.index as int
    }

    pub closed spec fn machine_index(&self) -> int {
        self.inner.index as int
    }

    pub closed spec fn elapsed_spec(&self) -> u64 {
        self.elapsed_nanos
    }

    pub closed spec fn queued_spec(&self) -> Seq<PointerEvent> {
        self.queued@
    }

    /// The artboard record this machine drives.
    pub open spec fn artboard_data(&self) -> ArtboardData {
        self.file_data().artboards[self.artboard_index()]
    }

    /// The machine record backing this scene.
    pub open spec fn machine_data(&self) -> MachineData {
        self.artboard_data().machines[self.machine_index()]
    }

    /// How many pointer events wait for the next advance.
    pub fn pending_input_count(&self) -> (r: usize)
        ensures
            r == self.state().queued.len(),
    {
        self.queued.len()
    }
}

impl Instantiate for StateMachine {
    type Parent = Artboard;

    open spec fn parent_wf(artboard: &Artboard) -> bool {
        artboard.wf()
    }

    /// Success exactly when the handle resolves among the artboard's
    /// machines; the new machine shares the artboard's owner and starts
    /// with a fresh clock and an empty input queue.
    open spec fn resolves_to(artboard: &Artboard, handle: Handle, r: Option<Self>) -> bool {
        match r {
            None => resolve_machine(artboard.data(), handle) is None,
            Some(m) => {
                &&& resolve_machine(artboard.data(), handle) == Some(m.machine_index())
                &&& m.file_data() == artboard.file_data()
                &&& m.artboard_index() == artboard.index_spec()
                &&& m.elapsed_spec() == 0
                &&& m.queued_spec() == Seq::<PointerEvent>::empty()
                &&& m.wf()
            },
        }
    }

    fn instantiate(artboard: &Artboard, handle: Handle) -> (r: Option<Self>) {
        let ghost h0: Handle = handle;
        let inner = artboard.as_inner();
        proof {
            assert(artboard.data() == inner.file.data@.artboards[inner.index as int]);
            assert(inner.file.data@.artboards[inner.index as int] == inner.file.data.artboards@[inner.index as int]@);
        }
        let rec = &inner.file.data.artboards[inner.index];
        let n = rec.machines.len();
        match handle {
            Handle::Default => {
                if n > 0 {
                    Some(
                        StateMachine {
                            inner: Arc::new(
                                StateMachineInner { artboard: inner.clone(), index: 0 },
                            ),
                            elapsed_nanos: 0,
                            queued: Vec::new(),
                        },
                    )
                } else {
                    None
                }
            },
            Handle::Index(i) => {
                if i < n {
                    Some(
                        StateMachine {
                            inner: Arc::new(
                                StateMachineInner { artboard: inner.clone(), index: i },
                            ),
                            elapsed_nanos: 0,
                            queued: Vec::new(),
                        },
                    )
                } else {
                    None
                }
            },
            Handle::Name(s) => {
                let name = s.as_str().as_bytes();
                let ghost nb = vstd::utf8::encode_utf8(s@);
                let ghost ms = artboard.data().machines;
                let mut i: usize = 0;
                while i < n
                    invariant
                        artboard.wf(),
                        handle == h0,
                        h0 == Handle::Name(s),
                        i <= n,
                        ms == artboard.data().machines,
                        n == ms.len(),
                        nb == name@,
                        nb == vstd::utf8::encode_utf8(s@),
                        rec@ == artboard.data(),
                        inner.file.data@ == artboard.file_data(),
                        inner.index as int == artboard.index_spec(),
                        find_machine(ms, nb, 0) == find_machine(ms, nb, i as int),
                    decreases n - i,
                {
                    if bytes_eq(rec.machines[i].name.as_slice(), name) {
                        proof {
                            assert(ms[i as int] == rec.machines@[i as int]@);
                            assert(ms[i as int].name == nb);
                            assert(find_machine(ms, nb, i as int) == Some(i as int));
                        }
                        let made = StateMachine {
                            inner: Arc::new(StateMachineInner { artboard: inner.clone(), index: i }),
                            elapsed_nanos: 0,
                            queued: Vec::new(),
                        };
                        proof {
                            assert(resolve_machine(artboard.data(), h0) == Some(
                                made.machine_index(),
                            ));
                            assert(<StateMachine as Instantiate>::resolves_to(
                                artboard,
                                h0,
                                Some(made),
                            ));
                        }
                        return Some(made);
                    }
                    proof {
                        assert(ms[i as int] == rec.machines@[i as int]@);
                        assert(ms[i as int].name != nb);
                    }
                    i = i + 1;
                }
                None
            },
        }
    }
}

/// No machine at or after position `i` bears the name: the search misses.
proof fn lemma_find_machine_none(ms: Seq<MachineData>, name: Seq<u8>, i: int)
    requires
        forall|j: int| i <= j < ms.len() ==> (#[trigger] ms[j]).name != name,
    ensures
        find_machine(ms, name, i) is None,
    decreases ms.len() - i,
{
    if 0 <= i < ms.len() {
        lemma_find_machine_none(ms, name, i + 1);
    }
}

/// Handle resolution: an index at or past the machine count yields
/// absence, never a fault.
pub proof fn lemma_out_of_range_index_is_absent(
    artboard: &Artboard,
    i: usize,
    r: Option<StateMachine>,
)
    requires
        i >= artboard.data().machines.len(),
        <StateMachine as Instantiate>::resolves_to(artboard, Handle::Index(i), r),
    ensures
        r is None,
{
}

/// Handle resolution: a name no machine bears yields absence, never a
/// fault.
pub proof fn lemma_unknown_name_is_absent(artboard: &Artboard, s: String, r: Option<StateMachine>)
    requires
        forall|j: int|
            0 <= j < artboard.data().machines.len() ==> (#[trigger] artboard.data().machines[j]).name
                != vstd::utf8::encode_utf8(s@),
        <StateMachine as Instantiate>::resolves_to(artboard, Handle::Name(s), r),
    ensures
        r is None,
{
    lemma_find_machine_none(artboard.data().machines, vstd::utf8::encode_utf8(s@), 0);
}

impl Scene for StateMachine {
    /// Both indices are in range and the whole file is well formed.
    open spec fn wf(&self) -> bool {
        &&& 0 <= self.artboard_index() < self.file_data().artboards.len()
        &&& 0 <= self.machine_index() < self.artboard_data().machines.len()
        &&& crate::asset::file_wf(self.file_data())
    }

    open spec fn spec_width(&self) -> u32 {
        self.artboard_data().width
    }

    open spec fn spec_height(&self) -> u32 {
        self.artboard_data().height
    }

    /// A machine scene is named after the machine, not the artboard.
    open spec fn spec_name(&self) -> Seq<u8> {
        self.machine_data().name
    }

    open spec fn spec_loop(&self) -> Loop {
        self.machine_data().loop_mode
    }

    open spec fn spec_translucent(&self) -> bool {
        self.artboard_data().translucent
    }

    open spec fn spec_duration(&self) -> Option<u64> {
        self.machine_data().duration
    }

    open spec fn backing(&self) -> SceneBacking {
        SceneBacking {
            file: self.file_data(),
            artboard: self.artboard_index(),
            machine: Some(self.machine_index()),
        }
    }

    open spec fn state(&self) -> SceneState {
        SceneState { elapsed: self.elapsed_spec(), queued: self.queued_spec() }
    }

    /// A machine draws its artboard's content.
    open spec fn draw_output(&self) -> Seq<RenderCommand> {
        seq![RenderCommand::StatePush] + self.artboard_data().prims.map_values(
            |p: crate::renderer::Rect| RenderCommand::Path(p),
        ) + seq![RenderCommand::StatePop]
    }

    /// A pointer event is mapped into content space through the viewport's
    /// cached inverse transform and queued; without a cached transform
    /// there is no mapping, and the event is dropped.
    open spec fn pointer_state(
        &self,
        s: SceneState,
        kind: PointerKind,
        x: u32,
        y: u32,
        viewport: Viewport,
    ) -> SceneState {
        match viewport.inverse_view_transform {
            None => s,
            Some(t) => SceneState { elapsed: s.elapsed, queued: s.queued.push(mapped_event(t, kind, x, y)) },
        }
    }

    /// Advancing integrates the elapsed time and consumes the queued
    /// pointer events.
    open spec fn advance_state(&self, s: SceneState, elapsed: u64) -> SceneState {
        SceneState { elapsed: sat_add_u64(s.elapsed, elapsed), queued: Seq::empty() }
    }

    /// A machine reports a change exactly when time actually passed.
    open spec fn advance_reports(&self, s: SceneState, elapsed: u64) -> bool {
        elapsed > 0
    }

    proof fn lemma_draw_output_balanced(&self) {
        let body = self.artboard_data().prims.map_values(
            |p: crate::renderer::Rect| RenderCommand::Path(p),
        );
        assert(forall|i: int|
            0 <= i < body.len() ==> command_depth_delta(#[trigger] body[i]) == 0);
        lemma_bracketed_flat_balanced(body);
    }

    proof fn lemma_wf_dims(&self) {
        assert(crate::asset::artboard_wf(self.artboard_data()));
    }

    fn width(&self) -> (r: u32) {
        self.inner.artboard.file.data.artboards[self.inner.artboard.index].width
    }

    fn height(&self) -> (r: u32) {
        self.inner.artboard.file.data.artboards[self.inner.artboard.index].height
    }

    fn name(&self) -> (r: Result<String, SceneError>) {
        let rec = &self.inner.artboard.file.data.artboards[self.inner.artboard.index];
        let bytes = vstd::slice::slice_to_vec(rec.machines[self.inner.index].name.as_slice());
        match string_from_utf8(bytes) {
            Some(s) => Ok(s),
            None => Err(SceneError::InvalidNameEncoding),
        }
    }

    fn loop_mode(&self) -> (r: Loop) {
        let rec = &self.inner.artboard.file.data.artboards[self.inner.artboard.index];
        rec.machines[self.inner.index].loop_mode
    }

    fn is_translucent(&self) -> (r: bool) {
        self.inner.artboard.file.data.artboards[self.inner.artboard.index].translucent
    }

    fn duration(&self) -> (r: Option<u64>) {
        let rec = &self.inner.artboard.file.data.artboards[self.inner.artboard.index];
        rec.machines[self.inner.index].duration
    }

    fn pointer_down(&mut self, x: u32, y: u32, viewport: &Viewport) {
        match viewport.surface_to_content(x, y) {
            None => (),
            Some(p) => {
                self.queued.push(PointerEvent { kind: PointerKind::Down, x: p.0, y: p.1, den: p.2 });
            },
        }
    }

    fn pointer_move(&mut self, x: u32, y: u32, viewport: &Viewport) {
        match viewport.surface_to_content(x, y) {
            None => (),
            Some(p) => {
                self.queued.push(PointerEvent { kind: PointerKind::Move, x: p.0, y: p.1, den: p.2 });
            },
        }
    }

    fn pointer_up(&mut self, x: u32, y: u32, viewport: &Viewport) {
        match viewport.surface_to_content(x, y) {
            None => (),
            Some(p) => {
                self.queued.push(PointerEvent { kind: PointerKind::Up, x: p.0, y: p.1, den: p.2 });
            },
        }
    }

    fn advance_and_apply(&mut self, elapsed: u64) -> (r: bool) {
        if elapsed > u64::MAX - self.elapsed_nanos {
            self.elapsed_nanos = u64::MAX;
        } else {
            self.elapsed_nanos = self.elapsed_nanos + elapsed;
        }
        self.queued = Vec::new();
        elapsed > 0
    }

    fn draw<R: Renderer>(&self, renderer: &mut R) {
        let rec = &self.inner.artboard.file.data.artboards[self.inner.artboard.index];
        renderer.state_push();
        let ghost mapped = rec.prims@.map_values(
            |p: crate::renderer::Rect| RenderCommand::Path(p),
        );
        let mut i: usize = 0;
        let n = rec.prims.len();
        while i < n
            invariant
                i <= n,
                n == rec.prims@.len(),
                mapped == rec.prims@.map_values(
                    |p: crate::renderer::Rect| RenderCommand::Path(p),
                ),
                renderer.commands() == old(renderer).commands().push(RenderCommand::StatePush)
                    + mapped.take(i as int),
            decreases n - i,
        {
            let ghost prior = renderer.commands();
            renderer.draw_path(&rec.prims[i]);
            i = i + 1;
            proof {
                assert(prior.push(RenderCommand::Path(rec.prims@[i - 1])) =~= old(
                    renderer,
                ).commands().push(RenderCommand::StatePush) + mapped.take(i as int));
            }
        }
        proof {
            assert(mapped.take(n as int) =~= mapped);
            assert(forall|j: int|
                0 <= j < mapped.len() ==> command_depth_delta(#[trigger] mapped[j]) == 0);
            crate::renderer::lemma_stack_depth_flat(mapped);
            lemma_stack_depth_push(old(renderer).commands(), RenderCommand::StatePush);
            lemma_stack_depth_concat(
                old(renderer).commands().push(RenderCommand::StatePush),
                mapped,
            );
        }
        renderer.state_pop();
        proof {
            assert(renderer.commands() =~= old(renderer).commands() + self.draw_output());
        }
    }
}

} // verus!
