//! Artboards: drawable regions instantiated from a file.
//!
//! An artboard retains the file it came from through a shared owner, so the
//! parsed asset cannot be released while the artboard lives. A bare
//! artboard fulfils the `Scene` role with one-shot playback, no natural
//! duration, and no pointer handling.

use std::sync::Arc;

use vstd::prelude::*;

use crate::asset::{artboard_wf, file_wf, ArtboardData, FileData};
use crate::components::Components;
use crate::encoding::{bytes_eq, string_from_utf8};
use crate::file::{File, FileInner};
use crate::instantiate::{Handle, Instantiate};
use crate::renderer::{
    command_depth_delta, lemma_bracketed_flat_balanced, lemma_stack_depth_concat,
    lemma_stack_depth_push, RenderCommand, Renderer,
};
use crate::scene::{
    sat_add_u64, Loop, PointerKind, Scene, SceneBacking, SceneError, SceneState, Viewport,
};

verus! {

/// The shared owner of one artboard instance. It retains the file's owner,
/// so the file outlives every artboard derived from it.
#[derive(Debug)]
pub(crate) struct ArtboardInner {
    pub(crate) file: Arc<FileInner>,
    pub(crate) index: usize,
}

/// A named drawable region instantiated from a `File` via a `Handle`, with
/// its own animation clock.
#[derive(Debug)]
pub struct Artboard {
    inner: Arc<ArtboardInner>,
    elapsed_nanos: u64,
}

/// The first artboard with this exact name at or after position `i`.
pub open spec fn find_artboard(abs: Seq<ArtboardData>, name: Seq<u8>, i: int) -> Option<int>
    decreases abs.len() - i,
{
    if i < 0 || i >= abs.len() {
        None
    } else if abs[i].name == name {
        Some(i)
    } else {
        find_artboard(abs, name, i + 1)
    }
}

/// Which artboard a handle denotes inside a file: the first one for
/// `Default`, the position for `Index`, the first exact name match for
/// `Name`; absence when out of range or not present.
pub open spec fn resolve_artboard(f: FileData, handle: Handle) -> Option<int> {
    match handle {
        Handle::Default => if f.artboards.len() > 0 {
            Some(0int)
        } else {
            None
        },
        Handle::Index(i) => if i < f.artboards.len() {
            Some(i as int)
        } else {
            None
        },
        Handle::Name(s) => find_artboard(f.artboards, vstd::utf8::encode_utf8(s@), 0),
    }
}

impl Artboard {
    /// The whole parsed asset this artboard keeps alive.
    pub closed spec fn file_data(&self) -> FileData {
        self.inner.file.data@
    }

    /// Which artboard of the file this is.
    pub closed spec fn index_spec(&self) -> int {
        self.inner.index as int
    }

    pub closed spec fn elapsed_spec(&self) -> u64 {
        self.elapsed_nanos
    }

    /// The record backing this artboard.
    pub open spec fn data(&self) -> ArtboardData {
        self.file_data().artboards[self.index_spec()]
    }

    pub(crate) fn from_inner(inner: Arc<ArtboardInner>) -> (r: Self)
        ensures
            r.file_data() == inner.file.data@,
            r.index_spec() == inner.index as int,
            r.elapsed_spec() == 0,
    {
        Self { inner, elapsed_nanos: 0 }
    }

    pub(crate) fn as_inner(&self) -> (r: &Arc<ArtboardInner>)
        ensures
            r.file.data@ == self.file_data(),
            r.index as int == self.index_spec(),
    {
        &self.inner
    }

    /// A snapshot of this artboard's component names.
    pub fn components(&mut self) -> (r: Components)
        requires
            old(self).wf(),
        ensures
            r@ == old(self).data().components,
            *final(self) == *old(self),
    {
        let rec = &self.inner.file.data.artboards[self.inner.index];
        let mut names: Vec<Vec<u8>> = Vec::new();
        let mut i: usize = 0;
        let n = rec.components.len();
        while i < n
            invariant
                i <= n,
                n == rec.components@.len(),
                names@.map_values(|v: Vec<u8>| v@) == rec.components@.map_values(
                    |v: Vec<u8>| v@,
                ).take(i as int),
            decreases n - i,
        {
            let ghost prior = names@.map_values(|v: Vec<u8>| v@);
            names.push(vstd::slice::slice_to_vec(rec.components[i].as_slice()));
            i = i + 1;
            proof {
                assert(names@.map_values(|v: Vec<u8>| v@) =~= prior.push(
                    rec.components@[i - 1]@,
                ));
                assert(prior.push(rec.components@[i - 1]@) =~= rec.components@.map_values(
                    |v: Vec<u8>| v@,
                ).take(i as int));
            }
        }
        proof {
            assert(rec.components@.map_values(|v: Vec<u8>| v@).take(n as int)
                =~= rec.components@.map_values(|v: Vec<u8>| v@));
        }
        Components::new(names)
    }
}

impl Instantiate for Artboard {
    type Parent = File;

    open spec fn parent_wf(file: &File) -> bool {
        file.wf()
    }

    /// Success exactly when the handle resolves; the new artboard shares
    /// the parent's asset, points at the resolved record, and starts with a
    /// fresh clock. On a miss nothing is produced.
    open spec fn resolves_to(file: &File, handle: Handle, r: Option<Self>) -> bool {
        match r {
            None => resolve_artboard(file@, handle) is None,
            Some(a) => {
                &&& resolve_artboard(file@, handle) == Some(a.index_spec())
                &&& a.file_data() == file@
                &&& a.elapsed_spec() == 0
                &&& a.wf()
            },
        }
    }

    fn instantiate(file: &File, handle: Handle) -> (r: Option<Self>) {
        let ghost h0: Handle = handle;
        let inner = file.as_inner();
        let n = inner.data.artboards.len();
        match handle {
            Handle::Default => {
                if n > 0 {
                    Some(
                        Artboard::from_inner(
                            Arc::new(ArtboardInner { file: inner.clone(), index: 0 }),
                        ),
                    )
                } else {
                    None
                }
            },
            Handle::Index(i) => {
                if i < n {
                    Some(
                        Artboard::from_inner(
                            Arc::new(ArtboardInner { file: inner.clone(), index: i }),
                        ),
                    )
                } else {
                    None
                }
            },
            Handle::Name(s) => {
                let name = s.as_str().as_bytes();
                let ghost nb = vstd::utf8::encode_utf8(s@);
                let mut i: usize = 0;
                while i < n
                    invariant
                        file.wf(),
                        handle == h0,
                        h0 == Handle::Name(s),
                        i <= n,
                        n == file@.artboards.len(),
                        nb == name@,
                        nb == vstd::utf8::encode_utf8(s@),
                        inner.data@ == file@,
                        find_artboard(file@.artboards, nb, 0) == find_artboard(
                            file@.artboards,
                            nb,
                            i as int,
                        ),
                    decreases n - i,
                {
                    if bytes_eq(inner.data.artboards[i].name.as_slice(), name) {
                        proof {
                            assert(file@.artboards[i as int] == inner.data.artboards@[i as int]@);
                            assert(file@.artboards[i as int].name == nb);
                            assert(find_artboard(file@.artboards, nb, i as int) == Some(i as int));
                        }
                        let made = Artboard::from_inner(
                            Arc::new(ArtboardInner { file: inner.clone(), index: i }),
                        );
                        proof {
                            assert(h0 == Handle::Name(s));
                            assert(resolve_artboard(file@, h0) == find_artboard(
                                file@.artboards,
                                nb,
                                0,
                            ));
                            assert(resolve_artboard(file@, h0) == Some(made.index_spec()));
                            assert(<Artboard as Instantiate>::resolves_to(file, h0, Some(made)));
                        }
                        return Some(made);
                    }
                    proof {
                        assert(file@.artboards[i as int] == inner.data.artboards@[i as int]@);
                        assert(file@.artboards[i as int].name != nb);
                    }
                    i = i + 1;
                }
                None
            },
        }
    }
}

/// No artboard at or after position `i` bears the name: the search misses.
proof fn lemma_find_artboard_none(abs: Seq<ArtboardData>, name: Seq<u8>, i: int)
    requires
        forall|j: int| i <= j < abs.len() ==> (#[trigger] abs[j]).name != name,
    ensures
        find_artboard(abs, name, i) is None,
    decreases abs.len() - i,
{
    if 0 <= i < abs.len() {
        lemma_find_artboard_none(abs, name, i + 1);
    }
}

/// Handle resolution: an index at or past the artboard count yields
/// absence, never a fault.
pub proof fn lemma_out_of_range_index_is_absent(file: &File, i: usize, r: Option<Artboard>)
    requires
        i >= file@.artboards.len(),
        <Artboard as Instantiate>::resolves_to(file, Handle::Index(i), r),
    ensures
        r is None,
{
}

/// Handle resolution: a name no artboard bears yields absence, never a
/// fault.
pub proof fn lemma_unknown_name_is_absent(file: &File, s: String, r: Option<Artboard>)
    requires
        forall|j: int|
            0 <= j < file@.artboards.len() ==> (#[trigger] file@.artboards[j]).name
                != vstd::utf8::encode_utf8(s@),
        <Artboard as Instantiate>::resolves_to(file, Handle::Name(s), r),
    ensures
        r is None,
{
    lemma_find_artboard_none(file@.artboards, vstd::utf8::encode_utf8(s@), 0);
}

/// Loop-mode default: a bare artboard scene always reports one-shot
/// playback and no natural duration.
pub proof fn lemma_artboard_scene_defaults(a: &Artboard)
    ensures
        a.spec_loop() == Loop::OneShot,
        a.spec_duration() is None,
{
}

impl Scene for Artboard {
    /// The index is in range and the whole file is well formed.
    open spec fn wf(&self) -> bool {
        &&& 0 <= self.index_spec() < self.file_data().artboards.len()
        &&& file_wf(self.file_data())
    }

    open spec fn spec_width(&self) -> u32 {
        self.data().width
    }

    open spec fn spec_height(&self) -> u32 {
        self.data().height
    }

    open spec fn spec_name(&self) -> Seq<u8> {
        self.data().name
    }

    /// A bare artboard has no animation to replay: always one-shot.
    open spec fn spec_loop(&self) -> Loop {
        Loop::OneShot
    }

    /// A bare artboard scene is treated as opaque content: the hint is
    /// unconditionally off. The asset's translucency flag speaks through
    /// the state-machine scene.
    open spec fn spec_translucent(&self) -> bool {
        false
    }

    /// A bare artboard's content length is indeterminate.
    open spec fn spec_duration(&self) -> Option<u64> {
        None
    }

    open spec fn backing(&self) -> SceneBacking {
        SceneBacking { file: self.file_data(), artboard: self.index_spec(), machine: None }
    }

    open spec fn state(&self) -> SceneState {
        SceneState { elapsed: self.elapsed_spec(), queued: Seq::empty() }
    }

    /// One state save, the artboard's rectangles, one state restore.
    open spec fn draw_output(&self) -> Seq<RenderCommand> {
        seq![RenderCommand::StatePush] + self.data().prims.map_values(
            |p: crate::renderer::Rect| RenderCommand::Path(p),
        ) + seq![RenderCommand::StatePop]
    }

    /// A bare artboard ignores pointer events.
    open spec fn pointer_state(
        &self,
        s: SceneState,
        kind: PointerKind,
        x: u32,
        y: u32,
        viewport: Viewport,
    ) -> SceneState {
        s
    }

    open spec fn advance_state(&self, s: SceneState, elapsed: u64) -> SceneState {
        SceneState { elapsed: sat_add_u64(s.elapsed, elapsed), queued: s.queued }
    }

    /// A bare artboard always reports a change, for the driver's sake.
    open spec fn advance_reports(&self, s: SceneState, elapsed: u64) -> bool {
        true
    }

    proof fn lemma_draw_output_balanced(&self) {
        let body = self.data().prims.map_values(
            |p: crate::renderer::Rect| RenderCommand::Path(p),
        );
        assert(forall|i: int|
            0 <= i < body.len() ==> command_depth_delta(#[trigger] body[i]) == 0);
        lemma_bracketed_flat_balanced(body);
    }

    proof fn lemma_wf_dims(&self) {
        assert(artboard_wf(self.data()));
    }

    fn width(&self) -> (r: u32) {
        self.inner.file.data.artboards[self.inner.index].width
    }

    fn height(&self) -> (r: u32) {
        self.inner.file.data.artboards[self.inner.index].height
    }

    fn name(&self) -> (r: Result<String, SceneError>) {
        let rec = &self.inner.file.data.artboards[self.inner.index];
        let bytes = vstd::slice::slice_to_vec(rec.name.as_slice());
        match string_from_utf8(bytes) {
            Some(s) => Ok(s),
            None => Err(SceneError::InvalidNameEncoding),
        }
    }

    fn loop_mode(&self) -> (r: Loop) {
        Loop::OneShot
    }

    fn is_translucent(&self) -> (r: bool) {
        false
    }

    fn duration(&self) -> (r: Option<u64>) {
        None
    }

    fn pointer_down(&mut self, x: u32, y: u32, viewport: &Viewport) {
    }

    fn pointer_move(&mut self, x: u32, y: u32, viewport: &Viewport) {
    }

    fn pointer_up(&mut self, x: u32, y: u32, viewport: &Viewport) {
    }

    fn advance_and_apply(&mut self, elapsed: u64) -> (r: bool) {
        if elapsed > u64::MAX - self.elapsed_nanos {
            self.elapsed_nanos = u64::MAX;
        } else {
            self.elapsed_nanos = self.elapsed_nanos + elapsed;
        }
        true
    }

    fn draw<R: Renderer>(&self, renderer: &mut R) {
        let rec = &self.inner.file.data.artboards[self.inner.index];
        renderer.state_push();
        let ghost mapped = rec.prims@.map_values(
            |p: crate::renderer::Rect| RenderCommand::Path(p),
        );
        let mut i: usize = 0;
        let n = rec.prims.len();
        while i < n
            invariant
                i <= n,
                n == rec.prims@.len(),
                mapped == rec.prims@.map_values(
                    |p: crate::renderer::Rect| RenderCommand::Path(p),
                ),
                renderer.commands() == old(renderer).commands().push(RenderCommand::StatePush)
                    + mapped.take(i as int),
            decreases n - i,
        {
            let ghost prior = renderer.commands();
            renderer.draw_path(&rec.prims[i]);
            i = i + 1;
            proof {
                assert(prior.push(RenderCommand::Path(rec.prims@[i - 1])) =~= old(
                    renderer,
                ).commands().push(RenderCommand::StatePush) + mapped.take(i as int));
            }
        }
        proof {
            assert(mapped.take(n as int) =~= mapped);
            assert(forall|j: int|
                0 <= j < mapped.len() ==> command_depth_delta(#[trigger] mapped[j]) == 0);
            crate::renderer::lemma_stack_depth_flat(mapped);
            lemma_stack_depth_push(old(renderer).commands(), RenderCommand::StatePush);
            lemma_stack_depth_concat(
                old(renderer).commands().push(RenderCommand::StatePush),
                mapped,
            );
        }
        renderer.state_pop();
        proof {
            assert(renderer.commands() =~= old(renderer).commands() + self.draw_output());
        }
    }
}

} // verus!
