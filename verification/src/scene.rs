//! The polymorphic scene role and the per-surface viewport.
//!
//! A scene is anything that can report its intrinsic content size and
//! playback attributes, take pointer input, advance in time, and draw itself
//! through a `Renderer`. The viewport holds the surface's pixel size and the
//! cached inverse view transform used to map pointer positions back into
//! content coordinates.

use vstd::prelude::*;
use vstd::utf8::{decode_utf8, valid_utf8};

use crate::asset::FileData;
use crate::renderer::{stack_depth, RenderCommand, Renderer};
use crate::transform::{
    affine_bounded, apply_affine, apply_to_pixel, forward_affine, inverse_affine, view_transforms,
    Affine, RationalPoint,
};

verus! {

/// Playback policy of animated content.
#[derive(Clone, Copy, Debug, PartialEq, Eq, Structural)]
pub enum Loop {
    /// Play once and hold the final state.
    OneShot,
    /// Restart from the beginning after the end is reached.
    Loop,
    /// Play forward, then backward, alternating.
    PingPong,
}

/// The declared, recoverable failure of a scene's name accessor: the stored
/// name bytes are not valid UTF-8. The object itself is intact.
#[derive(Clone, Copy, Debug, PartialEq, Eq, Structural)]
pub enum SceneError {
    InvalidNameEncoding,
}

/// What kind of pointer event was dispatched.
#[derive(Clone, Copy, Debug, PartialEq, Eq, Structural)]
pub enum PointerKind {
    Down,
    Move,
    Up,
}

/// A pointer event already mapped into content space, as the exact rational
/// point `(x/den, y/den)`.
#[derive(Clone, Copy, Debug, PartialEq, Eq, Structural)]
pub struct PointerEvent {
    pub kind: PointerKind,
    pub x: i128,
    pub y: i128,
    pub den: i128,
}

/// The abstract mutable state of a scene: integrated elapsed time and the
/// pointer events queued for the next advance.
pub struct SceneState {
    pub elapsed: u64,
    pub queued: Seq<PointerEvent>,
}

/// Elapsed-time integration saturates instead of wrapping.
pub open spec fn sat_add_u64(a: u64, b: u64) -> u64 {
    if a + b > u64::MAX {
        u64::MAX
    } else {
        (a + b) as u64
    }
}

/// Mutable per-surface state: pixel dimensions, and the cached inverse view
/// transform stored by the most recent frame for pointer-event mapping.
#[derive(Debug)]
pub struct Viewport {
    pub width: u32,
    pub height: u32,
    pub inverse_view_transform: Option<Affine>,
}

impl Viewport {
    /// Every cached transform this library stores is coefficient-bounded, so
    /// pointer mapping cannot overflow.
    pub open spec fn wf(&self) -> bool {
        match self.inverse_view_transform {
            Some(t) => affine_bounded(t),
            None => true,
        }
    }

    pub fn new(width: u32, height: u32) -> (r: Viewport)
        ensures
            r.width == width,
            r.height == height,
            r.inverse_view_transform is None,
            r.wf(),
    {
        Viewport { width, height, inverse_view_transform: None }
    }

    /// A resize updates the pixel dimensions; the cached inverse transform is
    /// left as it was and is recomputed by the next frame.
    pub fn resize(&mut self, width: u32, height: u32)
        ensures
            final(self).width == width,
            final(self).height == height,
            final(self).inverse_view_transform == old(self).inverse_view_transform,
            old(self).wf() ==> final(self).wf(),
    {
        self.width = width;
        self.height = height;
    }

    /// Maps a surface pixel position into content space through the cached
    /// inverse view transform; absent a cached transform there is nothing to
    /// map with, and the result is absent too.
    pub fn surface_to_content(&self, x: u32, y: u32) -> (r: Option<(i128, i128, i128)>)
        requires
            self.wf(),
        ensures
            match self.inverse_view_transform {
                Some(t) => r matches Some(p) && ((RationalPoint {
                    x: p.0 as int,
                    y: p.1 as int,
                    den: p.2 as int,
                }) == apply_affine(
                    crate::transform::affine_model(t),
                    (RationalPoint { x: x as int, y: y as int, den: 1 }),
                )) && p.2 >= 1,
                None => r is None,
            },
    {
        match &self.inverse_view_transform {
            Some(t) => Some(apply_to_pixel(t, x, y)),
            None => None,
        }
    }
}

/// What loaded data stands behind a scene: the whole parsed asset, which
/// artboard of it the scene drives, and which of that artboard's machines,
/// if any. Pointer dispatch and time integration never touch it.
pub struct SceneBacking {
    pub file: FileData,
    pub artboard: int,
    pub machine: Option<int>,
}

/// The polymorphic role fulfilled by a bare artboard and by a state-machine
/// driven artboard. Observable attributes are pinned by the spec functions;
/// the mutable part is abstracted as a `SceneState`.
pub trait Scene: Sized {
    /// Structural validity: indices in range and positive content size.
    spec fn wf(&self) -> bool;

    spec fn spec_width(&self) -> u32;

    spec fn spec_height(&self) -> u32;

    /// The raw identifier bytes of the object backing this scene.
    spec fn spec_name(&self) -> Seq<u8>;

    spec fn spec_loop(&self) -> Loop;

    spec fn spec_translucent(&self) -> bool;

    spec fn spec_duration(&self) -> Option<u64>;

    /// The loaded data behind this scene and which objects of it the
    /// scene drives.
    spec fn backing(&self) -> SceneBacking;

    /// The abstract mutable state: elapsed time and queued pointer events.
    spec fn state(&self) -> SceneState;

    /// The command trace one draw call appends.
    spec fn draw_output(&self) -> Seq<RenderCommand>;

    /// The state after a pointer event in surface coordinates is
    /// dispatched against a viewport, pinned per implementor. The receiver
    /// only selects the implementation; the result depends on `s` alone.
    spec fn pointer_state(&self, s: SceneState, kind: PointerKind, x: u32, y: u32, viewport: Viewport) -> SceneState;

    /// The state after integrating `elapsed` nanoseconds, pinned per
    /// implementor.
    spec fn advance_state(&self, s: SceneState, elapsed: u64) -> SceneState;

    /// Whether advancing by `elapsed` reports a visual change. Advisory: a
    /// `false` return does not entitle the caller to skip drawing.
    spec fn advance_reports(&self, s: SceneState, elapsed: u64) -> bool;

    /// A scene's draw output leaves the renderer's state stack at the depth
    /// it found it: every push is matched by a pop.
    proof fn lemma_draw_output_balanced(&self)
        requires
            self.wf(),
        ensures
            stack_depth(self.draw_output()) == 0,
    ;

    /// Content size is intrinsic and positive for a well-formed scene.
    proof fn lemma_wf_dims(&self)
        requires
            self.wf(),
        ensures
            self.spec_width() >= 1,
            self.spec_height() >= 1,
    ;

    fn width(&self) -> (r: u32)
        requires
            self.wf(),
        ensures
            r == self.spec_width(),
    ;

    fn height(&self) -> (r: u32)
        requires
            self.wf(),
        ensures
            r == self.spec_height(),
    ;

    /// The object's identifier. Names are stored as raw bytes in the asset;
    /// the accessor fails, recoverably, exactly when they are not UTF-8.
    fn name(&self) -> (r: Result<String, SceneError>)
        requires
            self.wf(),
        ensures
            r is Ok <==> valid_utf8(self.spec_name()),
            r matches Ok(s) ==> s@ == decode_utf8(self.spec_name()),
            r is Err ==> r == Err::<String, SceneError>(SceneError::InvalidNameEncoding),
    ;

    fn loop_mode(&self) -> (r: Loop)
        requires
            self.wf(),
        ensures
            r == self.spec_loop(),
    ;

    fn is_translucent(&self) -> (r: bool)
        requires
            self.wf(),
        ensures
            r == self.spec_translucent(),
    ;

    /// The content's natural playback length in nanoseconds, absent when the
    /// content is static or indeterminate.
    fn duration(&self) -> (r: Option<u64>)
        requires
            self.wf(),
        ensures
            r == self.spec_duration(),
    ;

    fn pointer_down(&mut self, x: u32, y: u32, viewport: &Viewport)
        requires
            old(self).wf(),
            viewport.wf(),
        ensures
            final(self).wf(),
            final(self).state() == old(self).pointer_state(
                old(self).state(),
                PointerKind::Down,
                x,
                y,
                *viewport,
            ),
            final(self).spec_width() == old(self).spec_width(),
            final(self).spec_height() == old(self).spec_height(),
            final(self).spec_name() == old(self).spec_name(),
            final(self).spec_loop() == old(self).spec_loop(),
            final(self).spec_translucent() == old(self).spec_translucent(),
            final(self).spec_duration() == old(self).spec_duration(),
            final(self).draw_output() == old(self).draw_output(),
            final(self).backing() == old(self).backing(),
    ;

    fn pointer_move(&mut self, x: u32, y: u32, viewport: &Viewport)
        requires
            old(self).wf(),
            viewport.wf(),
        ensures
            final(self).wf(),
            final(self).state() == old(self).pointer_state(
                old(self).state(),
                PointerKind::Move,
                x,
                y,
                *viewport,
            ),
            final(self).spec_width() == old(self).spec_width(),
            final(self).spec_height() == old(self).spec_height(),
            final(self).spec_name() == old(self).spec_name(),
            final(self).spec_loop() == old(self).spec_loop(),
            final(self).spec_translucent() == old(self).spec_translucent(),
            final(self).spec_duration() == old(self).spec_duration(),
            final(self).draw_output() == old(self).draw_output(),
            final(self).backing() == old(self).backing(),
    ;

    fn pointer_up(&mut self, x: u32, y: u32, viewport: &Viewport)
        requires
            old(self).wf(),
            viewport.wf(),
        ensures
            final(self).wf(),
            final(self).state() == old(self).pointer_state(
                old(self).state(),
                PointerKind::Up,
                x,
                y,
                *viewport,
            ),
            final(self).spec_width() == old(self).spec_width(),
            final(self).spec_height() == old(self).spec_height(),
            final(self).spec_name() == old(self).spec_name(),
            final(self).spec_loop() == old(self).spec_loop(),
            final(self).spec_translucent() == old(self).spec_translucent(),
            final(self).spec_duration() == old(self).spec_duration(),
            final(self).draw_output() == old(self).draw_output(),
            final(self).backing() == old(self).backing(),
    ;

    /// Integrates elapsed time into internal animation state and reports
    /// whether visual state changed.
    fn advance_and_apply(&mut self, elapsed: u64) -> (r: bool)
        requires
            old(self).wf(),
        ensures
            final(self).wf(),
            final(self).state() == old(self).advance_state(old(self).state(), elapsed),
            r == old(self).advance_reports(old(self).state(), elapsed),
            final(self).spec_width() == old(self).spec_width(),
            final(self).spec_height() == old(self).spec_height(),
            final(self).spec_name() == old(self).spec_name(),
            final(self).spec_loop() == old(self).spec_loop(),
            final(self).spec_translucent() == old(self).spec_translucent(),
            final(self).spec_duration() == old(self).spec_duration(),
            final(self).draw_output() == old(self).draw_output(),
            final(self).backing() == old(self).backing(),
    ;

    /// Emits the drawing commands for the current state; internally
    /// bracketed by a matched state push and pop.
    fn draw<R: Renderer>(&self, renderer: &mut R)
        requires
            self.wf(),
            stack_depth(old(renderer).commands()) >= 0,
        ensures
            final(renderer).commands() == old(renderer).commands() + self.draw_output(),
    ;

    /// The per-frame operation: recompute and store the view transform for
    /// the viewport's current size, then advance, then draw under that
    /// transform inside a fresh renderer state. The transform is stored
    /// before the advance, so state consuming queued pointer targets sees
    /// the latest surface mapping.
    fn advance_and_maybe_draw<R: Renderer>(
        &mut self,
        renderer: &mut R,
        elapsed: u64,
        viewport: &mut Viewport,
    ) -> (r: bool)
        requires
            old(self).wf(),
            stack_depth(old(renderer).commands()) >= 0,
        ensures
            r == true,
            final(self).wf(),
            final(self).state() == old(self).advance_state(old(self).state(), elapsed),
            final(self).spec_width() == old(self).spec_width(),
            final(self).spec_height() == old(self).spec_height(),
            final(self).spec_name() == old(self).spec_name(),
            final(self).spec_loop() == old(self).spec_loop(),
            final(self).spec_translucent() == old(self).spec_translucent(),
            final(self).spec_duration() == old(self).spec_duration(),
            final(self).draw_output() == old(self).draw_output(),
            final(self).backing() == old(self).backing(),
            final(viewport).width == old(viewport).width,
            final(viewport).height == old(viewport).height,
            final(viewport).wf(),
            old(viewport).width >= 1 && old(viewport).height >= 1 ==> final(
                viewport
            ).inverse_view_transform == Some(
                inverse_affine(
                    old(self).spec_width(),
                    old(self).spec_height(),
                    old(viewport).width,
                    old(viewport).height,
                ),
            ),
            old(viewport).width == 0 || old(viewport).height == 0 ==> (final(
                viewport
            ).inverse_view_transform is None),
            final(renderer).commands() == old(renderer).commands().push(
                RenderCommand::StatePush,
            ).push(
                RenderCommand::Transform(
                    forward_affine(
                        old(self).spec_width(),
                        old(self).spec_height(),
                        old(viewport).width,
                        old(viewport).height,
                    ),
                ),
            ) + old(self).draw_output().push(RenderCommand::StatePop),
    {
        proof {
            old(self).lemma_wf_dims();
        }
        let (fwd, inv) = view_transforms(self.width(), self.height(), viewport.width,
            viewport.height);
        viewport.inverse_view_transform = inv;
        self.advance_and_apply(elapsed);
        renderer.state_push();
        renderer.transform(&fwd);
        proof {
            crate::renderer::lemma_stack_depth_push(
                old(renderer).commands(),
                RenderCommand::StatePush,
            );
            crate::renderer::lemma_stack_depth_push(
                old(renderer).commands().push(RenderCommand::StatePush),
                RenderCommand::Transform(fwd),
            );
        }
        self.draw(renderer);
        proof {
            self.lemma_draw_output_balanced();
            crate::renderer::lemma_stack_depth_concat(
                old(renderer).commands().push(RenderCommand::StatePush).push(
                    RenderCommand::Transform(fwd),
                ),
                self.draw_output(),
            );
            assert(stack_depth(renderer.commands()) >= 1);
        }
        renderer.state_pop();
        proof {
            assert(final(renderer).commands() =~= old(renderer).commands().push(
                RenderCommand::StatePush,
            ).push(RenderCommand::Transform(fwd)) + self.draw_output().push(
                RenderCommand::StatePop,
            ));
        }
        true
    }
}

/// State-stack balance: whatever trace a renderer already holds, a
/// scene's draw output leaves the stack depth exactly where it was.
pub proof fn lemma_draw_preserves_depth<S: Scene>(s: &S, before: Seq<RenderCommand>)
    requires
        s.wf(),
    ensures
        stack_depth(before + s.draw_output()) == stack_depth(before),
{
    s.lemma_draw_output_balanced();
    crate::renderer::lemma_stack_depth_concat(before, s.draw_output());
}

} // verus!
