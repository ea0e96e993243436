//! The renderer capability: a backend-agnostic drawing interface.
//!
//! A backend is modelled by the trace of commands issued to it. Contracts on
//! the trait methods pin exactly what each call appends to that trace, so
//! frame-drive code can be proved to bracket its drawing with matched
//! `state_push` / `state_pop` pairs.

use vstd::prelude::*;

use crate::transform::Affine;

verus! {

/// An axis-aligned filled rectangle, the drawing primitive of this library's
/// content model.
#[derive(Clone, Copy, Debug, PartialEq, Eq, Structural)]
pub struct Rect {
    pub x: u32,
    pub y: u32,
    pub width: u32,
    pub height: u32,
}

/// One drawing command issued to a renderer backend.
#[derive(Clone, Copy, Debug, PartialEq, Eq, Structural)]
pub enum RenderCommand {
    /// Save the current drawing state (transform and clip).
    StatePush,
    /// Restore the most recently saved drawing state.
    StatePop,
    /// Compose the given affine map onto the current transform.
    Transform(Affine),
    /// Fill a rectangular path in current coordinates.
    Path(Rect),
}

/// How one command changes the depth of the renderer's state stack.
pub open spec fn command_depth_delta(c: RenderCommand) -> int {
    match c {
        RenderCommand::StatePush => 1,
        RenderCommand::StatePop => -1,
        RenderCommand::Transform(_) => 0,
        RenderCommand::Path(_) => 0,
    }
}

/// The net state-stack depth after replaying a command trace from depth 0.
pub open spec fn stack_depth(cmds: Seq<RenderCommand>) -> int
    decreases cmds.len(),
{
    if cmds.len() == 0 {
        0
    } else {
        stack_depth(cmds.drop_last()) + command_depth_delta(cmds.last())
    }
}

pub proof fn lemma_stack_depth_push(s: Seq<RenderCommand>, c: RenderCommand)
    ensures
        stack_depth(s.push(c)) == stack_depth(s) + command_depth_delta(c),
{
    assert(s.push(c).drop_last() =~= s);
    assert(s.push(c).last() == c);
}

pub proof fn lemma_stack_depth_concat(a: Seq<RenderCommand>, b: Seq<RenderCommand>)
    ensures
        stack_depth(a + b) == stack_depth(a) + stack_depth(b),
    decreases b.len(),
{
    if b.len() == 0 {
        assert(a + b =~= a);
    } else {
        assert((a + b).drop_last() =~= a + b.drop_last());
        lemma_stack_depth_concat(a, b.drop_last());
    }
}

/// A trace of pure drawing commands does not move the state stack.
pub proof fn lemma_stack_depth_flat(s: Seq<RenderCommand>)
    requires
        forall|i: int| 0 <= i < s.len() ==> command_depth_delta(#[trigger] s[i]) == 0,
    ensures
        stack_depth(s) == 0,
    decreases s.len(),
{
    if s.len() > 0 {
        assert(command_depth_delta(s[s.len() - 1]) == 0);
        lemma_stack_depth_flat(s.drop_last());
    }
}

/// A body of pure drawing commands bracketed by one push and one pop is
/// balanced.
pub proof fn lemma_bracketed_flat_balanced(body: Seq<RenderCommand>)
    requires
        forall|i: int| 0 <= i < body.len() ==> command_depth_delta(#[trigger] body[i]) == 0,
    ensures
        stack_depth(seq![RenderCommand::StatePush] + body + seq![RenderCommand::StatePop]) == 0,
{
    lemma_stack_depth_flat(body);
    assert(stack_depth(seq![RenderCommand::StatePush]) == 1) by {
        let s1 = seq![RenderCommand::StatePush];
        assert(s1.len() == 1);
        assert(s1.last() == RenderCommand::StatePush);
        assert(s1.drop_last() =~= Seq::<RenderCommand>::empty());
        assert(stack_depth(Seq::<RenderCommand>::empty()) == 0);
    }
    assert(stack_depth(seq![RenderCommand::StatePop]) == -1) by {
        let s1 = seq![RenderCommand::StatePop];
        assert(s1.len() == 1);
        assert(s1.last() == RenderCommand::StatePop);
        assert(s1.drop_last() =~= Seq::<RenderCommand>::empty());
        assert(stack_depth(Seq::<RenderCommand>::empty()) == 0);
    }
    lemma_stack_depth_concat(seq![RenderCommand::StatePush], body);
    lemma_stack_depth_concat(seq![RenderCommand::StatePush] + body, seq![RenderCommand::StatePop]);
}

/// The capability any rendering backend implements. Its state is abstracted
/// as the trace of commands it has been handed; each operation appends
/// exactly one command. `state_pop` may only be called when there is a saved
/// state to restore.
pub trait Renderer: Sized {
    spec fn commands(&self) -> Seq<RenderCommand>;

    fn state_push(&mut self)
        ensures
            final(self).commands() == old(self).commands().push(RenderCommand::StatePush),
    ;

    fn state_pop(&mut self)
        requires
            stack_depth(old(self).commands()) >= 1,
        ensures
            final(self).commands() == old(self).commands().push(RenderCommand::StatePop),
    ;

    fn transform(&mut self, t: &Affine)
        ensures
            final(self).commands() == old(self).commands().push(RenderCommand::Transform(*t)),
    ;

    fn draw_path(&mut self, r: &Rect)
        ensures
            final(self).commands() == old(self).commands().push(RenderCommand::Path(*r)),
    ;
}

/// A backend that records the command stream, suitable for composing a
/// frame to hand to a rasterizer, and for inspecting what was drawn.
#[derive(Debug)]
pub struct CommandRecorder {
    pub commands: Vec<RenderCommand>,
}

impl CommandRecorder {
    pub fn new() -> (r: CommandRecorder)
        ensures
            r.commands@ == Seq::<RenderCommand>::empty(),
    {
        CommandRecorder { commands: Vec::new() }
    }
}

impl Renderer for CommandRecorder {
    open spec fn commands(&self) -> Seq<RenderCommand> {
        self.commands@
    }

    fn state_push(&mut self) {
        self.commands.push(RenderCommand::StatePush);
    }

    fn state_pop(&mut self) {
        self.commands.push(RenderCommand::StatePop);
    }

    fn transform(&mut self, t: &Affine) {
        self.commands.push(RenderCommand::Transform(*t));
    }

    fn draw_path(&mut self, r: &Rect) {
        self.commands.push(RenderCommand::Path(*r));
    }
}

} // verus!
