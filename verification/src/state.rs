//! The rasterizer's global toggle state, and the command list the draw
//! pipeline produces instead of touching the driver itself.
//!
//! A command either flips one toggle or is neutral to the toggles
//! (scissor box, texture binds, blend function, draws). A spec-level
//! interpreter folds a command list over a state; the pipeline's
//! save/restore discipline is stated as: folding a frame's commands
//! over the entry state gives back the entry state.

use vstd::prelude::*;

use crate::vertex_batch::DrawCall;

verus! {

/// The five saved-and-restored rasterizer toggles.
#[derive(Clone, Copy, Debug, PartialEq, Eq, Structural)]
pub struct RasterizerState {
    pub cull_face: bool,
    pub depth_test: bool,
    pub scissor_test: bool,
    pub blend: bool,
    pub framebuffer_srgb: bool,
}

/// One toggle.
#[derive(Clone, Copy, Debug, PartialEq, Eq, Structural)]
pub enum Capability {
    CullFace,
    DepthTest,
    ScissorTest,
    Blend,
    FramebufferSrgb,
}

/// One instruction to the graphics driver, as plain data.
pub enum GpuCommand {
    /// Enable or disable one toggle.
    SetCapability { cap: Capability, enabled: bool },
    /// Select premultiplied-alpha blending (source weight one, target
    /// weight one minus source alpha).
    SetBlendFuncPremultiplied,
    /// Set the scissor box, in device pixels from the bottom-left.
    SetScissor { x: i32, y: i32, width: i32, height: i32 },
    /// Bind the atlas-managed texture of this identifier (uploading it
    /// first if it has no GPU resource yet).
    BindAtlasTexture { id: u64 },
    /// Bind a caller-supplied raw texture handle as-is.
    BindUserTexture { handle: u64 },
    /// Upload the call's buffer and draw it.
    Draw { call: DrawCall },
}

/// `state` with one toggle set to `enabled`.
pub open spec fn set_capability(
    state: RasterizerState,
    cap: Capability,
    enabled: bool,
) -> RasterizerState {
    match cap {
        Capability::CullFace => RasterizerState { cull_face: enabled, ..state },
        Capability::DepthTest => RasterizerState { depth_test: enabled, ..state },
        Capability::ScissorTest => RasterizerState { scissor_test: enabled, ..state },
        Capability::Blend => RasterizerState { blend: enabled, ..state },
        Capability::FramebufferSrgb => RasterizerState { framebuffer_srgb: enabled, ..state },
    }
}

/// The toggle state after one command.
pub open spec fn apply_command(state: RasterizerState, cmd: GpuCommand) -> RasterizerState {
    match cmd {
        GpuCommand::SetCapability { cap, enabled } => set_capability(state, cap, enabled),
        _ => state,
    }
}

/// The toggle state after a command list, first command first.
pub open spec fn apply_commands(state: RasterizerState, cmds: Seq<GpuCommand>) -> RasterizerState
    decreases cmds.len(),
{
    if cmds.len() == 0 {
        state
    } else {
        apply_commands(apply_command(state, cmds.first()), cmds.drop_first())
    }
}

/// Folding a concatenation folds the two halves in order.
pub proof fn lemma_apply_commands_append(
    state: RasterizerState,
    a: Seq<GpuCommand>,
    b: Seq<GpuCommand>,
)
    ensures
        apply_commands(state, a + b) == apply_commands(apply_commands(state, a), b),
    decreases a.len(),
{
    if a.len() == 0 {
        assert(a + b =~= b);
    } else {
        assert((a + b).first() == a.first());
        assert((a + b).drop_first() =~= a.drop_first() + b);
        lemma_apply_commands_append(apply_command(state, a.first()), a.drop_first(), b);
    }
}

/// The five commands that force every toggle to the values of `target`.
pub open spec fn state_set_commands(target: RasterizerState) -> Seq<GpuCommand> {
    seq![
        GpuCommand::SetCapability { cap: Capability::CullFace, enabled: target.cull_face },
        GpuCommand::SetCapability { cap: Capability::DepthTest, enabled: target.depth_test },
        GpuCommand::SetCapability { cap: Capability::ScissorTest, enabled: target.scissor_test },
        GpuCommand::SetCapability { cap: Capability::Blend, enabled: target.blend },
        GpuCommand::SetCapability {
            cap: Capability::FramebufferSrgb,
            enabled: target.framebuffer_srgb,
        },
    ]
}

/// Whatever the state was, the five set commands leave exactly `target`.
pub proof fn lemma_apply_state_set(state: RasterizerState, target: RasterizerState)
    ensures
        apply_commands(state, state_set_commands(target)) == target,
{
    reveal_with_fuel(apply_commands, 6);
    let cmds = state_set_commands(target);
    let s1 = apply_command(state, cmds[0]);
    let s2 = apply_command(s1, cmds[1]);
    let s3 = apply_command(s2, cmds[2]);
    let s4 = apply_command(s3, cmds[3]);
    let s5 = apply_command(s4, cmds[4]);
    assert(cmds.drop_first().drop_first().drop_first().drop_first().drop_first().len() == 0);
    assert(apply_commands(state, cmds) == s5);
    assert(s5 == target);
}

/// A list without toggle commands leaves the state alone.
pub proof fn lemma_apply_neutral(state: RasterizerState, cmds: Seq<GpuCommand>)
    requires
        forall|i: int| 0 <= i < cmds.len() ==> !(#[trigger] cmds[i] is SetCapability),
    ensures
        apply_commands(state, cmds) == state,
    decreases cmds.len(),
{
    if cmds.len() > 0 {
        assert(!(cmds[0] is SetCapability));
        lemma_apply_neutral(state, cmds.drop_first());
    }
}

/// The draw calls a command list issues, in order.
pub open spec fn draws_of(cmds: Seq<GpuCommand>) -> Seq<DrawCall>
    decreases cmds.len(),
{
    if cmds.len() == 0 {
        Seq::empty()
    } else {
        (match cmds.first() {
            GpuCommand::Draw { call } => seq![call],
            _ => Seq::empty(),
        }) + draws_of(cmds.drop_first())
    }
}

/// The draws of a concatenation are the draws of the halves, in order.
pub proof fn lemma_draws_of_append(a: Seq<GpuCommand>, b: Seq<GpuCommand>)
    ensures
        draws_of(a + b) == draws_of(a) + draws_of(b),
    decreases a.len(),
{
    if a.len() == 0 {
        assert(a + b =~= b);
        assert(draws_of(a) + draws_of(b) =~= draws_of(b));
    } else {
        assert((a + b).first() == a.first());
        assert((a + b).drop_first() =~= a.drop_first() + b);
        lemma_draws_of_append(a.drop_first(), b);
        assert(draws_of(a + b) =~= draws_of(a) + draws_of(b));
    }
}

/// A list without draw commands issues no draw.
pub proof fn lemma_draws_of_no_draw(cmds: Seq<GpuCommand>)
    requires
        forall|i: int| 0 <= i < cmds.len() ==> !(#[trigger] cmds[i] is Draw),
    ensures
        draws_of(cmds) == Seq::<DrawCall>::empty(),
    decreases cmds.len(),
{
    if cmds.len() > 0 {
        assert(!(cmds[0] is Draw));
        lemma_draws_of_no_draw(cmds.drop_first());
        assert(draws_of(cmds) =~= Seq::<DrawCall>::empty());
    }
}

} // verus!
