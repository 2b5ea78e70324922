//! The per-primitive draw pipeline: for every clipped triangle mesh, in
//! paint order, compute the device-pixel scissor box, resolve the
//! texture reference, batch the mesh's vertices, and save and restore
//! the rasterizer toggles — all as a list of [`GpuCommand`]s for the
//! unverified shell to execute.
//!
//! Coordinates are 16.16 fixed point: a value `v` stands for the real
//! number `v / 65536`. The scale factor from interface points to device
//! pixels (`pixels_per_point`) is fixed point too, so a point
//! coordinate times the scale is an exact integer at the 32.32 scale,
//! where clamping and rounding are carried out.

use vstd::prelude::*;

use crate::state::Capability;
use crate::state::GpuCommand;
use crate::state::RasterizerState;
use crate::state::apply_commands;
use crate::state::draws_of;
use crate::state::lemma_apply_commands_append;
use crate::state::lemma_apply_neutral;
use crate::state::lemma_apply_state_set;
use crate::state::lemma_draws_of_append;
use crate::state::lemma_draws_of_no_draw;
use crate::state::state_set_commands;
use crate::texture::Rgba8;
use crate::texture::TextureRGBA8;
use crate::vertex_batch::PrimType;
use crate::vertex_batch::VertCompType;
use crate::vertex_batch::VertFetchMode;
use crate::vertex_batch::VertexBatch;
use std::collections::HashMap;

verus! {

broadcast use vstd::std_specs::hash::group_hash_axioms;

/// One in 16.16 fixed point.
pub const FX_ONE: i64 = 65536;

/// One at the 32.32 scale of a product of two 16.16 values.
pub const FX2_ONE: i64 = 0x1_0000_0000;

/// Half at the 32.32 scale; added before dividing to round to nearest.
pub const FX2_HALF: i64 = 0x8000_0000;

/// An axis-aligned rectangle in interface point space, 16.16 fixed
/// point per coordinate.
#[derive(Clone, Copy, Debug, PartialEq, Eq, Structural)]
pub struct Rect {
    pub min_x: i32,
    pub min_y: i32,
    pub max_x: i32,
    pub max_y: i32,
}

/// One mesh vertex: position in point space and texture coordinates in
/// 16.16 fixed point, color as the toolkit's 0-255 channel values.
#[derive(Clone, Copy, Debug, PartialEq, Eq, Structural)]
pub struct Vertex {
    pub pos_x: i32,
    pub pos_y: i32,
    pub uv_x: i32,
    pub uv_y: i32,
    pub color: Rgba8,
}

/// Which texture a mesh samples: one managed in the atlas table, looked
/// up by identifier, or a raw handle supplied (and owned) by the
/// caller.
#[derive(Clone, Copy, Debug, PartialEq, Eq, Structural)]
pub enum TextureRef {
    Managed { id: u64 },
    User { handle: u64 },
}

/// An indexed triangle list with its texture reference.
pub struct MeshData {
    pub vertices: Vec<Vertex>,
    pub indices: Vec<u32>,
    pub texture: TextureRef,
}

/// One clipped draw primitive: a mesh and the rectangle outside of
/// which it must not be rasterized.
pub struct ClippedPrimitive {
    pub clip_rect: Rect,
    pub mesh: MeshData,
}

/// Scale factor and screen size for one frame. The bounds are machine
/// limits: they keep every product of the scissor computation inside 64
/// bits.
#[derive(Clone, Copy, Debug, PartialEq, Eq, Structural)]
pub struct FrameParams {
    /// Device pixels per interface point, 16.16 fixed point, positive.
    pub pixels_per_point: i64,
    /// Screen width in device pixels.
    pub screen_width: u32,
    /// Screen height in device pixels.
    pub screen_height: u32,
}

impl FrameParams {
    pub open spec fn wf(self) -> bool {
        &&& 0 < self.pixels_per_point <= 0x8000_0000
        &&& self.screen_width <= 32768
        &&& self.screen_height <= 32768
    }
}

/// `v` clamped into `[lo, hi]` (callers keep `lo <= hi`).
pub open spec fn clamp_int(v: int, lo: int, hi: int) -> int {
    if v < lo {
        lo
    } else if v > hi {
        hi
    } else {
        v
    }
}

/// A non-negative 32.32 value rounded to the nearest integer, halves
/// up.
pub open spec fn round_fx2(v: int) -> int {
    (v + 0x8000_0000) / 0x1_0000_0000
}

/// The left scissor edge: the clip rectangle's left, scaled to device
/// pixels, clamped into the screen, rounded.
pub open spec fn sc_min_x(rect: Rect, ppp: int, sw: int) -> int {
    round_fx2(clamp_int(rect.min_x * ppp, 0, sw * 0x1_0000_0000))
}

/// The bottom scissor edge in top-down coordinates.
pub open spec fn sc_min_y(rect: Rect, ppp: int, sh: int) -> int {
    round_fx2(clamp_int(rect.min_y * ppp, 0, sh * 0x1_0000_0000))
}

/// The right scissor edge, clamped to lie at or right of the left edge.
pub open spec fn sc_max_x(rect: Rect, ppp: int, sw: int) -> int {
    round_fx2(
        clamp_int(
            rect.max_x * ppp,
            clamp_int(rect.min_x * ppp, 0, sw * 0x1_0000_0000),
            sw * 0x1_0000_0000,
        ),
    )
}

/// The top scissor edge in top-down coordinates, clamped to lie at or
/// below the bottom edge.
pub open spec fn sc_max_y(rect: Rect, ppp: int, sh: int) -> int {
    round_fx2(
        clamp_int(
            rect.max_y * ppp,
            clamp_int(rect.min_y * ppp, 0, sh * 0x1_0000_0000),
            sh * 0x1_0000_0000,
        ),
    )
}

/// The scissor box in the rasterizer's bottom-left-origin convention:
/// `y` is the screen height minus the clip rectangle's lower edge
/// (`max_y`, since the interface counts rows from the top).
pub open spec fn scissor_box_spec(rect: Rect, ppp: int, sw: int, sh: int) -> (int, int, int, int) {
    (
        sc_min_x(rect, ppp, sw),
        sh - sc_max_y(rect, ppp, sh),
        sc_max_x(rect, ppp, sw) - sc_min_x(rect, ppp, sw),
        sc_max_y(rect, ppp, sh) - sc_min_y(rect, ppp, sh),
    )
}

/// Scale one 16.16 coordinate by the 16.16 factor, clamp the 32.32
/// result into `[lo, hi]`.
fn scale_clamp(coord: i32, ppp: i64, lo: i64, hi: i64) -> (r: i64)
    requires
        0 < ppp <= 0x8000_0000,
        0 <= lo <= hi <= 32768 * 0x1_0000_0000,
    ensures
        r == clamp_int(coord * ppp, lo as int, hi as int),
        lo <= r <= hi,
{
    proof {
        assert((coord as int) * ppp <= 0x8000_0000 * 0x8000_0000 && (coord as int) * ppp
            >= -0x8000_0000 * 0x8000_0000) by (nonlinear_arith)
            requires
                -0x8000_0000 <= coord <= 0x8000_0000 && 0 < ppp <= 0x8000_0000,
        ;
    }
    let scaled = (coord as i64) * ppp;
    if scaled < lo {
        lo
    } else if scaled > hi {
        hi
    } else {
        scaled
    }
}

/// Round a clamped 32.32 value to the nearest pixel.
fn round_scaled(v: i64) -> (r: i64)
    requires
        0 <= v <= 32768 * 0x1_0000_0000,
    ensures
        r == round_fx2(v as int),
        0 <= r <= 32768,
{
    (v + FX2_HALF) / FX2_ONE
}

/// The device-pixel scissor box for a clip rectangle: scale by
/// `pixels_per_point`, clamp the minimum into the screen, clamp the
/// maximum between the minimum and the screen, round, and flip from the
/// interface's top-left origin to the rasterizer's bottom-left origin.
pub fn scissor_box(rect: &Rect, params: &FrameParams) -> (r: (i32, i32, i32, i32))
    requires
        params.wf(),
    ensures
        (r.0 as int, r.1 as int, r.2 as int, r.3 as int) == scissor_box_spec(
            *rect,
            params.pixels_per_point as int,
            params.screen_width as int,
            params.screen_height as int,
        ),
        0 <= r.0 <= params.screen_width,
        0 <= r.1 <= params.screen_height,
        0 <= r.2 <= params.screen_width,
        0 <= r.3 <= params.screen_height,
        r.0 + r.2 <= params.screen_width,
        r.3 <= params.screen_height - r.1,
{
    let ppp = params.pixels_per_point;
    let sw_fx2 = (params.screen_width as i64) * FX2_ONE;
    let sh_fx2 = (params.screen_height as i64) * FX2_ONE;
    let cmin_x = scale_clamp(rect.min_x, ppp, 0, sw_fx2);
    let cmin_y = scale_clamp(rect.min_y, ppp, 0, sh_fx2);
    let cmax_x = scale_clamp(rect.max_x, ppp, cmin_x, sw_fx2);
    let cmax_y = scale_clamp(rect.max_y, ppp, cmin_y, sh_fx2);
    let rmin_x = round_scaled(cmin_x);
    let rmin_y = round_scaled(cmin_y);
    let rmax_x = round_scaled(cmax_x);
    let rmax_y = round_scaled(cmax_y);
    proof {
        vstd::arithmetic::div_mod::lemma_div_is_ordered(
            cmin_x as int + 0x8000_0000,
            cmax_x as int + 0x8000_0000,
            0x1_0000_0000,
        );
        vstd::arithmetic::div_mod::lemma_div_is_ordered(
            cmin_y as int + 0x8000_0000,
            cmax_y as int + 0x8000_0000,
            0x1_0000_0000,
        );
    }
    (
        rmin_x as i32,
        (params.screen_height as i32) - (rmax_y as i32),
        (rmax_x as i32) - (rmin_x as i32),
        (rmax_y as i32) - (rmin_y as i32),
    )
}

/// The eight buffer scalars of one output vertex, in format order:
/// position, texture coordinates with the vertical axis flipped
/// (`1 - v`, because the interface's texture origin is the top-left
/// while the rasterizer's is the bottom-left), and the four color
/// channels as raw 0-255 values.
pub open spec fn vertex_scalars(v: Vertex) -> Seq<i64> {
    seq![
        v.pos_x as i64,
        v.pos_y as i64,
        v.uv_x as i64,
        (65536 - v.uv_y) as i64,
        (v.color.r * 65536) as i64,
        (v.color.g * 65536) as i64,
        (v.color.b * 65536) as i64,
        (v.color.a * 65536) as i64,
    ]
}

/// The whole vertex buffer of a mesh: one output vertex per index, in
/// index order (vertices may be shared between triangles, so the index
/// list is walked, not the vertex list).
pub open spec fn mesh_buffer(m: MeshData) -> Seq<i64> {
    Seq::new(
        (m.indices@.len() * 8) as nat,
        |k: int| vertex_scalars(m.vertices@[m.indices@[k / 8] as int])[k % 8],
    )
}

/// Every index points into the mesh's own vertex list.
pub open spec fn mesh_indices_in_bounds(m: MeshData) -> bool {
    forall|i: int| 0 <= i < m.indices@.len() ==> (#[trigger] m.indices@[i]) < m.vertices@.len()
}

/// Why a primitive is skipped rather than drawn.
#[derive(Clone, Copy, Debug, PartialEq, Eq, Structural)]
pub enum DrawError {
    /// The mesh has no indices: nothing to draw.
    EmptyIndices,
    /// The index list's length is not a multiple of three, so it is no
    /// triangle list.
    IncompleteTriangles,
    /// An index points outside the mesh's vertex list.
    IndexOutOfBounds,
    /// The mesh references an atlas-managed texture that the table does
    /// not hold.
    TextureNotFound { id: u64 },
}

/// The error a primitive is skipped with, or nothing when it can be
/// drawn, given the set of atlas texture identifiers in the table.
pub open spec fn prim_error(prim: ClippedPrimitive, atlas_ids: Set<u64>) -> Option<DrawError> {
    if prim.mesh.indices@.len() == 0 {
        Some(DrawError::EmptyIndices)
    } else if prim.mesh.indices@.len() % 3 != 0 {
        Some(DrawError::IncompleteTriangles)
    } else if !mesh_indices_in_bounds(prim.mesh) {
        Some(DrawError::IndexOutOfBounds)
    } else {
        match prim.mesh.texture {
            TextureRef::Managed { id } => if atlas_ids.contains(id) {
                None
            } else {
                Some(DrawError::TextureNotFound { id })
            },
            TextureRef::User { handle } => None,
        }
    }
}

/// The toggle values every primitive is drawn under: culling and depth
/// testing off (the meshes have no reliable winding and sit on top
/// within their clip region), scissor, blending and sRGB-aware
/// framebuffer writes on.
pub open spec fn draw_pass_state() -> RasterizerState {
    RasterizerState {
        cull_face: false,
        depth_test: false,
        scissor_test: true,
        blend: true,
        framebuffer_srgb: true,
    }
}

/// The fixed vertex format of the pipeline: two-component position,
/// two-component texture coordinates, four-component color, all raw
/// floats.
pub open spec fn pipeline_format(attrs: Seq<crate::vertex_batch::AttributeDescriptor>) -> bool {
    &&& attrs.len() == 3
    &&& attrs[0].name@ == "in_pos"@
    &&& attrs[0].comp_count == 2
    &&& attrs[0].comp_type == VertCompType::F32
    &&& attrs[0].fetch_mode == VertFetchMode::Float
    &&& attrs[1].name@ == "in_uv"@
    &&& attrs[1].comp_count == 2
    &&& attrs[1].comp_type == VertCompType::F32
    &&& attrs[1].fetch_mode == VertFetchMode::Float
    &&& attrs[2].name@ == "in_color"@
    &&& attrs[2].comp_count == 4
    &&& attrs[2].comp_type == VertCompType::F32
    &&& attrs[2].fetch_mode == VertFetchMode::Float
}

/// What the command list of one successfully drawn primitive looks
/// like: force the draw-pass toggles and the premultiplied-alpha blend
/// function, set the scissor box, bind the resolved texture, issue
/// exactly one draw of the flattened mesh, and restore every toggle to
/// its entry value — so the toggles come back to `entry` on every
/// successful path.
pub open spec fn prim_commands_ok(
    cmds: Seq<GpuCommand>,
    prim: ClippedPrimitive,
    params: FrameParams,
    entry: RasterizerState,
    shader: Seq<String>,
) -> bool {
    let sb = scissor_box_spec(
        prim.clip_rect,
        params.pixels_per_point as int,
        params.screen_width as int,
        params.screen_height as int,
    );
    &&& cmds.len() == 14
    &&& cmds.subrange(0, 5) == state_set_commands(draw_pass_state())
    &&& cmds[5] == GpuCommand::SetBlendFuncPremultiplied
    &&& cmds[6] is SetScissor
    &&& cmds[6]->SetScissor_x as int == sb.0
    &&& cmds[6]->SetScissor_y as int == sb.1
    &&& cmds[6]->SetScissor_width as int == sb.2
    &&& cmds[6]->SetScissor_height as int == sb.3
    &&& cmds[7] == (match prim.mesh.texture {
        TextureRef::Managed { id } => GpuCommand::BindAtlasTexture { id },
        TextureRef::User { handle } => GpuCommand::BindUserTexture { handle },
    })
    &&& cmds[8] is Draw
    &&& cmds[8]->Draw_call.topology == PrimType::Tris
    &&& cmds[8]->Draw_call.vertex_count == prim.mesh.indices@.len()
    &&& cmds[8]->Draw_call.buffer@ == mesh_buffer(prim.mesh)
    &&& pipeline_format(cmds[8]->Draw_call.format.attributes@)
    &&& crate::vertex_batch::binding_resolves(
        cmds[8]->Draw_call.binding@,
        cmds[8]->Draw_call.format.attributes@,
        shader,
    )
    &&& cmds.subrange(9, 14) == state_set_commands(entry)
    &&& apply_commands(entry, cmds) == entry
    &&& draws_of(cmds) == seq![cmds[8]->Draw_call]
}

/// Process one clipped primitive: validate the mesh, resolve its
/// texture, compute the scissor box and emit the command list that
/// draws it between a toggle save and a full toggle restore. A
/// primitive that cannot be drawn yields its error, touches nothing and
/// emits no command at all, so a skipped primitive changes no state and
/// affects no other primitive.
pub fn draw_primitive(
    prim: &ClippedPrimitive,
    textures: &HashMap<u64, TextureRGBA8>,
    params: &FrameParams,
    entry: RasterizerState,
    imm: &mut VertexBatch,
    shader_attrs: &Vec<String>,
) -> (r: Result<Vec<GpuCommand>, DrawError>)
    requires
        params.wf(),
        old(imm).wf(),
        !old(imm).spec_in_session(),
        prim.mesh.indices@.len() * 8 <= usize::MAX,
    ensures
        final(imm).wf(),
        !final(imm).spec_in_session(),
        r is Ok <==> prim_error(*prim, textures@.dom()) is None,
        r matches Err(e) ==> Some(e) == prim_error(*prim, textures@.dom()),
        r is Err ==> *final(imm) == *old(imm),
        r matches Ok(cmds) ==> prim_commands_ok(cmds@, *prim, *params, entry, shader_attrs@),
{
    let nidx = prim.mesh.indices.len();
    if nidx == 0 {
        return Err(DrawError::EmptyIndices);
    }
    if nidx % 3 != 0 {
        return Err(DrawError::IncompleteTriangles);
    }
    let nvert = prim.mesh.vertices.len();
    let mut i: usize = 0;
    while i < nidx
        invariant
            i <= nidx,
            nidx == prim.mesh.indices@.len(),
            nidx > 0,
            nidx % 3 == 0,
            nvert == prim.mesh.vertices@.len(),
            forall|k: int| 0 <= k < i ==> (#[trigger] prim.mesh.indices@[k]) < nvert,
            *imm == *old(imm),
            old(imm).wf(),
            !old(imm).spec_in_session(),
        decreases nidx - i,
    {
        if prim.mesh.indices[i] as usize >= nvert {
            return Err(DrawError::IndexOutOfBounds);
        }
        i = i + 1;
    }
    let bind_cmd = match prim.mesh.texture {
        TextureRef::Managed { id } => {
            if !textures.contains_key(&id) {
                return Err(DrawError::TextureNotFound { id });
            }
            GpuCommand::BindAtlasTexture { id }
        },
        TextureRef::User { handle } => GpuCommand::BindUserTexture { handle },
    };
    proof {
        reveal_strlit("in_pos");
        reveal_strlit("in_uv");
        reveal_strlit("in_color");
        assert("in_pos"@.len() == 6 && "in_uv"@.len() == 5 && "in_color"@.len() == 8);
        assert("in_pos"@ != "in_uv"@ && "in_pos"@ != "in_color"@ && "in_uv"@ != "in_color"@);
    }
    imm.clear_format();
    let pos_h = imm.add_attribute("in_pos".to_owned(), VertCompType::F32, 2, VertFetchMode::Float);
    let uv_h = imm.add_attribute("in_uv".to_owned(), VertCompType::F32, 2, VertFetchMode::Float);
    let color_h = imm.add_attribute(
        "in_color".to_owned(),
        VertCompType::F32,
        4,
        VertFetchMode::Float,
    );
    let ghost fmt = imm.spec_format();
    proof {
        let a3 = fmt.attributes@;
        assert(a3.len() == 3);
        assert(a3.take(0) =~= Seq::<crate::vertex_batch::AttributeDescriptor>::empty());
        assert(a3.take(3) =~= a3);
        crate::vertex_batch::lemma_stride_take_step(a3, 0);
        crate::vertex_batch::lemma_stride_take_step(a3, 1);
        crate::vertex_batch::lemma_stride_take_step(a3, 2);
        assert(fmt.spec_stride() == 8);
        assert(fmt.spec_offset(0) == 0);
        assert(fmt.spec_offset(1) == 2);
        assert(fmt.spec_offset(2) == 4);
        assert(pipeline_format(fmt.attributes@));
    }
    imm.begin(PrimType::Tris, nidx, shader_attrs);
    let ghost binding0 = imm.spec_binding();
    let mut j: usize = 0;
    while j < nidx
        invariant
            j <= nidx,
            nidx == prim.mesh.indices@.len(),
            nvert == prim.mesh.vertices@.len(),
            nidx * 8 <= usize::MAX,
            forall|k: int| 0 <= k < nidx ==> (#[trigger] prim.mesh.indices@[k]) < nvert,
            imm.wf(),
            imm.spec_in_session(),
            imm.spec_format() == fmt,
            fmt.spec_stride() == 8,
            fmt.spec_offset(0) == 0,
            fmt.spec_offset(1) == 2,
            fmt.spec_offset(2) == 4,
            fmt.attributes@.len() == 3,
            fmt.attributes@[0].comp_count == 2,
            fmt.attributes@[1].comp_count == 2,
            fmt.attributes@[2].comp_count == 4,
            imm.spec_topology() == PrimType::Tris,
            imm.spec_expected() == nidx,
            imm.spec_emitted() == j,
            imm.spec_binding() == binding0,
            imm.spec_buffer().len() == nidx * 8,
            forall|i2: int| 0 <= i2 < 3 ==> !(#[trigger] imm.spec_attr_written()[i2]),
            pos_h == 0 && uv_h == 1 && color_h == 2,
            forall|k: int|
                0 <= k < 8 * j ==> imm.spec_buffer()[k] == mesh_buffer(prim.mesh)[k],
        decreases nidx - j,
    {
        let idx = prim.mesh.indices[j] as usize;
        let v = prim.mesh.vertices[idx];
        let ghost b0 = imm.spec_buffer();
        imm.attr_2(uv_h, v.uv_x as i64, FX_ONE - (v.uv_y as i64));
        imm.attr_4(
            color_h,
            (v.color.r as i64) * FX_ONE,
            (v.color.g as i64) * FX_ONE,
            (v.color.b as i64) * FX_ONE,
            (v.color.a as i64) * FX_ONE,
        );
        imm.vertex_2(pos_h, v.pos_x as i64, v.pos_y as i64);
        proof {
            let base = 8 * (j as int);
            assert(v == prim.mesh.vertices@[prim.mesh.indices@[j as int] as int]);
            assert forall|m: int| 0 <= m < 8 implies mesh_buffer(prim.mesh)[base + m]
                == vertex_scalars(v)[m] by {
                vstd::arithmetic::div_mod::lemma_fundamental_div_mod_converse(
                    base + m,
                    8,
                    j as int,
                    m,
                );
            }
            assert forall|k: int| 0 <= k < 8 * (j + 1) implies imm.spec_buffer()[k] == mesh_buffer(
                prim.mesh,
            )[k] by {
                if k < base {
                    assert(imm.spec_buffer()[k] == b0[k]);
                } else {
                    let m = k - base;
                    assert(imm.spec_buffer()[k] == vertex_scalars(v)[m]);
                }
            }
        }
        j = j + 1;
    }
    let call = imm.end();
    proof {
        assert(call.buffer@ =~= mesh_buffer(prim.mesh));
    }
    let sb = scissor_box(&prim.clip_rect, params);
    let mut cmds: Vec<GpuCommand> = Vec::new();
    cmds.push(GpuCommand::SetCapability { cap: Capability::CullFace, enabled: false });
    cmds.push(GpuCommand::SetCapability { cap: Capability::DepthTest, enabled: false });
    cmds.push(GpuCommand::SetCapability { cap: Capability::ScissorTest, enabled: true });
    cmds.push(GpuCommand::SetCapability { cap: Capability::Blend, enabled: true });
    cmds.push(GpuCommand::SetCapability { cap: Capability::FramebufferSrgb, enabled: true });
    cmds.push(GpuCommand::SetBlendFuncPremultiplied);
    cmds.push(GpuCommand::SetScissor { x: sb.0, y: sb.1, width: sb.2, height: sb.3 });
    cmds.push(bind_cmd);
    cmds.push(GpuCommand::Draw { call });
    cmds.push(GpuCommand::SetCapability { cap: Capability::CullFace, enabled: entry.cull_face });
    cmds.push(GpuCommand::SetCapability { cap: Capability::DepthTest, enabled: entry.depth_test });
    cmds.push(
        GpuCommand::SetCapability { cap: Capability::ScissorTest, enabled: entry.scissor_test },
    );
    cmds.push(GpuCommand::SetCapability { cap: Capability::Blend, enabled: entry.blend });
    cmds.push(
        GpuCommand::SetCapability {
            cap: Capability::FramebufferSrgb,
            enabled: entry.framebuffer_srgb,
        },
    );
    proof {
        assert(cmds@.subrange(0, 5) =~= state_set_commands(draw_pass_state()));
        assert(cmds@.subrange(9, 14) =~= state_set_commands(entry));
        lemma_prim_commands_shape(cmds@, *prim, *params, entry, shader_attrs@);
    }
    Ok(cmds)
}

/// A fourteen-command list with the layout the pipeline emits folds the
/// toggles back to the entry state and issues exactly its one draw.
proof fn lemma_prim_commands_shape(
    cmds: Seq<GpuCommand>,
    prim: ClippedPrimitive,
    params: FrameParams,
    entry: RasterizerState,
    shader: Seq<String>,
)
    requires
        cmds.len() == 14,
        cmds.subrange(0, 5) == state_set_commands(draw_pass_state()),
        !(cmds[5] is SetCapability),
        !(cmds[6] is SetCapability),
        !(cmds[7] is SetCapability),
        !(cmds[8] is SetCapability),
        !(cmds[5] is Draw),
        !(cmds[6] is Draw),
        !(cmds[7] is Draw),
        cmds[8] is Draw,
        cmds.subrange(9, 14) == state_set_commands(entry),
    ensures
        apply_commands(entry, cmds) == entry,
        draws_of(cmds) == seq![cmds[8]->Draw_call],
{
    let a = cmds.subrange(0, 5);
    let m = cmds.subrange(5, 9);
    let r = cmds.subrange(9, 14);
    assert(cmds =~= a + m + r);
    lemma_apply_commands_append(entry, a + m, r);
    lemma_apply_commands_append(entry, a, m);
    lemma_apply_state_set(entry, draw_pass_state());
    assert(forall|i: int| 0 <= i < m.len() ==> !(#[trigger] m[i] is SetCapability));
    lemma_apply_neutral(draw_pass_state(), m);
    lemma_apply_state_set(draw_pass_state(), entry);
    reveal_with_fuel(draws_of, 3);
    let p = cmds.subrange(0, 8);
    let d = cmds.subrange(8, 9);
    assert(cmds =~= p + d + r);
    lemma_draws_of_append(p + d, r);
    lemma_draws_of_append(p, d);
    assert(forall|i: int| 0 <= i < p.len() ==> !(#[trigger] p[i] is Draw));
    lemma_draws_of_no_draw(p);
    assert(forall|i: int| 0 <= i < r.len() ==> !(#[trigger] r[i] is Draw));
    lemma_draws_of_no_draw(r);
    assert(draws_of(d) =~= seq![cmds[8]->Draw_call]);
    assert(draws_of(cmds) =~= seq![cmds[8]->Draw_call]);
}

/// The skip reports the pipeline has produced after looking at the
/// first `n` primitives: the position and error of each rejected one,
/// in order.
pub open spec fn skips_upto(
    prims: Seq<ClippedPrimitive>,
    atlas_ids: Set<u64>,
    n: int,
) -> Seq<(usize, DrawError)>
    decreases n,
{
    if n <= 0 {
        Seq::empty()
    } else {
        let s = skips_upto(prims, atlas_ids, n - 1);
        match prim_error(prims[n - 1], atlas_ids) {
            Some(e) => s.push((((n - 1) as usize), e)),
            None => s,
        }
    }
}

/// The primitives among the first `n` that are drawn, in paint order.
pub open spec fn kept_upto(
    prims: Seq<ClippedPrimitive>,
    atlas_ids: Set<u64>,
    n: int,
) -> Seq<ClippedPrimitive>
    decreases n,
{
    if n <= 0 {
        Seq::empty()
    } else {
        let s = kept_upto(prims, atlas_ids, n - 1);
        if prim_error(prims[n - 1], atlas_ids) is None {
            s.push(prims[n - 1])
        } else {
            s
        }
    }
}

/// Process a whole frame's primitive list, in paint order. Every
/// primitive that can be drawn contributes its command list; every
/// other is reported with its error and contributes nothing. Folding
/// the frame's commands over the entry toggle state gives back the
/// entry state, and the draws issued are exactly the flattened meshes
/// of the drawable primitives, in order.
pub fn draw_primitives(
    prims: &Vec<ClippedPrimitive>,
    textures: &HashMap<u64, TextureRGBA8>,
    params: &FrameParams,
    entry: RasterizerState,
    imm: &mut VertexBatch,
    shader_attrs: &Vec<String>,
) -> (r: (Vec<GpuCommand>, Vec<(usize, DrawError)>))
    requires
        params.wf(),
        old(imm).wf(),
        !old(imm).spec_in_session(),
        forall|i: int|
            0 <= i < prims@.len() ==> (#[trigger] prims@[i].mesh).indices@.len() * 8 <= usize::MAX,
    ensures
        final(imm).wf(),
        !final(imm).spec_in_session(),
        apply_commands(entry, r.0@) == entry,
        r.1@ == skips_upto(prims@, textures@.dom(), prims@.len() as int),
        draws_of(r.0@).len() == kept_upto(prims@, textures@.dom(), prims@.len() as int).len(),
        forall|d: int|
            0 <= d < draws_of(r.0@).len() ==> {
                let kept = kept_upto(prims@, textures@.dom(), prims@.len() as int);
                &&& (#[trigger] draws_of(r.0@)[d]).topology == PrimType::Tris
                &&& draws_of(r.0@)[d].vertex_count == kept[d].mesh.indices@.len()
                &&& draws_of(r.0@)[d].buffer@ == mesh_buffer(kept[d].mesh)
            },
{
    let ghost ids = textures@.dom();
    let mut cmds: Vec<GpuCommand> = Vec::new();
    let mut skipped: Vec<(usize, DrawError)> = Vec::new();
    let mut i: usize = 0;
    while i < prims.len()
        invariant
            i <= prims@.len(),
            ids == textures@.dom(),
            params.wf(),
            imm.wf(),
            !imm.spec_in_session(),
            forall|k: int|
                0 <= k < prims@.len() ==> (#[trigger] prims@[k].mesh).indices@.len() * 8
                    <= usize::MAX,
            apply_commands(entry, cmds@) == entry,
            skipped@ == skips_upto(prims@, ids, i as int),
            draws_of(cmds@).len() == kept_upto(prims@, ids, i as int).len(),
            forall|d: int|
                0 <= d < draws_of(cmds@).len() ==> {
                    let kept = kept_upto(prims@, ids, i as int);
                    &&& (#[trigger] draws_of(cmds@)[d]).topology == PrimType::Tris
                    &&& draws_of(cmds@)[d].vertex_count == kept[d].mesh.indices@.len()
                    &&& draws_of(cmds@)[d].buffer@ == mesh_buffer(kept[d].mesh)
                },
        decreases prims@.len() - i,
    {
        let ghost cmds_before = cmds@;
        let ghost kept_before = kept_upto(prims@, ids, i as int);
        let prim = &prims[i];
        let res = draw_primitive(prim, textures, params, entry, imm, shader_attrs);
        match res {
            Ok(mut c) => {
                proof {
                    lemma_apply_commands_append(entry, cmds@, c@);
                    lemma_draws_of_append(cmds@, c@);
                }
                cmds.append(&mut c);
            },
            Err(e) => {
                skipped.push((i, e));
            },
        }
        proof {
            assert(kept_upto(prims@, ids, i + 1) == (if prim_error(prims@[i as int], ids) is None {
                kept_before.push(prims@[i as int])
            } else {
                kept_before
            }));
        }
        i = i + 1;
    }
    (cmds, skipped)
}

} // verus!
