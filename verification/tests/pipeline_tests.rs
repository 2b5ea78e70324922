use std::collections::HashMap;

use egui_glfw::pipeline::ClippedPrimitive;
use egui_glfw::pipeline::DrawError;
use egui_glfw::pipeline::FrameParams;
use egui_glfw::pipeline::MeshData;
use egui_glfw::pipeline::Rect;
use egui_glfw::pipeline::TextureRef;
use egui_glfw::pipeline::Vertex;
use egui_glfw::pipeline::draw_primitive;
use egui_glfw::pipeline::draw_primitives;
use egui_glfw::pipeline::scissor_box;
use egui_glfw::state::Capability;
use egui_glfw::state::GpuCommand;
use egui_glfw::state::RasterizerState;
use egui_glfw::texture::Rgba8;
use egui_glfw::texture::TextureFilter;
use egui_glfw::texture::TextureOptions;
use egui_glfw::texture::TextureRGBA8;
use egui_glfw::texture::TextureWrapMode;
use egui_glfw::vertex_batch::PrimType;
use egui_glfw::vertex_batch::VertexBatch;

const FX: i32 = 65536;

fn vert(x: i32, y: i32, u: i32, v: i32, c: u8) -> Vertex {
    Vertex { pos_x: x * FX, pos_y: y * FX, uv_x: u * FX, uv_y: v * FX, color: Rgba8 {
        r: c,
        g: c,
        b: c,
        a: 255,
    } }
}

fn triangle_prim(texture: TextureRef) -> ClippedPrimitive {
    ClippedPrimitive {
        clip_rect: Rect { min_x: 0, min_y: 0, max_x: 100 * FX, max_y: 100 * FX },
        mesh: MeshData {
            vertices: vec![vert(0, 0, 0, 0, 10), vert(1, 0, 1, 0, 20), vert(0, 1, 0, 1, 30)],
            indices: vec![0, 1, 2],
            texture,
        },
    }
}

fn params() -> FrameParams {
    FrameParams { pixels_per_point: 65536, screen_width: 800, screen_height: 600 }
}

fn entry_all_on() -> RasterizerState {
    RasterizerState {
        cull_face: true,
        depth_test: true,
        scissor_test: false,
        blend: false,
        framebuffer_srgb: false,
    }
}

fn shader_names() -> Vec<String> {
    vec!["in_pos".to_owned(), "in_uv".to_owned(), "in_color".to_owned()]
}

fn fold_state(cmds: &[GpuCommand], mut s: RasterizerState) -> RasterizerState {
    for c in cmds {
        if let GpuCommand::SetCapability { cap, enabled } = c {
            match cap {
                Capability::CullFace => s.cull_face = *enabled,
                Capability::DepthTest => s.depth_test = *enabled,
                Capability::ScissorTest => s.scissor_test = *enabled,
                Capability::Blend => s.blend = *enabled,
                Capability::FramebufferSrgb => s.framebuffer_srgb = *enabled,
            }
        }
    }
    s
}

fn draw_count(cmds: &[GpuCommand]) -> usize {
    cmds.iter().filter(|c| matches!(c, GpuCommand::Draw { .. })).count()
}

#[test]
fn scissor_box_matches_expected_values() {
    // Screen 800x600, one pixel per point, clip rect (10,20)-(100,50).
    let rect = Rect { min_x: 10 * FX, min_y: 20 * FX, max_x: 100 * FX, max_y: 50 * FX };
    let sb = scissor_box(&rect, &params());
    assert_eq!(sb, (10, 550, 90, 30));
}

#[test]
fn scissor_box_clamps_to_the_screen() {
    let rect = Rect { min_x: -5 * FX, min_y: -5 * FX, max_x: 2000 * FX, max_y: 2000 * FX };
    let sb = scissor_box(&rect, &params());
    assert_eq!(sb, (0, 0, 800, 600));
}

#[test]
fn scissor_box_honors_pixels_per_point() {
    // Two pixels per point doubles every edge.
    let p = FrameParams { pixels_per_point: 2 * 65536, screen_width: 800, screen_height: 600 };
    let rect = Rect { min_x: 10 * FX, min_y: 20 * FX, max_x: 100 * FX, max_y: 50 * FX };
    let sb = scissor_box(&rect, &p);
    assert_eq!(sb, (20, 500, 180, 60));
}

#[test]
fn scissor_box_rounds_to_the_nearest_pixel() {
    // At 1.5 pixels per point the rect (1,1)-(3,3) lands on
    // (1.5,1.5)-(4.5,4.5); halves round up, so the box is x=2, w=3 (5-2),
    // and y = 600 - 5 = 595, h = 3.
    let p = FrameParams {
        pixels_per_point: 65536 + 32768,
        screen_width: 800,
        screen_height: 600,
    };
    let rect = Rect { min_x: FX, min_y: FX, max_x: 3 * FX, max_y: 3 * FX };
    let sb = scissor_box(&rect, &p);
    assert_eq!(sb, (2, 595, 3, 3));
}

#[test]
fn frame_restores_entry_state() {
    let prims = vec![
        triangle_prim(TextureRef::User { handle: 4 }),
        triangle_prim(TextureRef::User { handle: 5 }),
    ];
    let table: HashMap<u64, TextureRGBA8> = HashMap::new();
    let mut imm = VertexBatch::new();
    for entry in [entry_all_on(), RasterizerState {
        cull_face: false,
        depth_test: false,
        scissor_test: true,
        blend: true,
        framebuffer_srgb: true,
    }] {
        let (cmds, skipped) =
            draw_primitives(&prims, &table, &params(), entry, &mut imm, &shader_names());
        assert!(skipped.is_empty());
        assert_eq!(fold_state(&cmds, entry), entry);
        assert_eq!(draw_count(&cmds), 2);
    }
}

#[test]
fn empty_mesh_produces_no_commands_and_is_reported() {
    let mut empty = triangle_prim(TextureRef::User { handle: 1 });
    empty.mesh.indices = vec![];
    let good = triangle_prim(TextureRef::User { handle: 2 });
    let table: HashMap<u64, TextureRGBA8> = HashMap::new();
    let mut imm = VertexBatch::new();
    let entry = entry_all_on();
    let (cmds, skipped) = draw_primitives(
        &vec![empty, good],
        &table,
        &params(),
        entry,
        &mut imm,
        &shader_names(),
    );
    // The empty primitive contributes zero commands: only the good
    // primitive's fourteen are present, and the toggles still return to
    // the entry state.
    assert_eq!(skipped.len(), 1);
    assert_eq!(skipped[0], (0, DrawError::EmptyIndices));
    assert_eq!(cmds.len(), 14);
    assert_eq!(draw_count(&cmds), 1);
    assert_eq!(fold_state(&cmds, entry), entry);
    // The good primitive's draw is unaffected: same buffer as drawn alone.
    let mut imm2 = VertexBatch::new();
    let alone = draw_primitive(
        &triangle_prim(TextureRef::User { handle: 2 }),
        &table,
        &params(),
        entry,
        &mut imm2,
        &shader_names(),
    )
    .expect("drawable");
    let buf_pair = cmds.iter().find_map(|c| match c {
        GpuCommand::Draw { call } => Some(call.buffer.clone()),
        _ => None,
    });
    let buf_alone = alone.iter().find_map(|c| match c {
        GpuCommand::Draw { call } => Some(call.buffer.clone()),
        _ => None,
    });
    assert_eq!(buf_pair, buf_alone);
}

#[test]
fn non_triangle_index_count_is_rejected() {
    let mut prim = triangle_prim(TextureRef::User { handle: 1 });
    prim.mesh.indices = vec![0, 1, 2, 0];
    let table: HashMap<u64, TextureRGBA8> = HashMap::new();
    let mut imm = VertexBatch::new();
    let r = draw_primitive(&prim, &table, &params(), entry_all_on(), &mut imm, &shader_names());
    assert_eq!(r.err(), Some(DrawError::IncompleteTriangles));
}

#[test]
fn out_of_bounds_index_is_rejected() {
    let mut prim = triangle_prim(TextureRef::User { handle: 1 });
    prim.mesh.indices = vec![0, 1, 3];
    let table: HashMap<u64, TextureRGBA8> = HashMap::new();
    let mut imm = VertexBatch::new();
    let r = draw_primitive(&prim, &table, &params(), entry_all_on(), &mut imm, &shader_names());
    assert_eq!(r.err(), Some(DrawError::IndexOutOfBounds));
}

#[test]
fn missing_atlas_texture_is_reported() {
    let prim = triangle_prim(TextureRef::Managed { id: 9 });
    let table: HashMap<u64, TextureRGBA8> = HashMap::new();
    let mut imm = VertexBatch::new();
    let r = draw_primitive(&prim, &table, &params(), entry_all_on(), &mut imm, &shader_names());
    assert_eq!(r.err(), Some(DrawError::TextureNotFound { id: 9 }));
}

#[test]
fn texture_references_resolve_to_the_right_bind() {
    let mut table: HashMap<u64, TextureRGBA8> = HashMap::new();
    table.insert(
        9,
        TextureRGBA8::from_pixels(1, 1, vec![Rgba8 { r: 0, g: 0, b: 0, a: 0 }], TextureOptions {
            magnification: TextureFilter::Linear,
            minification: TextureFilter::Linear,
            wrap_mode: TextureWrapMode::Repeat,
        }),
    );
    let mut imm = VertexBatch::new();
    let managed = draw_primitive(
        &triangle_prim(TextureRef::Managed { id: 9 }),
        &table,
        &params(),
        entry_all_on(),
        &mut imm,
        &shader_names(),
    )
    .expect("atlas texture present");
    assert!(managed.iter().any(|c| matches!(c, GpuCommand::BindAtlasTexture { id: 9 })));
    let user = draw_primitive(
        &triangle_prim(TextureRef::User { handle: 77 }),
        &table,
        &params(),
        entry_all_on(),
        &mut imm,
        &shader_names(),
    )
    .expect("user texture is used as-is");
    assert!(user.iter().any(|c| matches!(c, GpuCommand::BindUserTexture { handle: 77 })));
}

#[test]
fn draw_call_flattens_the_mesh_with_flipped_uv_and_raw_colors() {
    let prim = triangle_prim(TextureRef::User { handle: 1 });
    let table: HashMap<u64, TextureRGBA8> = HashMap::new();
    let mut imm = VertexBatch::new();
    let cmds = draw_primitive(&prim, &table, &params(), entry_all_on(), &mut imm, &shader_names())
        .expect("drawable");
    let call = cmds
        .iter()
        .find_map(|c| match c {
            GpuCommand::Draw { call } => Some(call),
            _ => None,
        })
        .expect("one draw");
    assert_eq!(call.topology, PrimType::Tris);
    assert_eq!(call.vertex_count, 3);
    let fx = FX as i64;
    // Vertex 0: pos (0,0), uv (0,0) flipped to (0,1), gray 10.
    // Vertex 1: pos (1,0), uv (1,0) flipped to (1,1), gray 20.
    // Vertex 2: pos (0,1), uv (0,1) flipped to (0,0), gray 30.
    let expect: Vec<i64> = vec![
        0, 0, 0, fx, 10 * fx, 10 * fx, 10 * fx, 255 * fx,
        fx, 0, fx, fx, 20 * fx, 20 * fx, 20 * fx, 255 * fx,
        0, fx, 0, 0, 30 * fx, 30 * fx, 30 * fx, 255 * fx,
    ];
    assert_eq!(call.buffer, expect);
}

#[test]
fn per_primitive_commands_force_then_restore_the_toggles() {
    let prim = triangle_prim(TextureRef::User { handle: 1 });
    let table: HashMap<u64, TextureRGBA8> = HashMap::new();
    let mut imm = VertexBatch::new();
    let entry = entry_all_on();
    let cmds = draw_primitive(&prim, &table, &params(), entry, &mut imm, &shader_names())
        .expect("drawable");
    assert_eq!(cmds.len(), 14);
    // After the save/force prefix the draw-pass toggles hold…
    let during = fold_state(&cmds[..6], entry);
    assert_eq!(during, RasterizerState {
        cull_face: false,
        depth_test: false,
        scissor_test: true,
        blend: true,
        framebuffer_srgb: true,
    });
    // …and the restore suffix puts every toggle back.
    assert_eq!(fold_state(&cmds, entry), entry);
    assert!(matches!(cmds[5], GpuCommand::SetBlendFuncPremultiplied));
    assert!(matches!(cmds[6], GpuCommand::SetScissor { .. }));
}

#[test]
fn primitives_are_drawn_in_paint_order() {
    let mut first = triangle_prim(TextureRef::User { handle: 1 });
    first.mesh.vertices[0].color.r = 111;
    let mut second = triangle_prim(TextureRef::User { handle: 2 });
    second.mesh.vertices[0].color.r = 222;
    let table: HashMap<u64, TextureRGBA8> = HashMap::new();
    let mut imm = VertexBatch::new();
    let (cmds, skipped) = draw_primitives(
        &vec![first, second],
        &table,
        &params(),
        entry_all_on(),
        &mut imm,
        &shader_names(),
    );
    assert!(skipped.is_empty());
    let reds: Vec<i64> = cmds
        .iter()
        .filter_map(|c| match c {
            GpuCommand::Draw { call } => Some(call.buffer[4] / FX as i64),
            _ => None,
        })
        .collect();
    assert_eq!(reds, vec![111, 222]);
}
