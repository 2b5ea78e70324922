use egui_glfw::vertex_batch::PrimType;
use egui_glfw::vertex_batch::VertCompType;
use egui_glfw::vertex_batch::VertFetchMode;
use egui_glfw::vertex_batch::VertexBatch;
use egui_glfw::vertex_batch::VertexFormat;

#[test]
fn format_offsets_accumulate_in_declaration_order() {
    let mut f = VertexFormat::new();
    let a = f.add_attribute("a".to_owned(), VertCompType::F32, 2, VertFetchMode::Float);
    let b = f.add_attribute("b".to_owned(), VertCompType::F32, 3, VertFetchMode::Float);
    let c = f.add_attribute("c".to_owned(), VertCompType::F32, 4, VertFetchMode::Float);
    assert_eq!((a, b, c), (0, 1, 2));
    assert_eq!(f.stride(), 9);
    assert_eq!(f.offset_of(0), 0);
    assert_eq!(f.offset_of(1), 2);
    assert_eq!(f.offset_of(2), 5);
}

#[test]
fn session_places_attribute_writes_by_offset() {
    let mut imm = VertexBatch::new();
    imm.clear_format();
    let pos = imm.add_attribute("pos".to_owned(), VertCompType::F32, 2, VertFetchMode::Float);
    let uv = imm.add_attribute("uv".to_owned(), VertCompType::F32, 2, VertFetchMode::Float);
    let shader = vec!["uv".to_owned(), "pos".to_owned()];
    imm.begin(PrimType::Tris, 3, &shader);
    // Attributes may be written in any order; the position write commits.
    for k in 0..3i64 {
        imm.attr_2(uv, 100 + k, 200 + k);
        imm.vertex_2(pos, k, -k);
    }
    let call = imm.end();
    assert_eq!(call.vertex_count, 3);
    assert_eq!(call.topology, PrimType::Tris);
    // Stride 4: [pos_x, pos_y, uv_x, uv_y] per vertex.
    assert_eq!(
        call.buffer,
        vec![0, 0, 100, 200, 1, -1, 101, 201, 2, -2, 102, 202]
    );
    // Name-resolved shader slots: pos is shader slot 1, uv is slot 0.
    assert_eq!(call.binding, vec![Some(1), Some(0)]);
}

#[test]
fn binding_resolves_first_match_and_leaves_mismatches_unbound() {
    let mut imm = VertexBatch::new();
    imm.clear_format();
    let known = imm.add_attribute("known".to_owned(), VertCompType::F32, 2, VertFetchMode::Float);
    let missing =
        imm.add_attribute("missing".to_owned(), VertCompType::F32, 2, VertFetchMode::Float);
    // The shader repeats a name and declares attributes the format lacks:
    // the first occurrence wins, extras are simply unused.
    let shader = vec![
        "extra".to_owned(),
        "known".to_owned(),
        "known".to_owned(),
    ];
    imm.begin(PrimType::Tris, 1, &shader);
    imm.attr_2(missing, 0, 0);
    imm.vertex_2(known, 0, 0);
    let call = imm.end();
    assert_eq!(call.binding, vec![Some(1), None]);
}

#[test]
fn buffer_is_reused_and_format_redeclared_per_batch() {
    let mut imm = VertexBatch::new();
    let shader = vec!["p".to_owned()];
    for round in 0..2i64 {
        imm.clear_format();
        let p = imm.add_attribute("p".to_owned(), VertCompType::F32, 2, VertFetchMode::Float);
        imm.begin(PrimType::Tris, 3, &shader);
        for k in 0..3i64 {
            imm.vertex_2(p, round * 10 + k, 0);
        }
        let call = imm.end();
        assert_eq!(call.vertex_count, 3);
        assert_eq!(
            call.buffer,
            vec![round * 10, 0, round * 10 + 1, 0, round * 10 + 2, 0]
        );
    }
}
