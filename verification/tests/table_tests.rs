use std::collections::HashMap;

use egui_glfw::table::DeltaError;
use egui_glfw::table::TexturesDeltaData;
use egui_glfw::table::apply_texture_deltas;
use egui_glfw::texture::ImageDeltaData;
use egui_glfw::texture::Rgba8;
use egui_glfw::texture::TextureFilter;
use egui_glfw::texture::TextureOptions;
use egui_glfw::texture::TextureRGBA8;
use egui_glfw::texture::TextureWrapMode;

fn px(v: u8) -> Rgba8 {
    Rgba8 { r: v, g: v, b: v, a: 255 }
}

fn opts() -> TextureOptions {
    TextureOptions {
        magnification: TextureFilter::Nearest,
        minification: TextureFilter::Nearest,
        wrap_mode: TextureWrapMode::Repeat,
    }
}

fn whole(w: usize, h: usize, pixels: Vec<Rgba8>) -> ImageDeltaData {
    ImageDeltaData { pos: None, width: w, height: h, pixels, options: opts() }
}

#[test]
fn free_removes_textures_and_collects_their_handles() {
    let mut table: HashMap<u64, TextureRGBA8> = HashMap::new();
    let mut a = TextureRGBA8::from_pixels(1, 1, vec![px(1)], opts());
    a.attach_handle(11);
    table.insert(1, a);
    table.insert(2, TextureRGBA8::from_pixels(1, 1, vec![px(2)], opts()));
    let deltas = TexturesDeltaData { free: vec![1, 2, 3], set: vec![] };
    let (freed, errors) = apply_texture_deltas(&mut table, &deltas);
    assert!(errors.is_empty());
    // Only the texture that was ever uploaded gives up a handle.
    assert_eq!(freed, vec![11]);
    assert!(table.is_empty());
}

#[test]
fn whole_delta_creates_and_partial_delta_patches() {
    let mut table: HashMap<u64, TextureRGBA8> = HashMap::new();
    // Create id 5 from a whole 2x2 delta, rows top-down [1 2], [3 4].
    let create = TexturesDeltaData {
        free: vec![],
        set: vec![(5, whole(2, 2, vec![px(1), px(2), px(3), px(4)]))],
    };
    let (freed, errors) = apply_texture_deltas(&mut table, &create);
    assert!(freed.is_empty() && errors.is_empty());
    let t = table.get(&5).expect("created");
    assert_eq!(*t.get_pixels(), vec![px(3), px(4), px(1), px(2)]);
    // Patch the top-left pixel (top-down anchor (0,0), 1x1).
    let patch = TexturesDeltaData {
        free: vec![],
        set: vec![(5, ImageDeltaData {
            pos: Some((0, 0)),
            width: 1,
            height: 1,
            pixels: vec![px(9)],
            options: opts(),
        })],
    };
    let (freed, errors) = apply_texture_deltas(&mut table, &patch);
    assert!(freed.is_empty() && errors.is_empty());
    let t = table.get(&5).expect("still present");
    // Top-left lands on stored row 1 (bottom-up), column 0.
    assert_eq!(*t.get_pixels(), vec![px(3), px(4), px(9), px(2)]);
}

#[test]
fn partial_delta_for_missing_texture_is_rejected() {
    let mut table: HashMap<u64, TextureRGBA8> = HashMap::new();
    let deltas = TexturesDeltaData {
        free: vec![],
        set: vec![(7, ImageDeltaData {
            pos: Some((0, 0)),
            width: 1,
            height: 1,
            pixels: vec![px(9)],
            options: opts(),
        })],
    };
    let (freed, errors) = apply_texture_deltas(&mut table, &deltas);
    assert!(freed.is_empty());
    assert_eq!(errors, vec![(0, DeltaError::CreateFromPartial)]);
    assert!(!table.contains_key(&7));
}

#[test]
fn out_of_bounds_patch_is_rejected_and_leaves_the_texture_alone() {
    let mut table: HashMap<u64, TextureRGBA8> = HashMap::new();
    let mut t = TextureRGBA8::from_pixels(2, 2, vec![px(1); 4], opts());
    t.attach_handle(42);
    table.insert(3, t);
    let deltas = TexturesDeltaData {
        free: vec![],
        set: vec![(3, ImageDeltaData {
            pos: Some((1, 1)),
            width: 2,
            height: 2,
            pixels: vec![px(9); 4],
            options: opts(),
        })],
    };
    let (freed, errors) = apply_texture_deltas(&mut table, &deltas);
    assert!(freed.is_empty());
    assert_eq!(errors, vec![(0, DeltaError::PatchOutOfBounds)]);
    let t = table.get(&3).expect("untouched");
    assert_eq!(*t.get_pixels(), vec![px(1); 4]);
    assert_eq!(t.handle(), Some(42));
}

#[test]
fn frees_run_before_sets_and_updates_free_stale_handles() {
    let mut table: HashMap<u64, TextureRGBA8> = HashMap::new();
    let mut a = TextureRGBA8::from_pixels(1, 1, vec![px(1)], opts());
    a.attach_handle(8);
    table.insert(1, a);
    let mut b = TextureRGBA8::from_pixels(1, 1, vec![px(2)], opts());
    b.attach_handle(9);
    table.insert(2, b);
    // Free id 1, then re-create it whole; update id 2 whole, forcing
    // its GPU resource to be recreated later.
    let deltas = TexturesDeltaData {
        free: vec![1],
        set: vec![
            (1, whole(1, 1, vec![px(7)])),
            (2, whole(1, 1, vec![px(6)])),
        ],
    };
    let (freed, errors) = apply_texture_deltas(&mut table, &deltas);
    assert!(errors.is_empty());
    assert_eq!(freed, vec![8, 9]);
    assert_eq!(*table.get(&1).unwrap().get_pixels(), vec![px(7)]);
    assert!(table.get(&1).unwrap().handle().is_none());
    assert_eq!(*table.get(&2).unwrap().get_pixels(), vec![px(6)]);
    assert!(table.get(&2).unwrap().handle().is_none());
}
