use egui_glfw::texture::ActivatePlan;
use egui_glfw::texture::ImageDeltaData;
use egui_glfw::texture::Rgba8;
use egui_glfw::texture::TextureFilter;
use egui_glfw::texture::TextureOptions;
use egui_glfw::texture::TextureRGBA8;
use egui_glfw::texture::TextureWrapMode;
use egui_glfw::texture::unpack_alignment;

fn px(v: u8) -> Rgba8 {
    Rgba8 { r: v, g: v, b: v, a: 255 }
}

fn opts() -> TextureOptions {
    TextureOptions {
        magnification: TextureFilter::Linear,
        minification: TextureFilter::Nearest,
        wrap_mode: TextureWrapMode::ClampToEdge,
    }
}

#[test]
fn from_pixels_round_trip() {
    let pixels = vec![px(1), px(2), px(3), px(4), px(5), px(6)];
    let t = TextureRGBA8::from_pixels(3, 2, pixels.clone(), opts());
    assert_eq!(t.get_width(), 3);
    assert_eq!(t.get_height(), 2);
    assert_eq!(*t.get_pixels(), pixels);
    assert_eq!(t.get_options(), opts());
    assert!(t.handle().is_none());
}

#[test]
fn from_delta_whole_reverses_rows() {
    // Source rows top-down: [1 2], [3 4], [5 6].
    let delta = ImageDeltaData {
        pos: None,
        width: 2,
        height: 3,
        pixels: vec![px(1), px(2), px(3), px(4), px(5), px(6)],
        options: opts(),
    };
    let t = TextureRGBA8::from_delta(&delta).expect("whole delta builds a texture");
    // Stored bottom-up: [5 6], [3 4], [1 2] — a manual reversal of the rows.
    let manual: Vec<Rgba8> = vec![px(5), px(6), px(3), px(4), px(1), px(2)];
    assert_eq!(*t.get_pixels(), manual);
    assert_eq!(t.get_width(), 2);
    assert_eq!(t.get_height(), 3);
    assert!(t.handle().is_none());
}

#[test]
fn from_delta_partial_is_none() {
    let delta = ImageDeltaData {
        pos: Some((0, 0)),
        width: 1,
        height: 1,
        pixels: vec![px(9)],
        options: opts(),
    };
    assert!(TextureRGBA8::from_delta(&delta).is_none());
}

#[test]
fn update_partial_changes_exactly_the_target_rect() {
    // 4x4 texture, all zeros, stored bottom-up.
    let base = vec![px(0); 16];
    let mut t = TextureRGBA8::from_pixels(4, 4, base.clone(), opts());
    // Patch a 2x2 block anchored at column 1, row 1 (top-down).
    let delta = ImageDeltaData {
        pos: Some((1, 1)),
        width: 2,
        height: 2,
        pixels: vec![px(10), px(11), px(12), px(13)],
        options: opts(),
    };
    let freed = t.update(&delta);
    assert!(freed.is_none());
    // Delta row 0 (top-down) lands on stored row 4 - 1 - 0 - 1 = 2,
    // delta row 1 on stored row 1; columns 1..3.
    let mut expect = base.clone();
    expect[2 * 4 + 1] = px(10);
    expect[2 * 4 + 2] = px(11);
    expect[1 * 4 + 1] = px(12);
    expect[1 * 4 + 2] = px(13);
    assert_eq!(*t.get_pixels(), expect);
    assert_eq!(t.get_width(), 4);
    assert_eq!(t.get_height(), 4);
}

#[test]
fn update_whole_rebuilds_and_frees_the_handle() {
    let mut t = TextureRGBA8::from_pixels(1, 1, vec![px(1)], opts());
    t.attach_handle(7);
    let delta = ImageDeltaData {
        pos: None,
        width: 2,
        height: 1,
        pixels: vec![px(8), px(9)],
        options: opts(),
    };
    let freed = t.update(&delta);
    assert_eq!(freed, Some(7));
    assert!(t.handle().is_none());
    assert_eq!(t.get_width(), 2);
    assert_eq!(t.get_height(), 1);
    assert_eq!(*t.get_pixels(), vec![px(8), px(9)]);
}

#[test]
fn update_partial_frees_the_stale_handle() {
    let mut t = TextureRGBA8::from_pixels(2, 2, vec![px(0); 4], opts());
    t.attach_handle(3);
    let delta = ImageDeltaData {
        pos: Some((0, 0)),
        width: 1,
        height: 1,
        pixels: vec![px(5)],
        options: opts(),
    };
    let freed = t.update(&delta);
    assert_eq!(freed, Some(3));
    assert!(t.handle().is_none());
}

#[test]
fn attach_release_and_activate_plan() {
    let mut t = TextureRGBA8::from_pixels(1, 1, vec![px(0)], opts());
    assert!(matches!(t.activate_plan(0), ActivatePlan::UploadThenBind));
    t.attach_handle(5);
    assert!(matches!(t.activate_plan(31), ActivatePlan::Bind { handle: 5 }));
    let freed = t.release();
    assert_eq!(freed, 5);
    assert!(t.handle().is_none());
    // The CPU pixels survive a release, so re-activation can re-upload.
    assert!(matches!(t.activate_plan(0), ActivatePlan::UploadThenBind));
    assert_eq!(*t.get_pixels(), vec![px(0)]);
}

#[test]
fn unpack_alignment_even_and_odd_widths() {
    assert_eq!(unpack_alignment(2), 8);
    assert_eq!(unpack_alignment(3), 4);
    assert_eq!(unpack_alignment(1), 4);
    assert_eq!(unpack_alignment(8), 8);
}
