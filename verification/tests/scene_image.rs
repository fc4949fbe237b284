use anyrender::{render_to_buffer, PaintScene, Scene};
use anyrender_vello_cpu::VelloCpuImageRenderer;
use base64::Engine;
use expression_editor_ui::scene_image::{bmp, encode, Surface};
use kurbo::{Affine, Rect};
use peniko::{Color, Fill};

/// The scene rasterized over an opaque ground, at a scale of one.
fn rasterize(scene: &Scene, w: u32, h: u32) -> Vec<u8> {
    render_to_buffer::<VelloCpuImageRenderer, _>(
        |painter: &mut <VelloCpuImageRenderer as anyrender::ImageRenderer>::ScenePainter<'_>| {
            painter.fill(Fill::NonZero, Affine::IDENTITY, Color::BLACK, None, &Rect::new(0.0, 0.0, w as f64, h as f64));
            painter.append_scene(scene.clone(), Affine::scale(1.0));
        },
        w,
        h,
    )
}

fn red_scene(w: f64, h: f64) -> Scene {
    let mut scene = Scene::new();
    scene.fill(Fill::NonZero, Affine::IDENTITY, Color::from_rgb8(0xff, 0x00, 0x00), None, &Rect::new(0.0, 0.0, w, h));
    scene
}

#[test]
fn a_scene_becomes_a_png_data_uri() {
    let uri = encode(&rasterize(&red_scene(8.0, 8.0), 8, 8), 8, 8);
    assert!(uri.starts_with("data:image/png;base64,"));
    assert!(uri.len() > 100, "suspiciously short: {} bytes", uri.len());
}

#[test]
fn a_scene_becomes_a_bmp_a_browser_can_decode() {
    let bytes = bmp(&rasterize(&red_scene(4.0, 2.0), 4, 2), 4, 2);
    assert_eq!(&bytes[0..2], b"BM");
    assert_eq!(bytes.len(), 54 + 4 * 4 * 2);
    assert_eq!(u32::from_le_bytes(bytes[2..6].try_into().unwrap()) as usize, bytes.len());
    assert_eq!(i32::from_le_bytes(bytes[22..26].try_into().unwrap()), -2);
    assert_eq!(&bytes[54..58], &[0x00, 0x00, 0xff, 0xff]);
}

#[test]
fn an_empty_scene_still_produces_its_background() {
    let uri = encode(&rasterize(&Scene::new(), 4, 4), 4, 4);
    assert!(uri.starts_with("data:image/png;base64,"));
}

fn red(w: usize, h: usize) -> Vec<u8> {
    let mut v = Vec::new();
    for _ in 0..w * h {
        v.extend_from_slice(&[0xff, 0x00, 0x00, 0xff]);
    }
    v
}

#[test]
fn rgba_becomes_a_bmp_a_browser_can_decode() {
    let bytes = bmp(&red(4, 2), 4, 2);
    assert_eq!(&bytes[0..2], b"BM");
    // 54-byte header plus 4 bytes a pixel, and nothing else.
    assert_eq!(bytes.len(), 54 + 4 * 4 * 2);
    assert_eq!(u32::from_le_bytes(bytes[2..6].try_into().unwrap()) as usize, bytes.len());
    assert_eq!(u32::from_le_bytes(bytes[10..14].try_into().unwrap()), 54);
    assert_eq!(u32::from_le_bytes(bytes[14..18].try_into().unwrap()), 40);
    assert_eq!(i32::from_le_bytes(bytes[18..22].try_into().unwrap()), 4);
    // Top-down: the height is stored negative.
    assert_eq!(i32::from_le_bytes(bytes[22..26].try_into().unwrap()), -2);
    assert_eq!(u16::from_le_bytes(bytes[26..28].try_into().unwrap()), 1);
    assert_eq!(u16::from_le_bytes(bytes[28..30].try_into().unwrap()), 32);
    assert_eq!(u32::from_le_bytes(bytes[34..38].try_into().unwrap()), 32);
    assert_eq!(i32::from_le_bytes(bytes[38..42].try_into().unwrap()), 2835);
    // The first pixel is the red fill, in BGRA order.
    assert_eq!(&bytes[54..58], &[0x00, 0x00, 0xff, 0xff]);
}

#[test]
fn a_trailing_partial_pixel_is_not_written() {
    let mut rgba = vec![1, 2, 3, 4];
    rgba.extend_from_slice(&[9, 9]);
    let bytes = bmp(&rgba, 1, 1);
    assert_eq!(bytes.len(), 58);
    assert_eq!(&bytes[54..58], &[3, 2, 1, 4]);
}

#[test]
fn rgba_becomes_a_png_data_uri() {
    let uri = encode(&red(8, 8), 8, 8);
    assert!(uri.starts_with("data:image/png;base64,"));
    assert!(uri.len() > 100, "suspiciously short: {} bytes", uri.len());
    let png = base64::engine::general_purpose::STANDARD
        .decode(&uri["data:image/png;base64,".len()..])
        .unwrap();
    assert_eq!(&png[0..8], &[137, 80, 78, 71, 13, 10, 26, 10]);
}

#[test]
fn a_one_pixel_image_is_a_png_data_uri() {
    let uri = encode(&[255, 0, 0, 255], 1, 1);
    assert!(uri.starts_with("data:image/png;base64,"));
    assert!(uri.len() > "data:image/png;base64,".len());
}

#[test]
fn an_image_the_encoder_refuses_is_an_empty_uri() {
    assert_eq!(encode(&[], 0, 4), "");
    assert_eq!(encode(&red(2, 2), 4, 4), "");
}

#[test]
fn a_surface_serves_only_its_current_frame() {
    let mut s = Surface::new();
    assert_eq!(s.revision(), 0);
    assert_eq!(s.get(0), Some(Vec::new()));
    let first = s.put(vec![1, 2, 3]);
    assert_eq!(first, 1);
    assert_eq!(s.get(1), Some(vec![1, 2, 3]));
    let second = s.put(vec![4]);
    assert_eq!(second, 2);
    assert_eq!(s.revision(), 2);
    assert_eq!(s.get(1), None);
    assert_eq!(s.get(2), Some(vec![4]));
}
