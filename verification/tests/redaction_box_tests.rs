use image::RgbaImage;
use redactor::image_buffer::RgbaCanvas;
use redactor::raster::{RasterizedPdfExporter, RedactionBox};

#[test]
fn test_redaction_box_creation() {
    let box_rect = RedactionBox {
        page_index: 0,
        x: 10.0,
        y: 20.0,
        width: 100.0,
        height: 50.0,
    };
    assert_eq!(box_rect.page_index, 0);
    assert_eq!(box_rect.x, 10.0);
    assert_eq!(box_rect.y, 20.0);
    assert_eq!(box_rect.width, 100.0);
    assert_eq!(box_rect.height, 50.0);
}

#[test]
fn test_redaction_box_normalized_coordinates() {
    let box_rect = RedactionBox {
        page_index: 0,
        x: 0.5,
        y: 0.5,
        width: 0.25,
        height: 0.25,
    };
    assert!(box_rect.x >= 0.0 && box_rect.x <= 1.0);
    assert!(box_rect.y >= 0.0 && box_rect.y <= 1.0);
    assert!(box_rect.width >= 0.0 && box_rect.width <= 1.0);
    assert!(box_rect.height >= 0.0 && box_rect.height <= 1.0);
}

#[test]
fn test_redaction_box_different_pages() {
    let box1 = RedactionBox {
        page_index: 0,
        x: 0.1,
        y: 0.1,
        width: 0.2,
        height: 0.2,
    };
    let box2 = RedactionBox {
        page_index: 1,
        x: 0.1,
        y: 0.1,
        width: 0.2,
        height: 0.2,
    };
    assert_ne!(box1.page_index, box2.page_index);
}

fn white(w: u32, h: u32) -> RgbaCanvas {
    RgbaCanvas(RgbaImage::from_pixel(w, h, image::Rgba([255, 255, 255, 255])))
}

fn pixel(c: &RgbaCanvas, x: u32, y: u32) -> [u8; 4] {
    c.0.get_pixel(x, y).0
}

#[test]
fn redaction_blacks_out_exactly_the_box() {
    let mut canvas = white(10, 8);
    let boxes = vec![RedactionBox { page_index: 2, x: 2u32, y: 3u32, width: 4u32, height: 2u32 }];
    RasterizedPdfExporter::apply_redactions_to_image(&mut canvas, 2, &boxes);
    for y in 0..8 {
        for x in 0..10 {
            let inside = (2..6).contains(&x) && (3..5).contains(&y);
            let expected = if inside { [0, 0, 0, 255] } else { [255, 255, 255, 255] };
            assert_eq!(pixel(&canvas, x, y), expected, "pixel ({}, {})", x, y);
        }
    }
}

#[test]
fn redaction_ignores_boxes_of_other_pages() {
    let mut canvas = white(4, 4);
    let boxes = vec![RedactionBox { page_index: 1, x: 0u32, y: 0u32, width: 4u32, height: 4u32 }];
    RasterizedPdfExporter::apply_redactions_to_image(&mut canvas, 0, &boxes);
    for y in 0..4 {
        for x in 0..4 {
            assert_eq!(pixel(&canvas, x, y), [255, 255, 255, 255]);
        }
    }
}

#[test]
fn redaction_is_clipped_to_the_image() {
    let mut canvas = white(5, 5);
    let boxes = vec![
        RedactionBox { page_index: 0, x: 3u32, y: 3u32, width: 100u32, height: 100u32 },
        RedactionBox { page_index: 0, x: 9u32, y: 0u32, width: 3u32, height: 3u32 },
    ];
    RasterizedPdfExporter::apply_redactions_to_image(&mut canvas, 0, &boxes);
    let black_count = (0..5)
        .flat_map(|y| (0..5).map(move |x| (x, y)))
        .filter(|&(x, y)| pixel(&canvas, x, y) == [0, 0, 0, 255])
        .count();
    assert_eq!(black_count, 4);
    assert_eq!(pixel(&canvas, 4, 4), [0, 0, 0, 255]);
    assert_eq!(pixel(&canvas, 2, 4), [255, 255, 255, 255]);
}

#[test]
fn redacting_twice_equals_redacting_once() {
    let boxes = vec![
        RedactionBox { page_index: 0, x: 1u32, y: 1u32, width: 2u32, height: 3u32 },
        RedactionBox { page_index: 0, x: 2u32, y: 0u32, width: 3u32, height: 1u32 },
    ];
    let mut once = white(6, 6);
    RasterizedPdfExporter::apply_redactions_to_image(&mut once, 0, &boxes);
    let mut twice = white(6, 6);
    RasterizedPdfExporter::apply_redactions_to_image(&mut twice, 0, &boxes);
    RasterizedPdfExporter::apply_redactions_to_image(&mut twice, 0, &boxes);
    assert_eq!(once.0.as_raw(), twice.0.as_raw());
}

#[test]
fn empty_box_changes_nothing() {
    let mut canvas = white(3, 3);
    let boxes = vec![RedactionBox { page_index: 0, x: 1u32, y: 1u32, width: 0u32, height: 2u32 }];
    RasterizedPdfExporter::apply_redactions_to_image(&mut canvas, 0, &boxes);
    assert!(canvas.0.pixels().all(|p| p.0 == [255, 255, 255, 255]));
}
