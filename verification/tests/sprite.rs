use niko::error::{NikoError, ShaderError};
use niko::images::Images;
use niko::point::Point;
use niko::rectangle::Rectangle;
use niko::sprite::{sheet_sprites, Sprite};

#[test]
fn sheet_is_cut_row_major() {
    let mut images = Images::new();
    let img = images.request_image();
    let sprites = sheet_sprites(img, Point::new(8, 8), Point::new(16, 16));
    assert_eq!(sprites.len(), 4);
    assert_eq!(sprites[0].area, Rectangle::new(0, 0, 8, 8));
    assert_eq!(sprites[1].area, Rectangle::new(8, 0, 8, 8));
    assert_eq!(sprites[2].area, Rectangle::new(0, 8, 8, 8));
    assert_eq!(sprites[3].area, Rectangle::new(8, 8, 8, 8));
    assert!(sprites.iter().all(|s| s.image == img));
}

#[test]
fn partial_cells_are_dropped() {
    let mut images = Images::new();
    let img = images.request_image();
    let sprites = sheet_sprites(img, Point::new(8, 8), Point::new(20, 10));
    // 20/8 = 2 whole columns, 10/8 = 1 whole row
    assert_eq!(sprites.len(), 2);
    assert_eq!(sprites[0].area, Rectangle::new(0, 0, 8, 8));
    assert_eq!(sprites[1].area, Rectangle::new(8, 0, 8, 8));
}

#[test]
fn sprite_new_keeps_its_parts() {
    let mut images = Images::new();
    let img = images.request_image();
    let area = Rectangle::new(1, 2, 3, 4);
    let sprite = Sprite::new(img, area);
    assert_eq!(sprite.image, img);
    assert_eq!(sprite.area, area);
}

#[test]
fn error_payloads_are_readable() {
    let platform = NikoError::PlatformError(String::from("no context"));
    assert_eq!(platform.message(), "no context");
    let shader = ShaderError::ShaderCompileError(String::from("syntax"));
    assert_eq!(shader.detail(), "syntax");
    let attr = ShaderError::AttributeNotFound(String::from("position"));
    assert_eq!(attr.detail(), "position");
    let uniform = ShaderError::UniformNotFound(String::from("sprite"));
    assert_eq!(uniform.detail(), "sprite");
}
