use niko::images::Images;
use niko::metrics::Metrics;

#[test]
fn counters_accumulate_and_reset() {
    let mut m = Metrics::new();
    assert_eq!(m.draw_calls(), 0);
    m.add_draw_calls(3);
    m.add_sprites_drawn(7);
    m.add_sprites_skipped(2);
    assert_eq!(m.draw_calls(), 3);
    assert_eq!(m.sprites_drawn(), 7);
    assert_eq!(m.sprites_skipped(), 2);
    m.reset();
    assert_eq!(m.draw_calls(), 0);
    assert_eq!(m.sprites_drawn(), 0);
    assert_eq!(m.sprites_skipped(), 0);
}

#[test]
fn first_tick_reports_then_every_hundredth() {
    let mut m = Metrics::new();
    // the tick counter starts one short of the period
    assert!(m.tick());
    for _ in 0..98 {
        assert!(!m.tick());
    }
    assert!(m.tick());
}

#[test]
fn requested_image_has_no_texture_or_size() {
    let mut images = Images::new();
    let img = images.request_image();
    assert_eq!(images.find_texture(img), None);
    assert_eq!(images.find_size(img), None);
}

#[test]
fn finished_image_reports_texture_and_size() {
    let mut images = Images::new();
    let img = images.request_image();
    images.finish_loading(img, 64, 32, 9);
    assert_eq!(images.find_texture(img), Some(9));
    assert_eq!(images.find_size(img), Some((64, 32)));
}

#[test]
fn double_delivery_is_ignored() {
    let mut images = Images::new();
    let img = images.request_image();
    images.finish_loading(img, 64, 32, 9);
    images.finish_loading(img, 128, 128, 10);
    assert_eq!(images.find_texture(img), Some(9));
    assert_eq!(images.find_size(img), Some((64, 32)));
}

#[test]
fn delivery_to_foreign_handle_is_ignored() {
    let mut images = Images::new();
    let img = images.request_image();
    let mut other = Images::new();
    other.finish_loading(img, 8, 8, 1);
    assert_eq!(other.find_texture(img), None);
    assert_eq!(images.find_texture(img), None);
}
