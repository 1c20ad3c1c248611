use niko::color::Color;
use niko::images::Images;
use niko::metrics::Metrics;
use niko::rectangle::Rectangle;
use niko::shader::ShaderBindings;
use niko::sprite_batch::{QuadBits, SpriteBatch, VertexBits};
use niko::error::ShaderError;

fn quad(seed: u32) -> QuadBits {
    let v = |k: u32| VertexBits { x: seed + k, y: seed + k + 1, u: seed + k + 2, v: seed + k + 3 };
    QuadBits { a: v(0), b: v(4), c: v(8), d: v(12) }
}

fn geometry(n: usize) -> Vec<QuadBits> {
    (0..n).map(|i| quad((i as u32) * 16)).collect()
}

fn complete_shader() -> ShaderBindings {
    ShaderBindings::new(Some(0), Some(1), Some(2))
}

fn rect() -> Rectangle {
    Rectangle::new(0, 0, 16, 16)
}

#[test]
fn empty_batch_draws_nothing_and_succeeds() {
    // An empty batch performs zero buffer creation and zero draw calls.
    let images = Images::new();
    let mut metrics = Metrics::new();
    let batch = SpriteBatch::new();
    let r = batch.draw(&images, &complete_shader(), &Vec::new(), &mut metrics);
    match r {
        Ok(plan) => assert!(plan.is_none()),
        Err(_) => panic!("an empty batch must succeed"),
    }
    assert_eq!(metrics.draw_calls(), 0);
    assert_eq!(metrics.sprites_drawn(), 0);
    assert_eq!(metrics.sprites_skipped(), 0);
}

#[test]
fn adjacent_equal_keys_coalesce() {
    // Scenario: [(imgA, red), (imgA, red), (imgB, blue), (imgA, red)]
    // batched mode emits 3 draw calls of [12, 6, 6] indices,
    // drawn = 4, skipped = 0, draw_calls = 3.
    let mut images = Images::new();
    let img_a = images.request_image();
    images.finish_loading(img_a, 8, 8, 1);
    let img_b = images.request_image();
    images.finish_loading(img_b, 8, 8, 2);
    let red = Color::rgb(255, 0, 0);
    let blue = Color::rgb(0, 0, 255);

    let mut batch = SpriteBatch::new();
    batch.draw_sprite(img_a, rect(), rect(), red);
    batch.draw_sprite(img_a, rect(), rect(), red);
    batch.draw_sprite(img_b, rect(), rect(), blue);
    batch.draw_sprite(img_a, rect(), rect(), red);

    let mut metrics = Metrics::new();
    let plan = batch
        .draw(&images, &complete_shader(), &geometry(4), &mut metrics)
        .expect("draw must succeed")
        .expect("a nonempty batch plans a frame");

    assert_eq!(plan.index_count, 24);
    assert_eq!(plan.calls.len(), 3);
    let sizes: Vec<usize> = plan.calls.iter().map(|c| c.index_count).collect();
    assert_eq!(sizes, vec![12, 6, 6]);
    let starts: Vec<usize> = plan.calls.iter().map(|c| c.first_index).collect();
    assert_eq!(starts, vec![0, 12, 18]);
    assert_eq!(plan.calls[0].texture, 1);
    assert_eq!(plan.calls[1].texture, 2);
    assert_eq!(plan.calls[2].texture, 1);
    assert_eq!(metrics.draw_calls(), 3);
    assert_eq!(metrics.sprites_drawn(), 4);
    assert_eq!(metrics.sprites_skipped(), 0);
}

#[test]
fn uniform_batch_emits_one_call() {
    // All instances share one (image, color): exactly one draw call
    // covering 6 * N indices.
    let mut images = Images::new();
    let img = images.request_image();
    images.finish_loading(img, 8, 8, 7);
    let tint = Color::rgb(9, 9, 9);

    let n = 5;
    let mut batch = SpriteBatch::new();
    for _ in 0..n {
        batch.draw_sprite(img, rect(), rect(), tint);
    }
    let mut metrics = Metrics::new();
    let plan = batch
        .draw(&images, &complete_shader(), &geometry(n), &mut metrics)
        .unwrap()
        .unwrap();
    assert_eq!(plan.calls.len(), 1);
    assert_eq!(plan.calls[0].first_index, 0);
    assert_eq!(plan.calls[0].index_count, 6 * n);
    assert_eq!(plan.calls[0].texture, 7);
    assert_eq!(metrics.draw_calls(), 1);
    assert_eq!(metrics.sprites_drawn(), n);
}

#[test]
fn alternating_keys_do_not_coalesce() {
    // No two consecutive instances share a key: one draw call each, and
    // the concatenated ranges reproduce the submission order.
    let mut images = Images::new();
    let img_a = images.request_image();
    images.finish_loading(img_a, 8, 8, 1);
    let img_b = images.request_image();
    images.finish_loading(img_b, 8, 8, 2);
    let tint = Color::rgb(1, 1, 1);

    let n = 6;
    let mut batch = SpriteBatch::new();
    for i in 0..n {
        let img = if i % 2 == 0 { img_a } else { img_b };
        batch.draw_sprite(img, rect(), rect(), tint);
    }
    let mut metrics = Metrics::new();
    let plan = batch
        .draw(&images, &complete_shader(), &geometry(n), &mut metrics)
        .unwrap()
        .unwrap();
    assert_eq!(plan.calls.len(), n);
    let mut next_start = 0;
    for call in &plan.calls {
        assert_eq!(call.first_index, next_start);
        assert_eq!(call.index_count, 6);
        next_start += call.index_count;
    }
    assert_eq!(next_start, 6 * n);
    assert_eq!(metrics.draw_calls(), n);
}

#[test]
fn unready_image_is_skipped_not_fatal() {
    // An instance whose image never resolved counts as skipped, not
    // drawn, and the frame is not aborted.
    let mut images = Images::new();
    let ready = images.request_image();
    images.finish_loading(ready, 8, 8, 3);
    let pending = images.request_image();
    let tint = Color::rgb(1, 2, 3);

    let mut batch = SpriteBatch::new();
    batch.draw_sprite(ready, rect(), rect(), tint);
    batch.draw_sprite(pending, rect(), rect(), tint);
    batch.draw_sprite(pending, rect(), rect(), tint);

    let mut metrics = Metrics::new();
    let plan = batch
        .draw(&images, &complete_shader(), &geometry(3), &mut metrics)
        .expect("a missing texture must not abort the frame")
        .unwrap();
    assert_eq!(plan.calls.len(), 1);
    assert_eq!(plan.calls[0].first_index, 0);
    assert_eq!(plan.calls[0].index_count, 6);
    assert_eq!(metrics.sprites_drawn(), 1);
    assert_eq!(metrics.sprites_skipped(), 2);
    assert_eq!(metrics.draw_calls(), 1);
}

#[test]
fn skipped_runs_leave_gaps_but_keep_order() {
    // A run of an unready image emits no call; the emitted calls still
    // cover ascending, disjoint ranges in submission order.
    let mut images = Images::new();
    let img_a = images.request_image();
    images.finish_loading(img_a, 8, 8, 1);
    let pending = images.request_image();
    let img_b = images.request_image();
    images.finish_loading(img_b, 8, 8, 2);
    let tint = Color::rgb(5, 5, 5);

    let mut batch = SpriteBatch::new();
    batch.draw_sprite(img_a, rect(), rect(), tint);
    batch.draw_sprite(img_a, rect(), rect(), tint);
    batch.draw_sprite(pending, rect(), rect(), tint);
    batch.draw_sprite(img_b, rect(), rect(), tint);

    let mut metrics = Metrics::new();
    let plan = batch
        .draw(&images, &complete_shader(), &geometry(4), &mut metrics)
        .unwrap()
        .unwrap();
    assert_eq!(plan.calls.len(), 2);
    assert_eq!(plan.calls[0].first_index, 0);
    assert_eq!(plan.calls[0].index_count, 12);
    // the skipped run's range [12, 18) stays unclaimed
    assert_eq!(plan.calls[1].first_index, 18);
    assert_eq!(plan.calls[1].index_count, 6);
    assert_eq!(metrics.sprites_drawn(), 3);
    assert_eq!(metrics.sprites_skipped(), 1);
}

#[test]
fn brute_force_emits_one_call_per_ready_instance() {
    let mut images = Images::new();
    let img = images.request_image();
    images.finish_loading(img, 8, 8, 4);
    let pending = images.request_image();
    let tint = Color::rgb(8, 8, 8);

    let mut batch = SpriteBatch::new();
    batch.set_brute_force(true);
    batch.draw_sprite(img, rect(), rect(), tint);
    batch.draw_sprite(pending, rect(), rect(), tint);
    batch.draw_sprite(img, rect(), rect(), tint);

    let mut metrics = Metrics::new();
    let plan = batch
        .draw(&images, &complete_shader(), &geometry(3), &mut metrics)
        .unwrap()
        .unwrap();
    assert_eq!(plan.calls.len(), 2);
    assert_eq!(plan.calls[0].first_index, 0);
    assert_eq!(plan.calls[1].first_index, 12);
    assert!(plan.calls.iter().all(|c| c.index_count == 6));
    assert_eq!(metrics.sprites_drawn(), 2);
    assert_eq!(metrics.sprites_skipped(), 1);
    assert_eq!(metrics.draw_calls(), 2);
}

#[test]
fn missing_position_attribute_fails_the_draw() {
    let mut images = Images::new();
    let img = images.request_image();
    images.finish_loading(img, 8, 8, 1);
    let mut batch = SpriteBatch::new();
    batch.draw_sprite(img, rect(), rect(), Color::rgb(0, 0, 0));
    let shader = ShaderBindings::new(None, Some(1), Some(2));
    let mut metrics = Metrics::new();
    let r = batch.draw(&images, &shader, &geometry(1), &mut metrics);
    match r {
        Err(ShaderError::AttributeNotFound(name)) => assert_eq!(name, "position"),
        _ => panic!("expected the missing attribute to fail the draw"),
    }
    assert_eq!(metrics.draw_calls(), 0);
}

#[test]
fn missing_uniforms_fail_the_draw() {
    let mut images = Images::new();
    let img = images.request_image();
    images.finish_loading(img, 8, 8, 1);
    let tint = Color::rgb(0, 0, 0);

    let mut batch = SpriteBatch::new();
    batch.draw_sprite(img, rect(), rect(), tint);
    let mut metrics = Metrics::new();
    let r = batch.draw(
        &images,
        &ShaderBindings::new(Some(0), None, Some(2)),
        &geometry(1),
        &mut metrics,
    );
    match r {
        Err(ShaderError::UniformNotFound(name)) => assert_eq!(name, "color"),
        _ => panic!("expected the missing color uniform to fail the draw"),
    }

    let mut batch = SpriteBatch::new();
    batch.draw_sprite(img, rect(), rect(), tint);
    let r = batch.draw(
        &images,
        &ShaderBindings::new(Some(0), Some(1), None),
        &geometry(1),
        &mut metrics,
    );
    match r {
        Err(ShaderError::UniformNotFound(name)) => assert_eq!(name, "sprite"),
        _ => panic!("expected the missing sprite uniform to fail the draw"),
    }
}

#[test]
fn plan_streams_hold_the_submitted_geometry() {
    let mut images = Images::new();
    let img = images.request_image();
    images.finish_loading(img, 8, 8, 1);
    let mut batch = SpriteBatch::new();
    batch.draw_sprite(img, rect(), rect(), Color::rgb(1, 1, 1));
    batch.draw_sprite(img, rect(), rect(), Color::rgb(1, 1, 1));

    let geometry = geometry(2);
    let mut metrics = Metrics::new();
    let plan = batch
        .draw(&images, &complete_shader(), &geometry, &mut metrics)
        .unwrap()
        .unwrap();

    // sixteen words per quad, serialized little-endian
    assert_eq!(plan.vertex_bytes.len(), 2 * 16 * 4);
    let words: Vec<u32> = plan
        .vertex_bytes
        .chunks(4)
        .map(|c| u32::from_le_bytes([c[0], c[1], c[2], c[3]]))
        .collect();
    let expected: Vec<u32> = (0..32u32).collect();
    assert_eq!(words, expected);

    // six indices per quad over its four vertices
    let indices: Vec<u16> = plan
        .index_bytes
        .chunks(2)
        .map(|c| u16::from_le_bytes([c[0], c[1]]))
        .collect();
    assert_eq!(indices, vec![0, 1, 2, 0, 2, 3, 4, 5, 6, 4, 6, 7]);
    assert_eq!(plan.index_count, 12);
}
