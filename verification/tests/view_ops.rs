//! Mutation and draw operations of a ready view, and the static quad
//! geometry they draw.

use mandelbrot::Builder;
use mandelbrot::FractalError;
use mandelbrot::FractalView;
use mandelbrot::ResolutionOutcome;
use mandelbrot::ResourceKind;
use mandelbrot::ShaderStage;
use mandelbrot::UniformWrite;
use mandelbrot::Viewport;
use mandelbrot::quad_indices;
use mandelbrot::quad_positions;
use mandelbrot::quad_texcoords;
use mandelbrot::recognized_slots;

const MAX: i32 = 10000;

fn ready_view(zoom: f32, x: f32, y: f32, iters: i32, width: u32, height: u32) -> FractalView {
    let mut b = Builder::new(zoom.to_bits(), x.to_bits(), y.to_bits(), iters, width, height)
        .expect("parameters in range");
    b.shader_allocated(ShaderStage::Vertex, true).unwrap();
    b.compile_finished(ShaderStage::Vertex, true, None).unwrap();
    b.shader_allocated(ShaderStage::Fragment, true).unwrap();
    b.compile_finished(ShaderStage::Fragment, true, None).unwrap();
    b.program_allocated(true).unwrap();
    b.link_finished(true, None).unwrap();
    b.buffer_allocated(ResourceKind::PositionBuffer, true).unwrap();
    b.buffer_allocated(ResourceKind::TexCoordBuffer, true).unwrap();
    b.buffer_allocated(ResourceKind::IndexBuffer, true).unwrap();
    b.uniforms_resolved(ResolutionOutcome { aspect: true, max_iter: true, zoom: true, offset: true })
        .unwrap();
    b.finish()
}

#[test]
fn set_iterations_rejects_above_ceiling_and_leaves_view_unchanged() {
    let mut v = ready_view(1.0, 0.0, 0.0, 100, 640, 480);
    let before = v;
    let e = v.set_iterations(MAX + 1).unwrap_err();
    assert_eq!(e, FractalError::IterationRange { requested: MAX + 1, max: MAX });
    assert_eq!(v, before);
}

#[test]
fn set_iterations_accepts_range_and_syncs_gpu() {
    let mut v = ready_view(1.0, 0.0, 0.0, 100, 640, 480);
    let w = v.set_iterations(0).unwrap();
    assert_eq!(w, UniformWrite::MaxIter { iters: 0 });
    assert_eq!(v.gpu.max_iter, 0);
    let w = v.set_iterations(MAX).unwrap();
    assert_eq!(w, UniformWrite::MaxIter { iters: MAX });
    assert_eq!(v.params.iterations, MAX);
    assert_eq!(v.gpu.max_iter, MAX);
}

#[test]
fn resize_stores_exact_dimensions_and_aspect_ratio_follows() {
    let mut v = ready_view(1.0, 0.0, 0.0, 100, 640, 480);
    let (w, vp) = v.resize(1920, 1080);
    assert_eq!(w, UniformWrite::Aspect { width: 1920, height: 1080 });
    assert_eq!(vp, Viewport { width: 1920, height: 1080 });
    assert_eq!(v.params.width, 1920);
    assert_eq!(v.params.height, 1080);
    assert_eq!(v.gpu.aspect_width, 1920);
    assert_eq!(v.gpu.aspect_height, 1080);
    let aspect = v.gpu.aspect_width as f32 / v.gpu.aspect_height as f32;
    assert_eq!(aspect, 1920.0f32 / 1080.0f32);
}

#[test]
fn zoom_last_write_wins_for_the_following_draw() {
    let mut v = ready_view(1.0, 0.0, 0.0, 100, 640, 480);
    let z1 = 0.5f32;
    let z2 = 8.25f32;
    v.set_zoom(z1.to_bits());
    let w = v.set_zoom(z2.to_bits());
    let call = v.draw();
    assert_eq!(w, UniformWrite::Zoom { bits: z2.to_bits() });
    assert_eq!(v.gpu.zoom_bits, z2.to_bits());
    assert_ne!(v.gpu.zoom_bits, z1.to_bits());
    assert_eq!(call.index_count, 6);
}

#[test]
fn set_position_updates_both_offset_components() {
    let mut v = ready_view(1.0, 0.0, 0.0, 100, 640, 480);
    let w = v.set_position((-1.5f32).to_bits(), 0.25f32.to_bits());
    assert_eq!(
        w,
        UniformWrite::Offset { x_bits: (-1.5f32).to_bits(), y_bits: 0.25f32.to_bits() }
    );
    assert_eq!(v.gpu.x_bits, (-1.5f32).to_bits());
    assert_eq!(v.gpu.y_bits, 0.25f32.to_bits());
}

#[test]
fn draw_twice_is_idempotent() {
    let v = ready_view(3.0, 0.5, -0.5, 2000, 800, 600);
    let before = v;
    let c1 = v.draw();
    let c2 = v.draw();
    assert_eq!(c1, c2);
    assert_eq!(v, before);
    assert_eq!(v.index_data(), v.index_data());
}

#[test]
fn index_buffer_content_is_fixed_regardless_of_parameters() {
    let expected: Vec<u16> = vec![0, 1, 3, 1, 2, 3];
    assert_eq!(quad_indices(), expected);
    let a = ready_view(1.0, 0.0, 0.0, 100, 640, 480);
    let b = ready_view(123.5, -2.0, 2.0, MAX, 1, 1);
    assert_eq!(a.index_data(), expected);
    assert_eq!(b.index_data(), expected);
}

#[test]
fn quad_corners_are_the_clip_space_square_and_unit_texture_square() {
    assert_eq!(quad_positions(), vec![-1, -1, 1, -1, 1, 1, -1, 1]);
    assert_eq!(quad_texcoords(), vec![0, 0, 1, 0, 1, 1, 0, 1]);
    let positions: Vec<f32> = quad_positions().iter().map(|c| *c as f32).collect();
    assert_eq!(positions, vec![-1.0, -1.0, 1.0, -1.0, 1.0, 1.0, -1.0, 1.0]);
}

#[test]
fn recognized_uniform_names_in_resolution_order() {
    let names: Vec<String> = recognized_slots().iter().map(|s| s.name()).collect();
    assert_eq!(names, vec!["aspect", "max_iter", "zoom", "offset"]);
}
