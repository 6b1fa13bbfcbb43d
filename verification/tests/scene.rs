//! Textures, render passes, acceleration structures, and control helpers.

use tufa::acceleration_structure::{Geometry, GeometryPrimitive};
use tufa::buffer::Mutable;
use tufa::dispatch::Command;
use tufa::gpu::Gpu;
use tufa::resource::{BindableResource, BindableResourceId, ShaderVisibility};
use tufa::texture::{Depth, Rgba8};
use tufa::ui::dragger;

#[test]
fn texture_copy_lands_in_buffer_front() {
    let mut gpu = Gpu::new();
    let texture = gpu.create_texture_2d::<Rgba8>(2, 1);
    let texels: Vec<u8> = vec![10, 20, 30, 40, 50, 60, 70, 80];
    texture.upload(&mut gpu, &texels);

    let target = gpu.create_storage::<Mutable>(&vec![255u8; 12]);
    texture.copy_to_buffer(&mut gpu, &target);

    match gpu
        .binding_manager
        .get_resource(&BindableResourceId::Buffer(target.buffer))
        .unwrap()
    {
        BindableResource::Buffer(entry) => {
            assert_eq!(&entry.contents[..8], texels.as_slice());
            assert_eq!(&entry.contents[8..], &[255u8; 4][..]);
        }
        _ => panic!("expected a buffer entry"),
    }
    assert!(matches!(
        gpu.dispatch_queue.submitted.last().unwrap(),
        Command::CopyTextureToBuffer { .. }
    ));
}

#[test]
fn acceleration_structure_build_is_submitted_and_marks_dirty() {
    let mut gpu = Gpu::builder().with_raytracing().build();
    let vertices = gpu.create_blas(&vec![0u8; 36]);
    let indices = gpu.create_blas(&vec![0u8; 12]);
    let transformation = gpu.create_blas(&vec![0u8; 48]);
    let geometry = vec![Geometry {
        primitives: vec![GeometryPrimitive {
            first_vertex: 0,
            vertex_count: 3,
            first_index: 0,
            index_count: 3,
            transformation_offset: 0,
        }],
    }];

    let tlas = gpu.create_acceleration_structure(vertices, indices, transformation, geometry);
    assert!(matches!(
        gpu.dispatch_queue.submitted.last().unwrap(),
        Command::BuildAccelerationStructures { .. }
    ));

    let pipeline = gpu.compute_pipeline().bind(&tlas).finish(&mut gpu);
    assert!(!gpu.binding_manager.get_pipeline(&pipeline.id).unwrap().dirty);
    tlas.update(&mut gpu);
    assert!(gpu.binding_manager.get_pipeline(&pipeline.id).unwrap().dirty);
}

#[test]
fn render_pass_records_quad_draws_against_default_buffers() {
    let mut gpu = Gpu::new();
    let color = gpu.create_texture_2d::<Rgba8>(4, 4);
    let depth = gpu.create_texture_2d::<Depth>(4, 4);
    let uniform = gpu.create_uniform(&vec![0u8; 8]);

    let defaults = gpu.default_buffers();
    let mut pipeline = gpu
        .render_pipeline()
        .bind(&uniform, ShaderVisibility::Fragment)
        .finish(&mut gpu);

    let mut render_pass = gpu.begin_render_pass(&color, &depth);
    pipeline.draw_quad(&mut gpu, &mut render_pass, 0, 3);
    assert_eq!(render_pass.draws.len(), 1);
    let draw = &render_pass.draws[0];
    assert_eq!(draw.index_count, 6);
    assert_eq!(draw.instance_count, 3);

    let handle_of = |gpu: &Gpu, id| match gpu
        .binding_manager
        .get_resource(&BindableResourceId::Buffer(id))
        .unwrap()
    {
        BindableResource::Buffer(entry) => entry.handle,
        _ => panic!("expected a buffer entry"),
    };
    assert_eq!(draw.index_buffer, handle_of(&gpu, defaults.index));
    assert_eq!(draw.vertex_buffer, handle_of(&gpu, defaults.vertex));

    gpu.submit_render_pass(render_pass);
    match gpu.dispatch_queue.submitted.last().unwrap() {
        Command::RenderPass { color: c, depth: d, draws } => {
            assert_eq!(*c, color.texture);
            assert_eq!(*d, depth.texture);
            assert_eq!(draws.len(), 1);
        }
        _ => panic!("expected a render pass"),
    }
}

#[test]
fn default_buffers_hold_the_quad_and_are_created_once() {
    let mut gpu = Gpu::new();
    let first = gpu.default_buffers();
    let again = gpu.default_buffers();
    assert_eq!(first, again);

    match gpu
        .binding_manager
        .get_resource(&BindableResourceId::Buffer(first.index))
        .unwrap()
    {
        BindableResource::Buffer(entry) => {
            let words = tufa::codec::decode_u32s(&entry.contents).unwrap();
            assert_eq!(words, vec![0, 1, 2, 2, 3, 0]);
        }
        _ => panic!("expected a buffer entry"),
    }
    match gpu
        .binding_manager
        .get_resource(&BindableResourceId::Buffer(first.vertex))
        .unwrap()
    {
        BindableResource::Buffer(entry) => {
            assert_eq!(entry.contents.len(), 128);
            let words = tufa::codec::decode_u32s(&entry.contents).unwrap();
            // First corner: position (-1, -1, 0, 1), texture coordinate (0, 0).
            assert_eq!(f32::from_bits(words[0]), -1.0);
            assert_eq!(f32::from_bits(words[1]), -1.0);
            assert_eq!(f32::from_bits(words[2]), 0.0);
            assert_eq!(f32::from_bits(words[3]), 1.0);
            assert_eq!(f32::from_bits(words[4]), 0.0);
            assert_eq!(f32::from_bits(words[5]), 0.0);
        }
        _ => panic!("expected a buffer entry"),
    }
}

#[test]
fn indexed_draw_records_its_buffers_and_range() {
    let mut gpu = Gpu::new();
    let color = gpu.create_texture_2d::<Rgba8>(4, 4);
    let depth = gpu.create_texture_2d::<Depth>(4, 4);
    let uniform = gpu.create_uniform(&vec![0u8; 4]);
    let vertex = gpu.create_vertex(&vec![0u8; 96]);
    let index = gpu.create_index(&vec![0u32, 1, 2]);

    let mut pipeline = gpu
        .render_pipeline()
        .bind(&uniform, ShaderVisibility::VertexFragment)
        .finish(&mut gpu);

    let mut render_pass = gpu.begin_render_pass(&color, &depth);
    pipeline.draw(&mut gpu, &mut render_pass, &index, &vertex, 0, 3);
    let draw = &render_pass.draws[0];
    assert_eq!(draw.first_index, 0);
    assert_eq!(draw.index_count, 3);
    assert_eq!(draw.instance_count, 1);
    assert!(draw.instance_buffer.is_none());
}

#[test]
fn dragger_moves_by_ticks_times_step() {
    let mut value: i64 = 10;
    dragger(&mut value, 3, 2);
    assert_eq!(value, 16);
    dragger(&mut value, -8, 2);
    assert_eq!(value, 0);
    dragger(&mut value, 0, 5);
    assert_eq!(value, 0);
}

#[test]
fn dragger_saturates_at_the_ends() {
    let mut value: i64 = i64::MAX - 1;
    dragger(&mut value, 1, 5);
    assert_eq!(value, i64::MAX);

    let mut value: i64 = i64::MIN + 1;
    dragger(&mut value, 1, -5);
    assert_eq!(value, i64::MIN);

    let mut value: i64 = 0;
    dragger(&mut value, i64::MAX, i64::MAX);
    assert_eq!(value, i64::MAX);
    dragger(&mut value, i64::MAX, i64::MIN);
    assert_eq!(value, i64::MIN);
}
