//! Id allocation, dirty propagation and positional bind groups.

use tufa::buffer::{Immutable, Mutable, UploadOutcome};
use tufa::gpu::Gpu;
use tufa::manager::BoundResource;
use tufa::resource::{BindableResource, BindableResourceId, FilterMode};

fn bytes(n: usize, fill: u8) -> Vec<u8> {
    vec![fill; n]
}

#[test]
fn ids_are_unique_across_kinds_and_draws() {
    let mut gpu = Gpu::new();
    let a = gpu.create_storage::<Mutable>(&bytes(4, 1));
    let b = gpu.create_storage::<Mutable>(&bytes(4, 2));
    let c = gpu.create_uniform(&bytes(8, 3));
    let d = gpu.create_vertex(&bytes(8, 4));
    let ids = [a.buffer, b.buffer, c.buffer, d.buffer];
    for i in 0..ids.len() {
        for j in 0..ids.len() {
            if i != j {
                assert!(ids[i] != ids[j]);
            }
        }
    }
}

#[test]
fn replacing_marks_bound_pipelines_dirty() {
    let mut gpu = Gpu::new();
    let buf = gpu.create_storage::<Mutable>(&bytes(4, 0));
    let pipeline = gpu.compute_pipeline().bind(&buf).finish(&mut gpu);
    assert!(!gpu.binding_manager.get_pipeline(&pipeline.id).unwrap().dirty);

    // Growing past the capacity replaces the table entry and flags the
    // pipeline.
    let outcome = buf.upload(&mut gpu, &bytes(8, 7));
    assert_eq!(outcome, UploadOutcome::Reallocated);
    assert!(gpu.binding_manager.get_pipeline(&pipeline.id).unwrap().dirty);
}

#[test]
fn replacing_leaves_unrelated_pipelines_alone() {
    let mut gpu = Gpu::new();
    let bound = gpu.create_storage::<Mutable>(&bytes(4, 0));
    let other = gpu.create_storage::<Mutable>(&bytes(4, 0));
    let pipeline = gpu.compute_pipeline().bind(&bound).finish(&mut gpu);

    let outcome = other.upload(&mut gpu, &bytes(16, 9));
    assert_eq!(outcome, UploadOutcome::Reallocated);
    assert!(!gpu.binding_manager.get_pipeline(&pipeline.id).unwrap().dirty);
}

#[test]
fn in_place_write_does_not_mark_dirty() {
    let mut gpu = Gpu::new();
    let buf = gpu.create_storage::<Mutable>(&bytes(8, 0));
    let pipeline = gpu.compute_pipeline().bind(&buf).finish(&mut gpu);

    let outcome = buf.upload(&mut gpu, &bytes(4, 5));
    assert_eq!(outcome, UploadOutcome::WroteInPlace);
    assert!(!gpu.binding_manager.get_pipeline(&pipeline.id).unwrap().dirty);
}

#[test]
fn binding_slots_are_positional() {
    let mut gpu = Gpu::new();
    let a = gpu.create_storage::<Mutable>(&bytes(4, 1));
    let b = gpu.create_uniform(&bytes(8, 2));
    let c = gpu.create_storage::<Immutable>(&bytes(4, 3));

    let pipeline = gpu
        .compute_pipeline()
        .bind(&a)
        .bind(&b)
        .bind(&c)
        .finish(&mut gpu);

    let handle_of = |gpu: &Gpu, id| match gpu
        .binding_manager
        .get_resource(&BindableResourceId::Buffer(id))
        .unwrap()
    {
        BindableResource::Buffer(entry) => entry.handle,
        _ => panic!("expected a buffer entry"),
    };

    assert_eq!(pipeline.bind_group.entries.len(), 3);
    let expected = [
        handle_of(&gpu, a.buffer),
        handle_of(&gpu, b.buffer),
        handle_of(&gpu, c.buffer),
    ];
    for (slot, entry) in pipeline.bind_group.entries.iter().enumerate() {
        assert_eq!(entry.binding as usize, slot);
        match entry.resource {
            BoundResource::EntireBuffer { handle } => assert_eq!(handle, expected[slot]),
            _ => panic!("expected a whole-buffer binding"),
        }
    }
}

#[test]
fn mixed_kind_slots_resolve_in_order() {
    let mut gpu = Gpu::new();
    let buf = gpu.create_storage::<Mutable>(&bytes(4, 1));
    let texture = gpu.create_texture_2d::<tufa::texture::Rgba8>(2, 2);
    let sampler = gpu.create_sampler(FilterMode::Linear);

    let pipeline = gpu
        .compute_pipeline()
        .bind(&buf)
        .bind(&texture)
        .bind(&sampler)
        .finish(&mut gpu);

    match pipeline.bind_group.entries[0].resource {
        BoundResource::EntireBuffer { .. } => {}
        _ => panic!("slot 0 should be the buffer"),
    }
    match pipeline.bind_group.entries[1].resource {
        BoundResource::TextureView { handle } => assert_eq!(handle, texture.texture),
        _ => panic!("slot 1 should be the texture view"),
    }
    match pipeline.bind_group.entries[2].resource {
        BoundResource::Sampler { handle } => assert_eq!(handle, sampler.sampler),
        _ => panic!("slot 2 should be the sampler"),
    }
}

#[test]
fn texture_collection_binds_member_views_in_order() {
    let mut gpu = Gpu::new();
    let t0 = gpu.create_texture_2d::<tufa::texture::Rgba8>(1, 1);
    let t1 = gpu.create_texture_2d::<tufa::texture::Rgba8>(2, 2);
    let collection = gpu.create_texture_collection(&vec![t0.id, t1.id]);
    assert_eq!(collection.count(), 2);

    let pipeline = gpu.compute_pipeline().bind(&collection).finish(&mut gpu);
    match &pipeline.bind_group.entries[0].resource {
        BoundResource::TextureViewArray { handles } => {
            assert_eq!(handles.as_slice(), &[t0.texture, t1.texture]);
        }
        _ => panic!("expected a texture view array"),
    }
}

#[test]
fn destroyed_buffer_leaves_the_table() {
    let mut gpu = Gpu::new();
    let buf = gpu.create_storage::<Mutable>(&bytes(4, 1));
    let id = buf.buffer;
    assert!(gpu
        .binding_manager
        .get_resource(&BindableResourceId::Buffer(id))
        .is_some());
    buf.destroy(&mut gpu);
    assert!(gpu
        .binding_manager
        .get_resource(&BindableResourceId::Buffer(id))
        .is_none());
}

#[test]
fn rebuild_happens_before_next_dispatch() {
    let mut gpu = Gpu::new();
    let buf = gpu.create_storage::<Mutable>(&bytes(4, 0));
    let mut pipeline = gpu.compute_pipeline().bind(&buf).finish(&mut gpu);

    let old_handle = match pipeline.bind_group.entries[0].resource {
        BoundResource::EntireBuffer { handle } => handle,
        _ => panic!("expected a whole-buffer binding"),
    };

    buf.upload(&mut gpu, &bytes(16, 1));
    assert!(gpu.binding_manager.get_pipeline(&pipeline.id).unwrap().dirty);

    pipeline.dispatch(&mut gpu, 1, 1, 1);
    assert!(!gpu.binding_manager.get_pipeline(&pipeline.id).unwrap().dirty);
    let new_handle = match pipeline.bind_group.entries[0].resource {
        BoundResource::EntireBuffer { handle } => handle,
        _ => panic!("expected a whole-buffer binding"),
    };
    assert_ne!(old_handle, new_handle);

    // The rebuilt group points at the live table entry.
    let live = match gpu
        .binding_manager
        .get_resource(&BindableResourceId::Buffer(buf.buffer))
        .unwrap()
    {
        BindableResource::Buffer(entry) => entry.handle,
        _ => panic!("expected a buffer entry"),
    };
    assert_eq!(new_handle, live);
}
