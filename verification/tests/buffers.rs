//! Buffer lifecycle: growth, shrinking, fixed-size uniforms, round trips.

use tufa::buffer::{BufferError, Mutable, UploadOutcome};
use tufa::gpu::Gpu;
use tufa::resource::{BindableResource, BindableResourceId};

fn f32s_to_bytes(values: &[f32]) -> Vec<u8> {
    let mut out = Vec::new();
    for v in values {
        out.extend_from_slice(&v.to_le_bytes());
    }
    out
}

fn bytes_to_f32s(bytes: &[u8]) -> Vec<f32> {
    assert_eq!(bytes.len() % 4, 0);
    let mut out = Vec::new();
    for chunk in bytes.chunks(4) {
        out.push(f32::from_le_bytes([chunk[0], chunk[1], chunk[2], chunk[3]]));
    }
    out
}

fn entry_of(gpu: &Gpu, id: tufa::ids::BufferId) -> (u64, usize, Vec<u8>) {
    match gpu
        .binding_manager
        .get_resource(&BindableResourceId::Buffer(id))
        .unwrap()
    {
        BindableResource::Buffer(entry) => {
            (entry.handle, entry.contents.len(), entry.contents.clone())
        }
        _ => panic!("expected a buffer entry"),
    }
}

#[test]
fn growth_round_trip_scenario() {
    let mut gpu = Gpu::new();
    // A storage buffer holding [1.0, 2.0]: 8 bytes of payload.
    let buf = gpu.create_storage::<Mutable>(&f32s_to_bytes(&[1.0, 2.0]));
    let (handle_before, size_before, _) = entry_of(&gpu, buf.buffer);
    assert_eq!(size_before, 8);

    let mut pipeline = gpu.compute_pipeline().bind(&buf).finish(&mut gpu);

    // Upload [1.0, 2.0, 3.0, 4.0]: 16 bytes, which outgrows the allocation.
    let id_before = buf.buffer;
    let outcome = buf.upload(&mut gpu, &f32s_to_bytes(&[1.0, 2.0, 3.0, 4.0]));
    assert_eq!(outcome, UploadOutcome::Reallocated);
    // The allocation was replaced, the id was not.
    assert_eq!(buf.buffer, id_before);

    let (handle_after, size_after, _) = entry_of(&gpu, buf.buffer);
    assert_ne!(handle_before, handle_after);
    assert!(size_after >= 16);
    assert!(gpu.binding_manager.get_pipeline(&pipeline.id).unwrap().dirty);

    pipeline.dispatch(&mut gpu, 1, 1, 1);

    let read = buf.download(&mut gpu);
    assert_eq!(bytes_to_f32s(&read), vec![1.0, 2.0, 3.0, 4.0]);
}

#[test]
fn uniform_fixed_size_scenario() {
    let mut gpu = Gpu::new();
    // A uniform buffer of a two-f32-field struct.
    let uniform = gpu.create_uniform(&f32s_to_bytes(&[0.5, 1.5]));
    let (handle_before, size_before, _) = entry_of(&gpu, uniform.buffer);

    for round in 0..5 {
        let value = round as f32;
        uniform
            .upload(&mut gpu, &f32s_to_bytes(&[value, value + 0.25]))
            .unwrap();
        let (handle, size, _) = entry_of(&gpu, uniform.buffer);
        assert_eq!(handle, handle_before);
        assert_eq!(size, size_before);
    }
    let (_, _, contents) = entry_of(&gpu, uniform.buffer);
    assert_eq!(bytes_to_f32s(&contents), vec![4.0, 4.25]);
}

#[test]
fn uniform_rejects_mismatched_size() {
    let mut gpu = Gpu::new();
    let uniform = gpu.create_uniform(&f32s_to_bytes(&[1.0, 2.0]));
    let err = uniform
        .upload(&mut gpu, &f32s_to_bytes(&[1.0, 2.0, 3.0]))
        .unwrap_err();
    assert_eq!(err, BufferError::SizeMismatch { expected: 8, got: 12 });
    // Nothing changed.
    let (_, size, contents) = entry_of(&gpu, uniform.buffer);
    assert_eq!(size, 8);
    assert_eq!(bytes_to_f32s(&contents), vec![1.0, 2.0]);
}

#[test]
fn upload_never_shrinks() {
    let mut gpu = Gpu::new();
    let buf = gpu.create_storage::<Mutable>(&vec![7u8; 16]);
    let (handle_before, size_before, _) = entry_of(&gpu, buf.buffer);

    let outcome = buf.upload(&mut gpu, &vec![1u8; 4]);
    assert_eq!(outcome, UploadOutcome::WroteInPlace);
    let (handle, size, contents) = entry_of(&gpu, buf.buffer);
    assert_eq!(handle, handle_before);
    assert_eq!(size, size_before);
    // Front overwritten, tail kept.
    assert_eq!(&contents[..4], &[1, 1, 1, 1]);
    assert_eq!(&contents[4..], &[7u8; 12][..]);
}

#[test]
fn upload_shrink_reallocates_to_minimal_size() {
    let mut gpu = Gpu::new();
    let buf = gpu.create_storage::<Mutable>(&vec![7u8; 16]);
    let (handle_before, _, _) = entry_of(&gpu, buf.buffer);

    let outcome = buf.upload_shrink(&mut gpu, &vec![2u8; 4]);
    assert_eq!(outcome, UploadOutcome::Reallocated);
    let (handle, size, contents) = entry_of(&gpu, buf.buffer);
    assert_ne!(handle, handle_before);
    assert_eq!(size, 4);
    assert_eq!(contents, vec![2u8; 4]);
}

#[test]
fn upload_equal_size_writes_in_place_even_when_shrinking() {
    let mut gpu = Gpu::new();
    let buf = gpu.create_storage::<Mutable>(&vec![7u8; 8]);
    let (handle_before, _, _) = entry_of(&gpu, buf.buffer);
    let outcome = buf.upload_shrink(&mut gpu, &vec![9u8; 8]);
    assert_eq!(outcome, UploadOutcome::WroteInPlace);
    let (handle, _, contents) = entry_of(&gpu, buf.buffer);
    assert_eq!(handle, handle_before);
    assert_eq!(contents, vec![9u8; 8]);
}

#[test]
fn sync_download_round_trip() {
    let mut gpu = Gpu::new();
    let data = f32s_to_bytes(&[3.5, -1.25, 0.0]);
    let buf = gpu.create_storage::<Mutable>(&data);
    let read = buf.download(&mut gpu);
    assert_eq!(read, data);
}

#[test]
fn empty_storage_buffer_reads_back_zeroed() {
    let mut gpu = Gpu::new();
    let buf = gpu.create_storage_empty::<Mutable>(12);
    let read = buf.download(&mut gpu);
    assert_eq!(read, vec![0u8; 12]);
}

#[test]
fn index_buffer_stores_little_endian_words() {
    let mut gpu = Gpu::new();
    let indices = gpu.create_index(&vec![0u32, 1, 2, 0x01020304]);
    let (_, size, contents) = entry_of(&gpu, indices.buffer);
    assert_eq!(size, 16);
    assert_eq!(&contents[12..], &[0x04, 0x03, 0x02, 0x01]);
    let decoded = tufa::codec::decode_u32s(&contents).unwrap();
    assert_eq!(decoded, vec![0, 1, 2, 0x01020304]);
}

#[test]
fn codec_round_trip_and_misalignment() {
    let words = vec![0u32, 1, 0xFFFF_FFFF, 0xDEAD_BEEF];
    let bytes = tufa::codec::encode_u32s(&words);
    assert_eq!(bytes.len(), 16);
    assert_eq!(tufa::codec::decode_u32s(&bytes).unwrap(), words);
    let mut odd = bytes.clone();
    odd.push(0);
    assert!(tufa::codec::decode_u32s(&odd).is_none());
}

#[test]
fn blas_buffer_writes_in_place_and_rejects_overflow() {
    let mut gpu = Gpu::builder().with_raytracing().build();
    let blas = gpu.create_blas(&vec![1u8; 8]);
    let (handle_before, _, _) = entry_of(&gpu, blas.buffer);

    blas.upload(&mut gpu, &vec![3u8; 8]).unwrap();
    let (handle, size, contents) = entry_of(&gpu, blas.buffer);
    assert_eq!(handle, handle_before);
    assert_eq!(size, 8);
    assert_eq!(contents, vec![3u8; 8]);

    let err = blas.upload(&mut gpu, &vec![4u8; 12]).unwrap_err();
    assert_eq!(err, BufferError::SizeMismatch { expected: 8, got: 12 });
}

#[test]
fn vertex_buffer_grows_like_storage() {
    let mut gpu = Gpu::new();
    let vertex = gpu.create_vertex(&vec![1u8; 8]);
    assert_eq!(vertex.upload(&mut gpu, &vec![2u8; 4]), UploadOutcome::WroteInPlace);
    assert_eq!(vertex.upload(&mut gpu, &vec![2u8; 32]), UploadOutcome::Reallocated);
    let (_, size, _) = entry_of(&gpu, vertex.buffer);
    assert_eq!(size, 32);
}
