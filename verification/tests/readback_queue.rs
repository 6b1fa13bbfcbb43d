//! Asynchronous readback and dispatch-queue batching.

use tufa::buffer::Mutable;
use tufa::dispatch::Command;
use tufa::gpu::Gpu;

#[test]
fn async_ordering_scenario() {
    let mut gpu = Gpu::new();
    let buf = gpu.create_storage::<Mutable>(&vec![1u8, 2, 3, 4]);

    // Request the readback, then immediately overwrite the buffer before the
    // mapping would complete.
    let ticket = buf.download_async(&mut gpu);
    buf.upload(&mut gpu, &vec![9u8, 9, 9, 9]);

    // The copy was submitted when the readback was requested, so the ticket
    // delivers the pre-upload snapshot; with a real device the outcome
    // depends on where the copy lands relative to the write, which is why
    // the two calls must not be overlapped on one buffer without fencing.
    // Either way the callback fires exactly once: the ticket is consumed.
    let mut deliveries = 0;
    let bytes = ticket.complete();
    deliveries += 1;
    assert_eq!(deliveries, 1);
    assert_eq!(bytes, vec![1, 2, 3, 4]);
}

#[test]
fn async_and_sync_paths_agree() {
    let mut gpu = Gpu::new();
    let buf = gpu.create_storage::<Mutable>(&vec![5u8; 6]);
    let ticket = buf.download_async(&mut gpu);
    let sync = buf.download(&mut gpu);
    assert_eq!(ticket.complete(), sync);
}

#[test]
fn download_submits_one_copy_to_fresh_staging() {
    let mut gpu = Gpu::new();
    let buf = gpu.create_storage::<Mutable>(&vec![1u8; 4]);
    let submitted_before = gpu.dispatch_queue.submitted.len();
    buf.download(&mut gpu);
    assert_eq!(gpu.dispatch_queue.submitted.len(), submitted_before + 1);
    match gpu.dispatch_queue.submitted.last().unwrap() {
        Command::CopyBufferToBuffer { src, dst, bytes } => {
            assert_ne!(src, dst);
            assert_eq!(*bytes, 4);
        }
        _ => panic!("expected a buffer copy"),
    }
}

#[test]
fn queued_dispatches_flush_as_one_batch_in_order() {
    let mut gpu = Gpu::new();
    let buf = gpu.create_storage::<Mutable>(&vec![0u8; 4]);
    let mut first = gpu.compute_pipeline().bind(&buf).finish(&mut gpu);
    let mut second = gpu.compute_pipeline().bind(&buf).finish(&mut gpu);

    first.queue_dispatch(&mut gpu, 1, 1, 1);
    second.queue_dispatch(&mut gpu, 2, 1, 1);
    assert_eq!(gpu.dispatch_queue.pending.len(), 2);
    assert_eq!(gpu.dispatch_queue.submitted.len(), 0);

    gpu.flush_dispatch_queue();
    assert_eq!(gpu.dispatch_queue.pending.len(), 0);
    assert_eq!(gpu.dispatch_queue.submitted.len(), 2);
    match &gpu.dispatch_queue.submitted[0] {
        Command::ComputeDispatch { pipeline, x, .. } => {
            assert_eq!(*pipeline, first.id);
            assert_eq!(*x, 1);
        }
        _ => panic!("expected a compute dispatch"),
    }
    match &gpu.dispatch_queue.submitted[1] {
        Command::ComputeDispatch { pipeline, x, .. } => {
            assert_eq!(*pipeline, second.id);
            assert_eq!(*x, 2);
        }
        _ => panic!("expected a compute dispatch"),
    }
}

#[test]
fn immediate_dispatch_flushes_everything_pending() {
    let mut gpu = Gpu::new();
    let buf = gpu.create_storage::<Mutable>(&vec![0u8; 4]);
    let mut queued = gpu.compute_pipeline().bind(&buf).finish(&mut gpu);
    let mut immediate = gpu.compute_pipeline().bind(&buf).finish(&mut gpu);

    queued.queue_dispatch(&mut gpu, 1, 1, 1);
    immediate.dispatch(&mut gpu, 2, 2, 2);
    assert_eq!(gpu.dispatch_queue.pending.len(), 0);
    assert_eq!(gpu.dispatch_queue.submitted.len(), 2);
}

#[test]
fn callback_tokens_register_with_their_batch_in_order() {
    let mut gpu = Gpu::new();
    let buf = gpu.create_storage::<Mutable>(&vec![0u8; 4]);
    let mut pipeline = gpu.compute_pipeline().bind(&buf).finish(&mut gpu);

    pipeline.queue_dispatch_callback(&mut gpu, 1, 1, 1, 41);
    pipeline.queue_dispatch_callback(&mut gpu, 1, 1, 1, 42);
    assert_eq!(gpu.dispatch_queue.submitted_callbacks.len(), 0);

    gpu.flush_dispatch_queue();
    assert_eq!(gpu.dispatch_queue.submitted_callbacks, vec![41, 42]);

    pipeline.dispatch_callback(&mut gpu, 1, 1, 1, 43);
    assert_eq!(gpu.dispatch_queue.submitted_callbacks, vec![41, 42, 43]);
}
