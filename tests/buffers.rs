use quadrax::{
    read_region, write_prefix, Buffer, BufferKind, CopyCmd, HostMemory, Place, Step, TransferError,
};

fn create<T: Copy>(kind: BufferKind, data: &[T], blank: T) -> (Buffer, HostMemory<T>) {
    let (buffer, steps) = Buffer::from_data(kind, data.len());
    let mut memory = HostMemory::new(&buffer, blank);
    assert!(memory.perform_all(&steps, data));
    (buffer, memory)
}

fn write<T: Copy>(buffer: &Buffer, memory: &mut HostMemory<T>, data: &[T]) {
    let (now, handle) = buffer.update_async(data.len()).unwrap();
    assert!(memory.perform_all(&now, data));
    assert!(memory.perform_all(&handle.wait(), data));
}

fn write_without_wait<T: Copy>(buffer: &Buffer, memory: &mut HostMemory<T>, data: &[T]) {
    let (now, _handle) = buffer.update_async(data.len()).unwrap();
    assert!(memory.perform_all(&now, data));
}

fn read<T: Copy>(buffer: &Buffer, memory: &mut HostMemory<T>) -> Vec<T> {
    let (now, handle) = buffer.read_async();
    assert!(memory.perform_all(&now, &[]));
    assert!(memory.perform_all(&handle.wait(), &[]));
    memory.output()
}

fn read_blocking<T: Copy>(buffer: &Buffer, memory: &mut HostMemory<T>) -> Vec<T> {
    assert!(memory.perform_all(&buffer.read(), &[]));
    memory.output()
}

fn round_trip(kind: BufferKind) {
    let initial = vec![1.0f32, 2.0, 3.0, 4.0];
    let (buffer, mut memory) = create(kind, &initial, 0.0);
    assert_eq!(read(&buffer, &mut memory), initial);
    let updated = vec![5.0, 2.3, 17.6, 32.0];
    write(&buffer, &mut memory, &updated);
    assert_eq!(read(&buffer, &mut memory), updated);
}

fn partial_update(kind: BufferKind) {
    let initial = vec![1u32, 2, 3, 4, 5];
    let (buffer, mut memory) = create(kind, &initial, 0);
    write_without_wait(&buffer, &mut memory, &[10, 20]);
    let result = read(&buffer, &mut memory);
    assert_eq!(result, vec![10, 20, 3, 4, 5]);
}

fn multiple_updates(kind: BufferKind) {
    let (buffer, mut memory) = create(kind, &[0i32; 4], 0);
    for i in 0..10 {
        let data = vec![i, i + 1, i + 2, i + 3];
        write(&buffer, &mut memory, &data);
        assert_eq!(read(&buffer, &mut memory), data);
    }
}

#[test]
fn coherent_variable_buffer_round_trip() {
    round_trip(BufferKind::Dynamic);
}

#[test]
fn coherent_variable_buffer_partial_update() {
    partial_update(BufferKind::Dynamic);
}

#[test]
fn coherent_variable_buffer_multiple_updates() {
    multiple_updates(BufferKind::Dynamic);
}

#[test]
fn variable_variable_buffer_round_trip() {
    let initial = vec![1.0f32, 2.0, 3.0, 4.0];
    let (buffer, mut memory) = create(BufferKind::Dynamic, &initial, 0.0);
    assert_eq!(read_blocking(&buffer, &mut memory), initial);
    let updated = vec![5.0, 2.3, 17.6, 32.0];
    assert!(memory.perform_all(&buffer.update(updated.len()).unwrap(), &updated));
    assert_eq!(read_blocking(&buffer, &mut memory), updated);
}

#[test]
fn variable_variable_buffer_partial_update() {
    let initial = vec![1u32, 2, 3, 4, 5];
    let (buffer, mut memory) = create(BufferKind::Dynamic, &initial, 0);
    assert!(memory.perform_all(&buffer.update(2).unwrap(), &[10, 20]));
    assert_eq!(read_blocking(&buffer, &mut memory), vec![10, 20, 3, 4, 5]);
}

#[test]
fn variable_variable_buffer_multiple_updates() {
    let (buffer, mut memory) = create(BufferKind::Dynamic, &[0i32; 4], 0);
    for i in 0..10 {
        let data = vec![i, i + 1, i + 2, i + 3];
        assert!(memory.perform_all(&buffer.update(data.len()).unwrap(), &data));
        assert_eq!(read_blocking(&buffer, &mut memory), data);
    }
}

#[test]
fn staged_buffer_round_trip() {
    round_trip(BufferKind::Staged);
}

#[test]
fn staged_buffer_partial_update() {
    partial_update(BufferKind::Staged);
}

#[test]
fn staged_buffer_multiple_updates() {
    multiple_updates(BufferKind::Staged);
}

#[test]
fn static_buffer_round_trip() {
    round_trip(BufferKind::Static);
}

#[test]
fn static_buffer_partial_update() {
    partial_update(BufferKind::Static);
}

#[test]
fn static_buffer_multiple_updates() {
    multiple_updates(BufferKind::Static);
}

#[test]
fn blocking_read_of_static_buffer() {
    let (buffer, mut memory) = create(BufferKind::Static, &[7u8, 8, 9], 0);
    assert_eq!(read_blocking(&buffer, &mut memory), vec![7, 8, 9]);
}

#[test]
fn capacity_violation_leaves_contents() {
    for kind in [BufferKind::Dynamic, BufferKind::Static, BufferKind::Staged] {
        let (buffer, mut memory) = create(kind, &[1u32, 2, 3], 0);
        let err = buffer.update_async(4).err().unwrap();
        assert_eq!(err, TransferError::CapacityExceeded { len: 4, capacity: 3 });
        assert_eq!(
            buffer.update(5).err().unwrap(),
            TransferError::CapacityExceeded { len: 5, capacity: 3 }
        );
        assert_eq!(read(&buffer, &mut memory), vec![1, 2, 3]);
    }
}

#[test]
fn zero_length_write_is_no_op() {
    for kind in [BufferKind::Dynamic, BufferKind::Static, BufferKind::Staged] {
        let (buffer, mut memory) = create(kind, &[4u32, 5], 0);
        let (now, handle) = buffer.update_async(0).unwrap();
        assert!(now.is_empty());
        assert!(handle.is_trivial());
        assert!(handle.wait().is_empty());
        assert_eq!(read(&buffer, &mut memory), vec![4, 5]);
    }
}

#[test]
fn staged_write_after_stale_staging_keeps_tail() {
    // The device region changes behind the staging region's back, as a dispatch does.
    let (buffer, mut memory) = create(BufferKind::Staged, &[1u32, 2, 3, 4], 0);
    assert!(memory.perform(Step::HostWrite { place: Place::Device, len: 4 }, &[9, 9, 9, 9]));
    write(&buffer, &mut memory, &[5, 6]);
    assert_eq!(read(&buffer, &mut memory), vec![5, 6, 9, 9]);
}

#[test]
fn trivial_handles() {
    let dynamic = Buffer::new(BufferKind::Dynamic, 3);
    let staged = Buffer::new(BufferKind::Staged, 3);
    let fixed = Buffer::new(BufferKind::Static, 3);
    let (now, read_handle) = dynamic.read_async();
    assert_eq!(now, vec![Step::HostRead { place: Place::Device }]);
    assert!(read_handle.is_trivial());
    assert!(read_handle.wait().is_empty());
    assert!(fixed.read_async().1.is_trivial());
    assert!(!staged.read_async().1.is_trivial());
    assert!(dynamic.update_async(2).unwrap().1.is_trivial());
    assert!(fixed.update_async(2).unwrap().1.is_trivial());
    assert!(!staged.update_async(2).unwrap().1.is_trivial());
}

#[test]
fn trivial_read_matches_blocking_read() {
    let (buffer, mut memory) = create(BufferKind::Dynamic, &[3i64, 1, 4, 1, 5], 0);
    let start = std::time::Instant::now();
    let (now, handle) = buffer.read_async();
    assert!(handle.is_trivial());
    assert!(memory.perform_all(&now, &[]));
    assert!(memory.perform_all(&handle.wait(), &[]));
    let from_handle = memory.output();
    assert!(start.elapsed() < std::time::Duration::from_secs(1));
    assert_eq!(from_handle, read_blocking(&buffer, &mut memory));
}

#[test]
fn plans_are_exact() {
    let staged = Buffer::new(BufferKind::Staged, 8);
    let (now, handle) = staged.update_async(3).unwrap();
    assert_eq!(
        now,
        vec![
            Step::HostWrite { place: Place::Staging, len: 3 },
            Step::Copy(CopyCmd { from: Place::Staging, to: Place::Device, len: 3 }),
            Step::Submit,
        ]
    );
    assert_eq!(handle.wait(), vec![Step::Fence]);
    let fixed = Buffer::new(BufferKind::Static, 8);
    assert_eq!(
        fixed.read(),
        vec![
            Step::AllocScratch { len: 8 },
            Step::Copy(CopyCmd { from: Place::Device, to: Place::Scratch, len: 8 }),
            Step::Submit,
            Step::Fence,
            Step::HostRead { place: Place::Scratch },
        ]
    );
    let dynamic = Buffer::new(BufferKind::Dynamic, 8);
    assert_eq!(dynamic.update(8).unwrap(), vec![Step::HostWrite { place: Place::Device, len: 8 }]);
}

#[test]
fn host_memory_refuses_out_of_bounds_steps() {
    let buffer = Buffer::new(BufferKind::Dynamic, 2);
    let mut memory = HostMemory::new(&buffer, 0u8);
    assert!(!memory.perform(Step::HostWrite { place: Place::Device, len: 3 }, &[1, 2, 3]));
    assert!(!memory.perform(Step::HostWrite { place: Place::Device, len: 2 }, &[1]));
    assert!(memory.perform(Step::Copy(CopyCmd { from: Place::Device, to: Place::Staging, len: 1 }), &[]));
    assert!(memory.perform(Step::Submit, &[]));
    assert!(!memory.perform(Step::Fence, &[]));
}

#[test]
fn new_memory_is_blank() {
    let buffer = Buffer::new(BufferKind::Staged, 3);
    let mut memory = HostMemory::new(&buffer, 0u16);
    assert_eq!(read(&buffer, &mut memory), vec![0, 0, 0]);
}

#[test]
fn write_prefix_updates_only_prefix() {
    let mut region = vec![1, 2, 3, 4, 5];
    assert_eq!(write_prefix(&mut region, &[10, 20]), Ok(()));
    assert_eq!(region, vec![10, 20, 3, 4, 5]);
    assert_eq!(
        write_prefix(&mut region, &[0; 6]),
        Err(TransferError::CapacityExceeded { len: 6, capacity: 5 })
    );
    assert_eq!(region, vec![10, 20, 3, 4, 5]);
    assert_eq!(write_prefix(&mut region, &[]), Ok(()));
    assert_eq!(region, vec![10, 20, 3, 4, 5]);
    assert_eq!(read_region(&region), vec![10, 20, 3, 4, 5]);
}

#[test]
fn dynamic_read_snapshots_at_start() {
    let (buffer, mut memory) = create(BufferKind::Dynamic, &[0u32], 0);
    let (now, handle) = buffer.read_async();
    assert!(memory.perform_all(&now, &[]));
    write(&buffer, &mut memory, &[7]);
    assert!(handle.is_trivial());
    assert!(memory.perform_all(&handle.wait(), &[]));
    assert_eq!(memory.output(), vec![0]);
    assert_eq!(read(&buffer, &mut memory), vec![7]);
}

#[test]
fn static_read_snapshots_at_start() {
    let (buffer, mut memory) = create(BufferKind::Static, &[1u32, 2], 0);
    let (now, handle) = buffer.read_async();
    assert!(memory.perform_all(&now, &[]));
    write(&buffer, &mut memory, &[9]);
    assert!(handle.is_trivial());
    assert!(memory.perform_all(&handle.wait(), &[]));
    assert_eq!(memory.output(), vec![1, 2]);
    assert_eq!(read(&buffer, &mut memory), vec![9, 2]);
}

#[test]
fn host_write_refused_while_copy_pending() {
    let (buffer, mut memory) = create(BufferKind::Staged, &[1u32, 2, 3], 0);
    let (now, handle) = buffer.read_async();
    assert!(memory.perform_all(&now, &[]));
    let (write_now, _) = buffer.update_async(1).unwrap();
    assert!(!memory.perform_all(&write_now, &[5]));
    assert!(memory.perform_all(&handle.wait(), &[]));
    assert_eq!(memory.output(), vec![1, 2, 3]);
    write(&buffer, &mut memory, &[5]);
    assert_eq!(read(&buffer, &mut memory), vec![5, 2, 3]);
}

#[test]
fn host_read_refused_while_copy_pending() {
    let (buffer, mut memory) = create(BufferKind::Staged, &[4u32, 5], 0);
    let (now, _) = buffer.read_async();
    assert!(memory.perform_all(&now, &[]));
    assert!(!memory.perform(Step::HostRead { place: Place::Staging }, &[]));
    assert!(memory.perform(Step::HostRead { place: Place::Device }, &[]));
    assert_eq!(memory.output(), vec![4, 5]);
}
