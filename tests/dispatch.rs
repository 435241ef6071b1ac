use quadrax::{
    plan_dispatch, Buffer, BufferKind, BufferStrategy, DispatchError, DispatchParams, Intent,
    MemoryFilter, OpCode, Step, Usage,
};

#[test]
fn opcodes_match_kernel_codes() {
    let ops = [OpCode::Add, OpCode::Sub, OpCode::Dot, OpCode::Mul, OpCode::Cross, OpCode::Distance];
    for (i, op) in ops.iter().enumerate() {
        assert_eq!(op.code(), i as u32);
    }
}

#[test]
fn dispatch_of_matching_staged_buffers() {
    let a = Buffer::new(BufferKind::Staged, 1024);
    let (params, handle) = plan_dispatch(OpCode::Add, &a, &a, &a, 1024).unwrap();
    assert_eq!(params, DispatchParams { op_code: 0, count: 1024 });
    assert!(!handle.is_trivial());
    assert_eq!(handle.wait(), vec![Step::Fence]);
    let (params, _) = plan_dispatch(OpCode::Cross, &a, &a, &a, 1).unwrap();
    assert_eq!(params, DispatchParams { op_code: 4, count: 1 });
}

#[test]
fn dispatch_refuses_bad_inputs() {
    let a = Buffer::new(BufferKind::Staged, 4);
    let short = Buffer::new(BufferKind::Staged, 3);
    let mapped = Buffer::new(BufferKind::Dynamic, 4);
    assert_eq!(
        plan_dispatch(OpCode::Add, &a, &short, &a, 3).err().unwrap(),
        DispatchError::LengthMismatch { a: 4, b: 3, out: 4 }
    );
    assert_eq!(
        plan_dispatch(OpCode::Sub, &a, &a, &a, 5).err().unwrap(),
        DispatchError::CountExceedsCapacity { count: 5, capacity: 4 }
    );
    assert_eq!(
        plan_dispatch(OpCode::Dot, &a, &a, &mapped, 1).err().unwrap(),
        DispatchError::NotStaged { slot: 2 }
    );
    assert_eq!(
        plan_dispatch(OpCode::Dot, &mapped, &short, &mapped, 1).err().unwrap(),
        DispatchError::NotStaged { slot: 0 }
    );
}

#[test]
fn intent_policy() {
    assert_eq!(
        Intent::Static.memory_filter(),
        MemoryFilter { prefer_device: true, prefer_host: false, host_sequential_write: false, host_random_access: false }
    );
    assert_eq!(
        Intent::Dynamic.memory_filter(),
        MemoryFilter { prefer_device: true, prefer_host: false, host_sequential_write: true, host_random_access: false }
    );
    assert_eq!(
        Intent::Static.buffer_usage(),
        Usage { transfer_src: true, transfer_dst: true, uniform_buffer: false, storage_buffer: false, vertex_buffer: false }
    );
    assert_eq!(
        Intent::Dynamic.buffer_usage(),
        Usage { transfer_src: false, transfer_dst: false, uniform_buffer: true, storage_buffer: false, vertex_buffer: true }
    );
    assert_eq!(Buffer::kind_of(Intent::Static), BufferKind::Static);
    assert_eq!(Buffer::kind_of(Intent::Dynamic), BufferKind::Dynamic);
}

#[test]
fn buffer_memory_by_kind() {
    let staged = Buffer::new(BufferKind::Staged, 2);
    let (filter, usage) = staged.memory();
    assert!(filter.prefer_device && !filter.host_random_access);
    assert!(usage.storage_buffer && usage.transfer_src && usage.transfer_dst);
    let (host_filter, host_usage) = staged.staging_memory().unwrap();
    assert!(host_filter.prefer_host && host_filter.host_random_access);
    assert!(host_usage.transfer_src && host_usage.transfer_dst && !host_usage.storage_buffer);
    assert!(Buffer::new(BufferKind::Dynamic, 2).staging_memory().is_none());
    assert_eq!(
        Buffer::new(BufferKind::Dynamic, 2).memory(),
        (Intent::Dynamic.memory_filter(), Intent::Dynamic.buffer_usage())
    );
}

#[test]
fn dispatch_of_single_element_add() {
    let a = Buffer::new(BufferKind::Staged, 1);
    let b = Buffer::new(BufferKind::Staged, 1);
    let out = Buffer::new(BufferKind::Staged, 1);
    let (params, handle) = plan_dispatch(OpCode::Add, &a, &b, &out, 1).unwrap();
    assert_eq!(params, DispatchParams { op_code: 0, count: 1 });
    assert_eq!(handle.wait(), vec![Step::Fence]);
    assert_eq!(
        plan_dispatch(OpCode::Add, &a, &b, &out, 2).err().unwrap(),
        DispatchError::CountExceedsCapacity { count: 2, capacity: 1 }
    );
}
