use vstd::prelude::*;

use crate::buffer::{Buffer, BufferKind, BufferWriteFuture};
use crate::plan::Step;

verus! {

/// The per-element operation a dispatch runs over 4-component vectors.
#[derive(Debug, Clone, Copy, PartialEq, Eq, Structural)]
pub enum OpCode {
    Add,
    Sub,
    Dot,
    Mul,
    Cross,
    Distance,
}

/// The code the compute kernel reads to select an operation.
pub open spec fn op_code(op: OpCode) -> u32 {
    match op {
        OpCode::Add => 0,
        OpCode::Sub => 1,
        OpCode::Dot => 2,
        OpCode::Mul => 3,
        OpCode::Cross => 4,
        OpCode::Distance => 5,
    }
}

impl OpCode {
    /// The code the compute kernel reads for this operation.
    pub fn code(&self) -> (r: u32)
        ensures
            r == op_code(*self),
    {
        match self {
            OpCode::Add => 0,
            OpCode::Sub => 1,
            OpCode::Dot => 2,
            OpCode::Mul => 3,
            OpCode::Cross => 4,
            OpCode::Distance => 5,
        }
    }
}

/// Number of workgroups along the first axis of every dispatch.
pub const GROUPS_X: u32 = 128;

/// Why a dispatch was refused before anything was submitted.
#[derive(Debug, Clone, Copy, PartialEq, Eq, Structural)]
pub enum DispatchError {
    /// The buffer bound at `slot` is not a staged, device-local buffer.
    NotStaged { slot: u32 },
    /// The three buffers do not hold the same number of elements.
    LengthMismatch { a: usize, b: usize, out: usize },
    /// The element count is larger than the buffers.
    CountExceedsCapacity { count: u32, capacity: usize },
}

/// The inline parameters pushed to the kernel with a dispatch.
#[derive(Debug, Clone, Copy, PartialEq, Eq, Structural)]
pub struct DispatchParams {
    pub op_code: u32,
    pub count: u32,
}

/// The first slot, in binding order, whose buffer is not staged.
pub open spec fn unstaged_slot(a: Buffer, b: Buffer, out: Buffer) -> Option<u32> {
    if a.kind != BufferKind::Staged {
        Some(0u32)
    } else if b.kind != BufferKind::Staged {
        Some(1u32)
    } else if out.kind != BufferKind::Staged {
        Some(2u32)
    } else {
        None
    }
}

/// Checks a dispatch of `op` over `count` elements with `a` and `b` bound
/// as inputs at slots 0 and 1 and `out` as output at slot 2. On success
/// gives the parameters to push and a handle that completes when the
/// submitted dispatch has run.
pub fn plan_dispatch(op: OpCode, a: &Buffer, b: &Buffer, out: &Buffer, count: u32) -> (r: Result<
    (DispatchParams, BufferWriteFuture),
    DispatchError,
>)
    ensures
        unstaged_slot(*a, *b, *out) is Some ==> r is Err && r->Err_0 == (DispatchError::NotStaged {
            slot: unstaged_slot(*a, *b, *out)->Some_0,
        }),
        unstaged_slot(*a, *b, *out) is None && !(a.capacity == b.capacity && b.capacity
            == out.capacity) ==> r is Err && r->Err_0 == (DispatchError::LengthMismatch {
            a: a.capacity,
            b: b.capacity,
            out: out.capacity,
        }),
        unstaged_slot(*a, *b, *out) is None && a.capacity == b.capacity && b.capacity
            == out.capacity && count > a.capacity ==> r is Err && r->Err_0 == (
        DispatchError::CountExceedsCapacity { count, capacity: a.capacity }),
        unstaged_slot(*a, *b, *out) is None && a.capacity == b.capacity && b.capacity
            == out.capacity && count <= a.capacity ==> r is Ok && r->Ok_0.0 == (DispatchParams {
            op_code: op_code(op),
            count,
        }) && r->Ok_0.1@ == seq![Step::Fence],
{
    if a.kind != BufferKind::Staged {
        return Err(DispatchError::NotStaged { slot: 0 });
    }
    if b.kind != BufferKind::Staged {
        return Err(DispatchError::NotStaged { slot: 1 });
    }
    if out.kind != BufferKind::Staged {
        return Err(DispatchError::NotStaged { slot: 2 });
    }
    if a.capacity != b.capacity || b.capacity != out.capacity {
        return Err(DispatchError::LengthMismatch { a: a.capacity, b: b.capacity, out: out.capacity });
    }
    if count as usize > a.capacity {
        return Err(DispatchError::CountExceedsCapacity { count, capacity: a.capacity });
    }
    Ok((DispatchParams { op_code: op.code(), count }, BufferWriteFuture::pending()))
}

} // verus!
