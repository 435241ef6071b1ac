use vstd::prelude::*;

use crate::intent::{device_only, host_random, usage, BufferStrategy, Intent, MemoryFilter, Usage};
use crate::plan::{CopyCmd, Place, Step};
use crate::region::TransferError;

verus! {

/// How a buffer's contents move between host and device.
#[derive(Debug, Clone, Copy, PartialEq, Eq, Structural)]
pub enum BufferKind {
    /// Host-mappable: reads and writes go through a mapping, with no submission.
    Dynamic,
    /// Device-local: each read or write goes through a scratch region of its own and blocks.
    Static,
    /// Device-local with a long-lived staging region: transfers return a handle to wait on.
    Staged,
}

/// The steps that write `len` elements at the front of a buffer, up to the
/// point where the caller may go on.
pub open spec fn write_steps(kind: BufferKind, len: usize) -> Seq<Step> {
    if len == 0 {
        seq![]
    } else {
        match kind {
            BufferKind::Dynamic => seq![Step::HostWrite { place: Place::Device, len }],
            BufferKind::Static => seq![
                Step::AllocScratch { len },
                Step::HostWrite { place: Place::Scratch, len },
                Step::Copy(CopyCmd { from: Place::Scratch, to: Place::Device, len }),
                Step::Submit,
                Step::Fence,
            ],
            BufferKind::Staged => seq![
                Step::HostWrite { place: Place::Staging, len },
                Step::Copy(CopyCmd { from: Place::Staging, to: Place::Device, len }),
                Step::Submit,
            ],
        }
    }
}

/// The steps that waiting on a write handle performs.
pub open spec fn write_wait_steps(kind: BufferKind, len: usize) -> Seq<Step> {
    if len != 0 && kind == BufferKind::Staged {
        seq![Step::Fence]
    } else {
        seq![]
    }
}

/// The steps that start a read of a whole buffer of `capacity` elements.
/// A host-mapped or device-local buffer is copied out here, at once; a
/// staged buffer only submits its copy into the staging region.
pub open spec fn read_steps(kind: BufferKind, capacity: usize) -> Seq<Step> {
    match kind {
        BufferKind::Dynamic => seq![Step::HostRead { place: Place::Device }],
        BufferKind::Static => seq![
            Step::AllocScratch { len: capacity },
            Step::Copy(CopyCmd { from: Place::Device, to: Place::Scratch, len: capacity }),
            Step::Submit,
            Step::Fence,
            Step::HostRead { place: Place::Scratch },
        ],
        BufferKind::Staged => seq![
            Step::Copy(CopyCmd { from: Place::Device, to: Place::Staging, len: capacity }),
            Step::Submit,
        ],
    }
}

/// The steps that waiting on a read handle performs: for a staged buffer,
/// wait for the copy and then copy the staging region out; nothing otherwise.
pub open spec fn read_wait_steps(kind: BufferKind) -> Seq<Step> {
    match kind {
        BufferKind::Staged => seq![Step::Fence, Step::HostRead { place: Place::Staging }],
        _ => seq![],
    }
}

/// Steps that never block the host.
pub open spec fn non_blocking(steps: Seq<Step>) -> bool {
    !steps.contains(Step::Fence)
}

/// Outstanding device work of a write; waiting on it yields the steps that finish it.
pub struct BufferWriteFuture {
    steps: Vec<Step>,
}

impl View for BufferWriteFuture {
    type V = Seq<Step>;

    closed spec fn view(&self) -> Seq<Step> {
        self.steps@
    }
}

/// Tells whether `steps` holds a fence.
fn has_fence(steps: &Vec<Step>) -> (r: bool)
    ensures
        r == steps@.contains(Step::Fence),
{
    let mut i: usize = 0;
    while i < steps.len()
        invariant
            i <= steps@.len(),
            forall|j: int| 0 <= j < i ==> steps@[j] != Step::Fence,
        decreases steps@.len() - i,
    {
        if steps[i] == Step::Fence {
            return true;
        }
        i = i + 1;
    }
    false
}

impl BufferWriteFuture {
    /// A handle over one submission: waiting on it blocks until the queue has run it.
    pub(crate) fn pending() -> (r: BufferWriteFuture)
        ensures
            r@ == seq![Step::Fence],
    {
        let mut steps: Vec<Step> = Vec::new();
        steps.push(Step::Fence);
        assert(steps@ =~= seq![Step::Fence]);
        BufferWriteFuture { steps }
    }

    /// Consumes the handle and gives the steps that complete the write.
    pub fn wait(self) -> (r: Vec<Step>)
        ensures
            r@ == self@,
    {
        self.steps
    }

    /// Whether waiting on the handle returns at once, with nothing outstanding.
    pub fn is_trivial(&self) -> (r: bool)
        ensures
            r == non_blocking(self@),
    {
        !has_fence(&self.steps)
    }
}

/// Outstanding device work of a read; waiting on it yields the steps that
/// finish it and then copy the data out.
pub struct BufferReadFuture {
    steps: Vec<Step>,
}

impl View for BufferReadFuture {
    type V = Seq<Step>;

    closed spec fn view(&self) -> Seq<Step> {
        self.steps@
    }
}

impl BufferReadFuture {
    /// Consumes the handle and gives the steps that complete the read.
    pub fn wait(self) -> (r: Vec<Step>)
        ensures
            r@ == self@,
    {
        self.steps
    }

    /// Whether waiting on the handle returns at once, with nothing outstanding.
    pub fn is_trivial(&self) -> (r: bool)
        ensures
            r == non_blocking(self@),
    {
        !has_fence(&self.steps)
    }
}

/// A buffer of a fixed number of elements and a fixed kind.
#[derive(Debug, Clone, Copy, PartialEq, Eq, Structural)]
pub struct Buffer {
    pub kind: BufferKind,
    pub capacity: usize,
}

/// Where the device-local buffer of a staged buffer lives and how it is used.
pub open spec fn staged_memory() -> (MemoryFilter, Usage) {
    (device_only(), usage(true, true, false, true, false))
}

/// Where a staging or scratch region lives and how it is used.
pub open spec fn host_side_memory() -> (MemoryFilter, Usage) {
    (host_random(), usage(true, true, false, false, false))
}

fn write_plan(kind: BufferKind, len: usize) -> (r: Vec<Step>)
    ensures
        r@ == write_steps(kind, len),
{
    if len == 0 {
        return Vec::new();
    }
    let mut v: Vec<Step> = Vec::new();
    match kind {
        BufferKind::Dynamic => {
            v.push(Step::HostWrite { place: Place::Device, len });
        },
        BufferKind::Static => {
            v.push(Step::AllocScratch { len });
            v.push(Step::HostWrite { place: Place::Scratch, len });
            v.push(Step::Copy(CopyCmd { from: Place::Scratch, to: Place::Device, len }));
            v.push(Step::Submit);
            v.push(Step::Fence);
        },
        BufferKind::Staged => {
            v.push(Step::HostWrite { place: Place::Staging, len });
            v.push(Step::Copy(CopyCmd { from: Place::Staging, to: Place::Device, len }));
            v.push(Step::Submit);
        },
    }
    assert(v@ =~= write_steps(kind, len));
    v
}

fn write_wait_plan(kind: BufferKind, len: usize) -> (r: Vec<Step>)
    ensures
        r@ == write_wait_steps(kind, len),
{
    let mut v: Vec<Step> = Vec::new();
    if len != 0 && kind == BufferKind::Staged {
        v.push(Step::Fence);
    }
    assert(v@ =~= write_wait_steps(kind, len));
    v
}

fn read_plan(kind: BufferKind, capacity: usize) -> (r: Vec<Step>)
    ensures
        r@ == read_steps(kind, capacity),
{
    let mut v: Vec<Step> = Vec::new();
    match kind {
        BufferKind::Dynamic => {
            v.push(Step::HostRead { place: Place::Device });
        },
        BufferKind::Static => {
            v.push(Step::AllocScratch { len: capacity });
            v.push(Step::Copy(CopyCmd { from: Place::Device, to: Place::Scratch, len: capacity }));
            v.push(Step::Submit);
            v.push(Step::Fence);
            v.push(Step::HostRead { place: Place::Scratch });
        },
        BufferKind::Staged => {
            v.push(Step::Copy(CopyCmd { from: Place::Device, to: Place::Staging, len: capacity }));
            v.push(Step::Submit);
        },
    }
    assert(v@ =~= read_steps(kind, capacity));
    v
}

fn read_wait_plan(kind: BufferKind) -> (r: Vec<Step>)
    ensures
        r@ == read_wait_steps(kind),
{
    let mut v: Vec<Step> = Vec::new();
    if kind == BufferKind::Staged {
        v.push(Step::Fence);
        v.push(Step::HostRead { place: Place::Staging });
    }
    assert(v@ =~= read_wait_steps(kind));
    v
}

/// Appends `tail` to `head`.
fn concat(head: Vec<Step>, tail: Vec<Step>) -> (r: Vec<Step>)
    ensures
        r@ == head@ + tail@,
{
    let mut r = head;
    let mut i: usize = 0;
    while i < tail.len()
        invariant
            i <= tail@.len(),
            r@ == head@ + tail@.subrange(0, i as int),
        decreases tail@.len() - i,
    {
        r.push(tail[i]);
        i = i + 1;
        assert(tail@.subrange(0, i as int) =~= tail@.subrange(0, i - 1) + seq![tail@[i - 1]]);
    }
    assert(tail@.subrange(0, tail@.len() as int) =~= tail@);
    r
}

impl Buffer {
    /// A buffer of `capacity` elements of the given kind.
    pub fn new(kind: BufferKind, capacity: usize) -> (r: Buffer)
        ensures
            r.kind == kind,
            r.capacity == capacity,
    {
        Buffer { kind, capacity }
    }

    /// The kind of buffer that an intent asks for: `Static` is device-local
    /// and reached through copies, `Dynamic` is mapped by the host.
    pub fn kind_of(intent: Intent) -> (r: BufferKind)
        ensures
            intent == Intent::Static ==> r == BufferKind::Static,
            intent == Intent::Dynamic ==> r == BufferKind::Dynamic,
    {
        match intent {
            Intent::Static => BufferKind::Static,
            Intent::Dynamic => BufferKind::Dynamic,
        }
    }

    /// Where the buffer's own allocation lives and how the device uses it.
    pub fn memory(&self) -> (r: (MemoryFilter, Usage))
        ensures
            self.kind == BufferKind::Dynamic ==> r == (
                Intent::Dynamic.spec_memory_filter(),
                Intent::Dynamic.spec_buffer_usage(),
            ),
            self.kind == BufferKind::Static ==> r == (
                Intent::Static.spec_memory_filter(),
                Intent::Static.spec_buffer_usage(),
            ),
            self.kind == BufferKind::Staged ==> r == staged_memory(),
    {
        match self.kind {
            BufferKind::Dynamic => (Intent::Dynamic.memory_filter(), Intent::Dynamic.buffer_usage()),
            BufferKind::Static => (Intent::Static.memory_filter(), Intent::Static.buffer_usage()),
            BufferKind::Staged => (
                MemoryFilter {
                    prefer_device: true,
                    prefer_host: false,
                    host_sequential_write: false,
                    host_random_access: false,
                },
                Usage {
                    transfer_src: true,
                    transfer_dst: true,
                    uniform_buffer: false,
                    storage_buffer: true,
                    vertex_buffer: false,
                },
            ),
        }
    }

    /// Where a staging or scratch region of the buffer lives and how it is
    /// used; `None` for a buffer that never needs one.
    pub fn staging_memory(&self) -> (r: Option<(MemoryFilter, Usage)>)
        ensures
            self.kind == BufferKind::Dynamic ==> r is None,
            self.kind != BufferKind::Dynamic ==> r == Some(host_side_memory()),
    {
        match self.kind {
            BufferKind::Dynamic => None,
            _ => Some(
                (
                    MemoryFilter {
                        prefer_device: false,
                        prefer_host: true,
                        host_sequential_write: false,
                        host_random_access: true,
                    },
                    Usage {
                        transfer_src: true,
                        transfer_dst: true,
                        uniform_buffer: false,
                        storage_buffer: false,
                        vertex_buffer: false,
                    },
                ),
            ),
        }
    }

    /// Plans a write of `len` elements at the front of the buffer: the steps
    /// to perform now and a handle for the rest. Fails, with no step, when
    /// `len` exceeds the capacity.
    pub fn update_async(&self, len: usize) -> (r: Result<(Vec<Step>, BufferWriteFuture), TransferError>)
        ensures
            len <= self.capacity ==> r is Ok && r->Ok_0.0@ == write_steps(self.kind, len)
                && r->Ok_0.1@ == write_wait_steps(self.kind, len),
            len > self.capacity ==> r is Err && r->Err_0 == (TransferError::CapacityExceeded {
                len,
                capacity: self.capacity,
            }),
    {
        if len > self.capacity {
            return Err(TransferError::CapacityExceeded { len, capacity: self.capacity });
        }
        let now = write_plan(self.kind, len);
        let later = write_wait_plan(self.kind, len);
        Ok((now, BufferWriteFuture { steps: later }))
    }

    /// Plans a write of `len` elements that returns only once it is complete.
    pub fn update(&self, len: usize) -> (r: Result<Vec<Step>, TransferError>)
        ensures
            len <= self.capacity ==> r is Ok && r->Ok_0@ == write_steps(self.kind, len) + write_wait_steps(
                self.kind,
                len,
            ),
            len > self.capacity ==> r is Err && r->Err_0 == (TransferError::CapacityExceeded {
                len,
                capacity: self.capacity,
            }),
    {
        match self.update_async(len) {
            Ok((now, fut)) => Ok(concat(now, fut.wait())),
            Err(e) => Err(e),
        }
    }

    /// Plans a read of the whole buffer: the steps to perform now and a
    /// handle for the rest. A host-mapped or device-local buffer is copied
    /// out by the first part, so its handle is trivially complete; a staged
    /// buffer is copied out when its handle is waited on.
    pub fn read_async(&self) -> (r: (Vec<Step>, BufferReadFuture))
        ensures
            r.0@ == read_steps(self.kind, self.capacity),
            r.1@ == read_wait_steps(self.kind),
    {
        (read_plan(self.kind, self.capacity), BufferReadFuture { steps: read_wait_plan(self.kind) })
    }

    /// Plans a read of the whole buffer that returns the data at once.
    pub fn read(&self) -> (r: Vec<Step>)
        ensures
            r@ == read_steps(self.kind, self.capacity) + read_wait_steps(self.kind),
    {
        let (now, fut) = self.read_async();
        concat(now, fut.wait())
    }

    /// A buffer sized to `len` elements of initial data, with the plan of
    /// the first write that fills it.
    pub fn from_data_async(kind: BufferKind, len: usize) -> (r: (Buffer, Vec<Step>, BufferWriteFuture))
        ensures
            r.0 == (Buffer { kind, capacity: len }),
            r.1@ == write_steps(kind, len),
            r.2@ == write_wait_steps(kind, len),
    {
        let b = Buffer { kind, capacity: len };
        (b, write_plan(kind, len), BufferWriteFuture { steps: write_wait_plan(kind, len) })
    }

    /// A buffer sized to `len` elements of initial data, with the plan of a
    /// first write that returns once complete.
    pub fn from_data(kind: BufferKind, len: usize) -> (r: (Buffer, Vec<Step>))
        ensures
            r.0 == (Buffer { kind, capacity: len }),
            r.1@ == write_steps(kind, len) + write_wait_steps(kind, len),
    {
        let (b, now, fut) = Buffer::from_data_async(kind, len);
        (b, concat(now, fut.wait()))
    }
}

} // verus!
