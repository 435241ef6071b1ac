use vstd::prelude::*;

use crate::region::prefix_update;

verus! {

/// A memory region that a transfer step touches.
#[derive(Debug, Clone, Copy, PartialEq, Eq, Structural)]
pub enum Place {
    /// The buffer's own allocation, the authoritative copy of its contents.
    Device,
    /// The long-lived host-visible region of a staged buffer.
    Staging,
    /// A host-visible region that lives for one transfer only.
    Scratch,
}

/// A copy command recorded for the device: the first `len` elements of
/// `from` go to the front of `to`.
#[derive(Debug, Clone, Copy, PartialEq, Eq, Structural)]
pub struct CopyCmd {
    pub from: Place,
    pub to: Place,
    pub len: usize,
}

/// One step of a transfer, in the order an executor performs it.
#[derive(Debug, Clone, Copy, PartialEq, Eq, Structural)]
pub enum Step {
    /// Allocate a fresh scratch region of `len` elements.
    AllocScratch { len: usize },
    /// Map `place` on the host and copy the first `len` elements of the host data into it.
    HostWrite { place: Place, len: usize },
    /// Record a device copy command.
    Copy(CopyCmd),
    /// Submit the recorded commands to the queue.
    Submit,
    /// Block until everything submitted has completed.
    Fence,
    /// Map `place` on the host and copy all of it out.
    HostRead { place: Place },
}

/// What the regions of one buffer hold, with the device work not yet done.
pub struct Memory<T> {
    pub device: Seq<T>,
    pub staging: Seq<T>,
    pub scratch: Seq<T>,
    /// Commands recorded and not yet submitted.
    pub recorded: Seq<CopyCmd>,
    /// Commands submitted and not yet known to be complete.
    pub in_flight: Seq<CopyCmd>,
    /// What the last host read copied out.
    pub out: Seq<T>,
    /// The element that a fresh scratch region is filled with.
    pub blank: T,
}

/// No device work is recorded or outstanding.
pub open spec fn quiet<T>(m: Memory<T>) -> bool {
    m.recorded.len() == 0 && m.in_flight.len() == 0
}

pub open spec fn place_of<T>(m: Memory<T>, p: Place) -> Seq<T> {
    match p {
        Place::Device => m.device,
        Place::Staging => m.staging,
        Place::Scratch => m.scratch,
    }
}

pub open spec fn with_place<T>(m: Memory<T>, p: Place, s: Seq<T>) -> Memory<T> {
    match p {
        Place::Device => Memory { device: s, ..m },
        Place::Staging => Memory { staging: s, ..m },
        Place::Scratch => Memory { scratch: s, ..m },
    }
}

/// The effect of one copy command once the device has carried it out.
pub open spec fn apply_copy<T>(m: Memory<T>, c: CopyCmd) -> Memory<T> {
    with_place(
        m,
        c.to,
        prefix_update(place_of(m, c.to), place_of(m, c.from).subrange(0, c.len as int)),
    )
}

/// The effect of a list of copy commands carried out in order.
pub open spec fn apply_copies<T>(m: Memory<T>, cs: Seq<CopyCmd>) -> Memory<T>
    decreases cs.len(),
{
    if cs.len() == 0 {
        m
    } else {
        apply_copies(apply_copy(m, cs[0]), cs.drop_first())
    }
}

/// The effect of one step, where `data` is the host data of the transfer.
pub open spec fn step<T>(m: Memory<T>, s: Step, data: Seq<T>) -> Memory<T> {
    match s {
        Step::AllocScratch { len } => Memory { scratch: Seq::new(len as nat, |i: int| m.blank), ..m },
        Step::HostWrite { place, len } => with_place(
            m,
            place,
            prefix_update(place_of(m, place), data.subrange(0, len as int)),
        ),
        Step::Copy(c) => Memory { recorded: m.recorded.push(c), ..m },
        Step::Submit => Memory { recorded: Seq::empty(), in_flight: m.in_flight + m.recorded, ..m },
        Step::Fence => Memory { in_flight: Seq::empty(), ..apply_copies(m, m.in_flight) },
        Step::HostRead { place } => Memory { out: place_of(m, place), ..m },
    }
}

/// The effect of a list of steps performed in order.
pub open spec fn run<T>(m: Memory<T>, steps: Seq<Step>, data: Seq<T>) -> Memory<T>
    decreases steps.len(),
{
    if steps.len() == 0 {
        m
    } else {
        run(step(m, steps[0], data), steps.drop_first(), data)
    }
}

/// A copy command fits the regions it reads and writes.
pub open spec fn copy_ok<T>(m: Memory<T>, c: CopyCmd) -> bool {
    c.len <= place_of(m, c.from).len() && c.len <= place_of(m, c.to).len()
}

/// Every command of `cs` fits when the commands are carried out in order.
pub open spec fn copies_ok<T>(m: Memory<T>, cs: Seq<CopyCmd>) -> bool
    decreases cs.len(),
{
    cs.len() == 0 || (copy_ok(m, cs[0]) && copies_ok(apply_copy(m, cs[0]), cs.drop_first()))
}

/// Some command of `cs` reads or writes place `p`.
pub open spec fn touches(cs: Seq<CopyCmd>, p: Place) -> bool {
    exists|i: int| 0 <= i < cs.len() && ((#[trigger] cs[i]).from == p || cs[i].to == p)
}

/// Some command of `cs` writes place `p`.
pub open spec fn writes_to(cs: Seq<CopyCmd>, p: Place) -> bool {
    exists|i: int| 0 <= i < cs.len() && (#[trigger] cs[i]).to == p
}

/// A step stays within the regions and the host data it touches, and the
/// host never maps a region while device work on it is pending: it writes
/// no region that a pending copy reads or writes, and reads none that a
/// pending copy writes.
pub open spec fn step_ok<T>(m: Memory<T>, s: Step, data: Seq<T>) -> bool {
    match s {
        Step::HostWrite { place, len } => len <= data.len() && len <= place_of(m, place).len()
            && !touches(m.recorded, place) && !touches(m.in_flight, place),
        Step::HostRead { place } => !writes_to(m.recorded, place) && !writes_to(m.in_flight, place),
        Step::Fence => copies_ok(m, m.in_flight),
        _ => true,
    }
}

/// Every step of `steps` stays in bounds when they are performed in order.
pub open spec fn runs_ok<T>(m: Memory<T>, steps: Seq<Step>, data: Seq<T>) -> bool
    decreases steps.len(),
{
    steps.len() == 0 || (step_ok(m, steps[0], data) && runs_ok(
        step(m, steps[0], data),
        steps.drop_first(),
        data,
    ))
}

} // verus!
