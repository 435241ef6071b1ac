use vstd::prelude::*;

use crate::buffer::{
    non_blocking, read_steps, read_wait_steps, write_steps, write_wait_steps, Buffer, BufferKind,
};
use crate::plan::{apply_copies, apply_copy, quiet, run, runs_ok, step, CopyCmd, Memory, Step};
use crate::region::prefix_update;

verus! {

/// The regions of `m` have the sizes that buffer `b` allocates.
pub open spec fn fits<T>(b: Buffer, m: Memory<T>) -> bool {
    &&& m.device.len() == b.capacity
    &&& b.kind == BufferKind::Staged ==> m.staging.len() == b.capacity
}

/// The memory after a write of `d` to `b` and a wait on its handle.
pub open spec fn after_write<T>(b: Buffer, m: Memory<T>, d: Seq<T>) -> Memory<T> {
    run(
        run(m, write_steps(b.kind, d.len() as usize), d),
        write_wait_steps(b.kind, d.len() as usize),
        d,
    )
}

/// The memory after a read of `b` and a wait on its handle; `out` holds what was read.
pub open spec fn after_read<T>(b: Buffer, m: Memory<T>) -> Memory<T> {
    run(run(m, read_steps(b.kind, b.capacity), Seq::empty()), read_wait_steps(b.kind), Seq::empty())
}

/// A write of `d` that fits replaces the first `d.len()` elements of the
/// buffer and leaves the others as they were, whatever the staging region
/// held before; the device work it started is complete once its handle has
/// been waited on.
pub proof fn lemma_write<T>(b: Buffer, m: Memory<T>, d: Seq<T>)
    requires
        fits(b, m),
        quiet(m),
        d.len() <= b.capacity,
    ensures
        after_write(b, m, d).device == prefix_update(m.device, d),
        quiet(after_write(b, m, d)),
        fits(b, after_write(b, m, d)),
        runs_ok(m, write_steps(b.kind, d.len() as usize), d),
        runs_ok(run(m, write_steps(b.kind, d.len() as usize), d), write_wait_steps(b.kind, d.len() as usize), d),
{
    reveal_with_fuel(run, 6);
    reveal_with_fuel(runs_ok, 6);
    reveal_with_fuel(crate::plan::apply_copies, 2);
    reveal_with_fuel(crate::plan::copies_ok, 2);
    let n = d.len() as usize;
    if n == 0 {
        assert(prefix_update(m.device, d) =~= m.device);
    } else {
        assert(d.subrange(0, n as int) =~= d);
        match b.kind {
            BufferKind::Dynamic => {},
            BufferKind::Static => {},
            BufferKind::Staged => {},
        }
    }
}

/// A read returns the whole contents of the buffer and changes none of them.
pub proof fn lemma_read<T>(b: Buffer, m: Memory<T>)
    requires
        fits(b, m),
        quiet(m),
    ensures
        after_read(b, m).out == m.device,
        after_read(b, m).device == m.device,
        quiet(after_read(b, m)),
        fits(b, after_read(b, m)),
        runs_ok(m, read_steps(b.kind, b.capacity), Seq::empty()),
        runs_ok(run(m, read_steps(b.kind, b.capacity), Seq::empty()), read_wait_steps(b.kind), Seq::empty()),
{
    reveal_with_fuel(run, 6);
    reveal_with_fuel(runs_ok, 6);
    reveal_with_fuel(crate::plan::apply_copies, 2);
    reveal_with_fuel(crate::plan::copies_ok, 2);
    match b.kind {
        BufferKind::Dynamic => {},
        BufferKind::Static => {},
        BufferKind::Staged => {},
    }
}

/// Performing two lists of steps one after the other is performing their concatenation.
pub proof fn lemma_run_concat<T>(m: Memory<T>, a: Seq<Step>, b: Seq<Step>, data: Seq<T>)
    ensures
        run(m, a + b, data) == run(run(m, a, data), b, data),
    decreases a.len(),
{
    if a.len() == 0 {
        assert(a + b =~= b);
    } else {
        assert((a + b).drop_first() =~= a.drop_first() + b);
        lemma_run_concat(step(m, a[0], data), a.drop_first(), b, data);
    }
}

/// Writing `d` and then reading gives `d` followed by the elements that
/// stood at positions `d.len()` and beyond before the write.
pub proof fn lemma_prefix_update<T>(b: Buffer, m: Memory<T>, d: Seq<T>)
    requires
        fits(b, m),
        quiet(m),
        d.len() <= b.capacity,
    ensures
        after_read(b, after_write(b, m, d)).out == prefix_update(m.device, d),
        forall|i: int|
            d.len() <= i < b.capacity ==> #[trigger] after_read(b, after_write(b, m, d)).out[i]
                == m.device[i],
        forall|i: int| 0 <= i < d.len() ==> #[trigger] after_read(b, after_write(b, m, d)).out[i] == d[i],
{
    lemma_write(b, m, d);
    lemma_read(b, after_write(b, m, d));
}

/// Writing data that fills the buffer and then reading gives that data back.
pub proof fn lemma_round_trip<T>(b: Buffer, m: Memory<T>, d: Seq<T>)
    requires
        fits(b, m),
        quiet(m),
        d.len() == b.capacity,
    ensures
        after_read(b, after_write(b, m, d)).out == d,
{
    lemma_prefix_update(b, m, d);
    assert(prefix_update(m.device, d) =~= d);
}

/// Each full write followed by a read gives exactly the data written,
/// whatever earlier writes and reads left behind.
pub proof fn lemma_repeated_update<T>(b: Buffer, m: Memory<T>, d1: Seq<T>, d2: Seq<T>)
    requires
        fits(b, m),
        quiet(m),
        d1.len() == b.capacity,
        d2.len() == b.capacity,
    ensures
        after_read(b, after_write(b, m, d1)).out == d1,
        after_read(b, after_write(b, after_read(b, after_write(b, m, d1)), d2)).out == d2,
{
    lemma_round_trip(b, m, d1);
    lemma_write(b, m, d1);
    lemma_read(b, after_write(b, m, d1));
    lemma_round_trip(b, after_read(b, after_write(b, m, d1)), d2);
}

/// The queue runs submissions in order: a read started after a staged write
/// whose handle was never waited on still sees the written data.
pub proof fn lemma_read_after_unwaited_write<T>(m: Memory<T>, cap: usize, d: Seq<T>)
    requires
        m.device.len() == cap,
        m.staging.len() == cap,
        quiet(m),
        d.len() <= cap,
    ensures
        ({
            let b = Buffer { kind: BufferKind::Staged, capacity: cap };
            after_read(b, run(m, write_steps(b.kind, d.len() as usize), d)).out == prefix_update(
                m.device,
                d,
            )
        }),
{
    reveal_with_fuel(run, 4);
    reveal_with_fuel(crate::plan::apply_copies, 3);
    let n = d.len() as usize;
    if n == 0 {
        lemma_read(Buffer { kind: BufferKind::Staged, capacity: cap }, m);
        assert(prefix_update(m.device, d) =~= m.device);
    } else {
        assert(d.subrange(0, n as int) =~= d);
    }
}

/// The blocking plans do what the two-phase plans do with a wait in between.
pub proof fn lemma_blocking_plans<T>(b: Buffer, m: Memory<T>, d: Seq<T>)
    ensures
        run(
            m,
            write_steps(b.kind, d.len() as usize) + write_wait_steps(b.kind, d.len() as usize),
            d,
        ) == after_write(b, m, d),
        run(m, read_steps(b.kind, b.capacity) + read_wait_steps(b.kind), Seq::empty()) == after_read(
            b,
            m,
        ),
{
    lemma_run_concat(m, write_steps(b.kind, d.len() as usize), write_wait_steps(b.kind, d.len() as usize), d);
    lemma_run_concat(m, read_steps(b.kind, b.capacity), read_wait_steps(b.kind), Seq::empty());
}

/// A read handle is trivially complete unless the buffer is staged: a
/// host-mapped or device-local buffer is copied out when the read is
/// started, a host-mapped one with no submission at all, and waiting on the
/// handle then performs nothing. What a read yields, waited on or blocking,
/// is the buffer's contents.
pub proof fn lemma_trivial_read<T>(b: Buffer, m: Memory<T>)
    requires
        fits(b, m),
        quiet(m),
    ensures
        non_blocking(read_wait_steps(b.kind)) <==> b.kind != BufferKind::Staged,
        b.kind != BufferKind::Staged ==> read_wait_steps(b.kind).len() == 0,
        b.kind == BufferKind::Dynamic ==> !read_steps(b.kind, b.capacity).contains(Step::Submit),
        after_read(b, m).out == run(
            m,
            read_steps(b.kind, b.capacity) + read_wait_steps(b.kind),
            Seq::empty(),
        ).out,
        after_read(b, m).out == m.device,
{
    lemma_read(b, m);
    lemma_run_concat(m, read_steps(b.kind, b.capacity), read_wait_steps(b.kind), Seq::empty());
    match b.kind {
        BufferKind::Staged => {
            assert(read_wait_steps(b.kind)[0] == Step::Fence);
        },
        BufferKind::Dynamic => {
            assert(read_wait_steps(b.kind) =~= Seq::<Step>::empty());
            assert(read_steps(b.kind, b.capacity)[0] != Step::Submit);
            assert(read_steps(b.kind, b.capacity).len() == 1);
        },
        BufferKind::Static => {
            assert(read_wait_steps(b.kind) =~= Seq::<Step>::empty());
        },
    }
}

/// Carrying out copy commands leaves what the last host read copied out as it was.
pub proof fn lemma_copies_keep_out<T>(m: Memory<T>, cs: Seq<CopyCmd>)
    ensures
        apply_copies(m, cs).out == m.out,
    decreases cs.len(),
{
    if cs.len() > 0 {
        lemma_copies_keep_out(apply_copy(m, cs[0]), cs.drop_first());
    }
}

/// Steps with no host read leave what the last host read copied out as it was.
pub proof fn lemma_out_kept<T>(m: Memory<T>, steps: Seq<Step>, data: Seq<T>)
    requires
        forall|i: int| 0 <= i < steps.len() ==> !(#[trigger] steps[i] is HostRead),
    ensures
        run(m, steps, data).out == m.out,
    decreases steps.len(),
{
    if steps.len() > 0 {
        lemma_copies_keep_out(m, m.in_flight);
        let rest = steps.drop_first();
        assert forall|i: int| 0 <= i < rest.len() implies !(#[trigger] rest[i] is HostRead) by {
            assert(rest[i] == steps[i + 1]);
        }
        lemma_out_kept(step(m, steps[0], data), rest, data);
    }
}

/// A read of a host-mapped or device-local buffer yields the contents the
/// buffer held when the read was started, even when the buffer is written
/// between starting the read and waiting on its handle.
pub proof fn lemma_read_snapshot<T>(b: Buffer, m: Memory<T>, d: Seq<T>)
    requires
        fits(b, m),
        quiet(m),
        b.kind != BufferKind::Staged,
    ensures
        ({
            let started = run(m, read_steps(b.kind, b.capacity), Seq::empty());
            let written = run(
                run(started, write_steps(b.kind, d.len() as usize), d),
                write_wait_steps(b.kind, d.len() as usize),
                d,
            );
            run(written, read_wait_steps(b.kind), Seq::empty()).out == m.device
        }),
{
    lemma_read(b, m);
    let n = d.len() as usize;
    let started = run(m, read_steps(b.kind, b.capacity), Seq::empty());
    assert(read_wait_steps(b.kind) =~= Seq::<Step>::empty());
    assert(after_read(b, m) == started);
    assert forall|i: int| 0 <= i < write_steps(b.kind, n).len() implies !(#[trigger] write_steps(
        b.kind,
        n,
    )[i] is HostRead) by {}
    assert forall|i: int| 0 <= i < write_wait_steps(b.kind, n).len() implies !(
    #[trigger] write_wait_steps(b.kind, n)[i] is HostRead) by {}
    lemma_out_kept(started, write_steps(b.kind, n), d);
    lemma_out_kept(run(started, write_steps(b.kind, n), d), write_wait_steps(b.kind, n), d);
}

/// A write handle is trivially complete unless a staged buffer had data to copy.
pub proof fn lemma_trivial_write(b: Buffer, len: usize)
    ensures
        non_blocking(write_wait_steps(b.kind, len)) <==> !(b.kind == BufferKind::Staged && len != 0),
{
    if b.kind == BufferKind::Staged && len != 0 {
        assert(write_wait_steps(b.kind, len)[0] == Step::Fence);
    } else {
        assert(write_wait_steps(b.kind, len) =~= Seq::<Step>::empty());
    }
}

} // verus!
