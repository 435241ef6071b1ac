use vstd::prelude::*;

use crate::buffer::{Buffer, BufferKind};
use crate::laws::fits;
use crate::plan::{
    apply_copies, apply_copy, copies_ok, copy_ok, place_of, quiet, run, runs_ok, step, step_ok,
    touches, writes_to,
    CopyCmd, Memory, Place, Step,
};
use crate::region::write_prefix;

verus! {

/// The first `n` elements of `v`.
fn prefix_of<T: Copy>(v: &Vec<T>, n: usize) -> (r: Vec<T>)
    requires
        n <= v@.len(),
    ensures
        r@ == v@.subrange(0, n as int),
{
    let mut r: Vec<T> = Vec::with_capacity(n);
    let mut i: usize = 0;
    while i < n
        invariant
            n <= v@.len(),
            i <= n,
            r@ == v@.subrange(0, i as int),
        decreases n - i,
    {
        r.push(v[i]);
        i = i + 1;
    }
    r
}

/// `n` copies of `x`.
fn filled<T: Copy>(x: T, n: usize) -> (r: Vec<T>)
    ensures
        r@ == Seq::new(n as nat, |i: int| x),
{
    let mut r: Vec<T> = Vec::with_capacity(n);
    let mut i: usize = 0;
    while i < n
        invariant
            i <= n,
            r@ == Seq::new(i as nat, |j: int| x),
        decreases n - i,
    {
        r.push(x);
        i = i + 1;
        assert(r@ =~= Seq::new(i as nat, |j: int| x));
    }
    r
}

/// The regions that buffer `b` allocates, every element set to `blank`.
pub open spec fn initial_memory<T>(b: Buffer, blank: T) -> Memory<T> {
    Memory {
        device: Seq::new(b.capacity as nat, |i: int| blank),
        staging: if b.kind == BufferKind::Staged {
            Seq::new(b.capacity as nat, |i: int| blank)
        } else {
            Seq::empty()
        },
        scratch: Seq::empty(),
        recorded: Seq::empty(),
        in_flight: Seq::empty(),
        out: Seq::empty(),
        blank,
    }
}

/// The regions of one buffer kept in host memory, performing transfer plans
/// exactly as a device would: copies take effect once fenced.
pub struct HostMemory<T> {
    device: Vec<T>,
    staging: Vec<T>,
    scratch: Vec<T>,
    recorded: Vec<CopyCmd>,
    in_flight: Vec<CopyCmd>,
    out: Vec<T>,
    blank: T,
}

impl<T: Copy> View for HostMemory<T> {
    type V = Memory<T>;

    closed spec fn view(&self) -> Memory<T> {
        Memory {
            device: self.device@,
            staging: self.staging@,
            scratch: self.scratch@,
            recorded: self.recorded@,
            in_flight: self.in_flight@,
            out: self.out@,
            blank: self.blank,
        }
    }
}

impl<T: Copy> HostMemory<T> {
    /// The regions that buffer `b` allocates, every element set to `blank`,
    /// with no device work outstanding.
    pub fn new(b: &Buffer, blank: T) -> (r: HostMemory<T>)
        ensures
            r@ == initial_memory(*b, blank),
            fits(*b, r@),
            quiet(r@),
    {
        let staging = if b.kind == BufferKind::Staged {
            filled(blank, b.capacity)
        } else {
            Vec::new()
        };
        let r = HostMemory {
            device: filled(blank, b.capacity),
            staging,
            scratch: Vec::new(),
            recorded: Vec::new(),
            in_flight: Vec::new(),
            out: Vec::new(),
            blank,
        };
        assert(r@ =~= initial_memory(*b, blank)) by {
            assert(r.scratch@ =~= Seq::<T>::empty());
            assert(r.recorded@ =~= Seq::<CopyCmd>::empty());
            assert(r.in_flight@ =~= Seq::<CopyCmd>::empty());
            assert(r.out@ =~= Seq::<T>::empty());
            assert(r.staging@ =~= initial_memory(*b, blank).staging);
        }
        r
    }

    /// What the last host read copied out.
    pub fn output(&self) -> (r: Vec<T>)
        ensures
            r@ == self@.out,
    {
        prefix_of(&self.out, self.out.len())
    }

    fn place_len(&self, p: Place) -> (r: usize)
        ensures
            r == place_of(self@, p).len(),
    {
        match p {
            Place::Device => self.device.len(),
            Place::Staging => self.staging.len(),
            Place::Scratch => self.scratch.len(),
        }
    }

    fn place_prefix(&self, p: Place, n: usize) -> (r: Vec<T>)
        requires
            n <= place_of(self@, p).len(),
        ensures
            r@ == place_of(self@, p).subrange(0, n as int),
    {
        match p {
            Place::Device => prefix_of(&self.device, n),
            Place::Staging => prefix_of(&self.staging, n),
            Place::Scratch => prefix_of(&self.scratch, n),
        }
    }

    /// Writes `d` at the front of place `p`.
    fn place_write(&mut self, p: Place, d: &[T])
        requires
            d@.len() <= place_of(old(self)@, p).len(),
        ensures
            final(self)@ == crate::plan::with_place(
                old(self)@,
                p,
                crate::region::prefix_update(place_of(old(self)@, p), d@),
            ),
    {
        let _ = match p {
            Place::Device => write_prefix(self.device.as_mut_slice(), d),
            Place::Staging => write_prefix(self.staging.as_mut_slice(), d),
            Place::Scratch => write_prefix(self.scratch.as_mut_slice(), d),
        };
    }

    fn copy(&mut self, c: CopyCmd) -> (r: bool)
        ensures
            r == copy_ok(old(self)@, c),
            r ==> final(self)@ == apply_copy(old(self)@, c),
            !r ==> final(self)@ == old(self)@,
    {
        if c.len > self.place_len(c.from) || c.len > self.place_len(c.to) {
            return false;
        }
        let src = self.place_prefix(c.from, c.len);
        self.place_write(c.to, src.as_slice());
        true
    }

    /// Performs one step with `data` as the host data of the transfer. Fails
    /// exactly when the step would leave the bounds of a region or of `data`.
    pub fn perform(&mut self, s: Step, data: &[T]) -> (r: bool)
        ensures
            r == step_ok(old(self)@, s, data@),
            r ==> final(self)@ == step(old(self)@, s, data@),
    {
        match s {
            Step::AllocScratch { len } => {
                self.scratch = filled(self.blank, len);
                assert(self@ == step(old(self)@, s, data@)) by {
                    assert(self.scratch@ =~= Seq::new(len as nat, |i: int| old(self)@.blank));
                }
                true
            },
            Step::HostWrite { place, len } => {
                if len > data.len() || len > self.place_len(place) || any_touches(
                    &self.recorded,
                    place,
                ) || any_touches(&self.in_flight, place) {
                    return false;
                }
                let d = prefix_of_slice(data, len);
                self.place_write(place, d.as_slice());
                assert(self@ == step(old(self)@, s, data@));
                true
            },
            Step::Copy(c) => {
                self.recorded.push(c);
                true
            },
            Step::Submit => {
                let mut rec: Vec<CopyCmd> = Vec::new();
                std::mem::swap(&mut rec, &mut self.recorded);
                let mut i: usize = 0;
                let ghost before = self.in_flight@;
                assert(self.recorded@ =~= Seq::<CopyCmd>::empty());
                assert(rec@ == old(self)@.recorded);
                while i < rec.len()
                    invariant
                        i <= rec@.len(),
                        rec@ == old(self)@.recorded,
                        self@ == (Memory {
                            in_flight: before + rec@.subrange(0, i as int),
                            recorded: Seq::empty(),
                            ..old(self)@
                        }),
                    decreases rec@.len() - i,
                {
                    self.in_flight.push(rec[i]);
                    i = i + 1;
                    assert(rec@.subrange(0, i as int) =~= rec@.subrange(0, i - 1) + seq![rec@[i - 1]]);
                    assert(self.in_flight@ =~= before + rec@.subrange(0, i as int));
                }
                assert(rec@.subrange(0, rec@.len() as int) =~= rec@);
                assert(self.recorded@ =~= Seq::<CopyCmd>::empty());
                assert(self@ == step(old(self)@, s, data@));
                true
            },
            Step::Fence => {
                let mut cmds: Vec<CopyCmd> = Vec::new();
                std::mem::swap(&mut cmds, &mut self.in_flight);
                let ghost start = old(self)@;
                assert(cmds@.subrange(0, cmds@.len() as int) =~= cmds@);
                assert(Memory { in_flight: start.in_flight, ..self@ } == start);
                let mut i: usize = 0;
                while i < cmds.len()
                    invariant
                        i <= cmds@.len(),
                        s == Step::Fence,
                        start == old(self)@,
                        cmds@ == start.in_flight,
                        self.in_flight@.len() == 0,
                        copies_ok(start, start.in_flight) == copies_ok(
                            Memory { in_flight: start.in_flight, ..self@ },
                            cmds@.subrange(i as int, cmds@.len() as int),
                        ),
                        apply_copies(start, start.in_flight) == apply_copies(
                            Memory { in_flight: start.in_flight, ..self@ },
                            cmds@.subrange(i as int, cmds@.len() as int),
                        ),
                    decreases cmds@.len() - i,
                {
                    let ghost rest = cmds@.subrange(i as int, cmds@.len() as int);
                    assert(rest[0] == cmds@[i as int]);
                    assert(rest.drop_first() =~= cmds@.subrange(i + 1, cmds@.len() as int));
                    let ghost before = self@;
                    if !self.copy(cmds[i]) {
                        assert(!copy_ok(Memory { in_flight: start.in_flight, ..before }, rest[0]));
                        assert(!copies_ok(Memory { in_flight: start.in_flight, ..before }, rest));
                        assert(!copies_ok(start, start.in_flight));
                        return false;
                    }
                    assert(Memory { in_flight: start.in_flight, ..self@ } == apply_copy(
                        Memory { in_flight: start.in_flight, ..before },
                        cmds@[i as int],
                    ));
                    i = i + 1;
                }
                assert(cmds@.subrange(i as int, cmds@.len() as int).len() == 0);
                assert(self.in_flight@ =~= Seq::<CopyCmd>::empty());
                assert(self@ == step(old(self)@, s, data@));
                true
            },
            Step::HostRead { place } => {
                if any_writes_to(&self.recorded, place) || any_writes_to(&self.in_flight, place) {
                    return false;
                }
                let n = self.place_len(place);
                self.out = self.place_prefix(place, n);
                assert(self.out@ =~= place_of(old(self)@, place));
                true
            },
        }
    }
}

impl<T: Copy> HostMemory<T> {
    /// Performs `steps` in order with `data` as the host data of the
    /// transfer. Fails exactly when some step would leave the bounds of a
    /// region or of `data`.
    pub fn perform_all(&mut self, steps: &Vec<Step>, data: &[T]) -> (r: bool)
        ensures
            r == runs_ok(old(self)@, steps@, data@),
            r ==> final(self)@ == run(old(self)@, steps@, data@),
    {
        let ghost start = self@;
        let mut i: usize = 0;
        assert(steps@.subrange(0, steps@.len() as int) =~= steps@);
        while i < steps.len()
            invariant
                i <= steps@.len(),
                start == old(self)@,
                runs_ok(start, steps@, data@) == runs_ok(
                    self@,
                    steps@.subrange(i as int, steps@.len() as int),
                    data@,
                ),
                run(start, steps@, data@) == run(
                    self@,
                    steps@.subrange(i as int, steps@.len() as int),
                    data@,
                ),
            decreases steps@.len() - i,
        {
            let ghost rest = steps@.subrange(i as int, steps@.len() as int);
            assert(rest[0] == steps@[i as int]);
            assert(rest.drop_first() =~= steps@.subrange(i + 1, steps@.len() as int));
            if !self.perform(steps[i], data) {
                return false;
            }
            i = i + 1;
        }
        true
    }
}

/// Whether some command of `cs` reads or writes place `p`.
fn any_touches(cs: &Vec<CopyCmd>, p: Place) -> (r: bool)
    ensures
        r == touches(cs@, p),
{
    let mut i: usize = 0;
    while i < cs.len()
        invariant
            i <= cs@.len(),
            forall|j: int| 0 <= j < i ==> !(cs@[j].from == p || cs@[j].to == p),
        decreases cs@.len() - i,
    {
        if cs[i].from == p || cs[i].to == p {
            return true;
        }
        i = i + 1;
    }
    false
}

/// Whether some command of `cs` writes place `p`.
fn any_writes_to(cs: &Vec<CopyCmd>, p: Place) -> (r: bool)
    ensures
        r == writes_to(cs@, p),
{
    let mut i: usize = 0;
    while i < cs.len()
        invariant
            i <= cs@.len(),
            forall|j: int| 0 <= j < i ==> cs@[j].to != p,
        decreases cs@.len() - i,
    {
        if cs[i].to == p {
            return true;
        }
        i = i + 1;
    }
    false
}

/// The first `n` elements of `s`.
fn prefix_of_slice<T: Copy>(s: &[T], n: usize) -> (r: Vec<T>)
    requires
        n <= s@.len(),
    ensures
        r@ == s@.subrange(0, n as int),
{
    let mut r: Vec<T> = Vec::with_capacity(n);
    let mut i: usize = 0;
    while i < n
        invariant
            n <= s@.len(),
            i <= n,
            r@ == s@.subrange(0, i as int),
        decreases n - i,
    {
        r.push(s[i]);
        i = i + 1;
    }
    r
}

} // verus!
