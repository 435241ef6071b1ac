use vstd::prelude::*;

verus! {

/// The contents of a region after its first `d.len()` elements are replaced by `d`.
pub open spec fn prefix_update<T>(old: Seq<T>, d: Seq<T>) -> Seq<T> {
    d + old.subrange(d.len() as int, old.len() as int)
}

/// Why a transfer was refused before anything was touched.
#[derive(Debug, Clone, Copy, PartialEq, Eq, Structural)]
pub enum TransferError {
    /// The data holds more elements than the buffer was created with.
    CapacityExceeded { len: usize, capacity: usize },
}

/// Copies `data` into the front of a host-visible region, leaving the rest as it was.
pub fn write_prefix<T: Copy>(region: &mut [T], data: &[T]) -> (r: Result<(), TransferError>)
    ensures
        data@.len() <= old(region)@.len() ==> r is Ok && final(region)@ == prefix_update(
            old(region)@,
            data@,
        ),
        data@.len() > old(region)@.len() ==> r == Err::<(), TransferError>(
            TransferError::CapacityExceeded { len: data@.len() as usize, capacity: old(region)@.len() as usize },
        ) && final(region)@ == old(region)@,
{
    if data.len() > region.len() {
        return Err(TransferError::CapacityExceeded { len: data.len(), capacity: region.len() });
    }
    let n: usize = data.len();
    let mut i: usize = 0;
    while i < n
        invariant
            n == data@.len(),
            n <= region@.len(),
            region@.len() == old(region)@.len(),
            i <= n,
            forall|j: int| 0 <= j < i ==> region@[j] == data@[j],
            forall|j: int| i <= j < region@.len() ==> region@[j] == old(region)@[j],
        decreases n - i,
    {
        region[i] = data[i];
        i = i + 1;
    }
    assert(region@ =~= prefix_update(old(region)@, data@));
    Ok(())
}

/// Copies a host-visible region out into a fresh vector.
pub fn read_region<T: Copy>(region: &[T]) -> (r: Vec<T>)
    ensures
        r@ == region@,
{
    let mut out: Vec<T> = Vec::with_capacity(region.len());
    let mut i: usize = 0;
    while i < region.len()
        invariant
            i <= region@.len(),
            out@ == region@.subrange(0, i as int),
        decreases region@.len() - i,
    {
        out.push(region[i]);
        i = i + 1;
    }
    assert(out@ =~= region@);
    out
}

} // verus!
