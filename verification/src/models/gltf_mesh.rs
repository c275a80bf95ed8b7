//! Index buffers of a mesh assembled from several glTF primitives. Every
//! primitive's vertices are appended after those already stored, so its
//! indices are shifted by that count; the index buffer holds `u16` values.

use vstd::prelude::*;

verus! {

/// Why a primitive's indices could not be stored.
#[derive(Debug, Clone, Copy, PartialEq, Eq, Structural)]
pub enum MeshIndexError {
    /// A shifted index does not fit in 16 bits.
    IndexOverflow,
    /// A primitive without indices has more vertices than 16 bits can number.
    UnindexedTooLarge,
}

impl MeshIndexError {
    /// The message reported for this error.
    pub fn message(&self) -> (m: &'static str)
        ensures
            m@ == (match self {
                MeshIndexError::IndexOverflow => "mesh index overflow — model too complex for u16 indices"@,
                MeshIndexError::UnindexedTooLarge => "unindexed mesh too large"@,
            }),
    {
        match self {
            MeshIndexError::IndexOverflow => "mesh index overflow — model too complex for u16 indices",
            MeshIndexError::UnindexedTooLarge => "unindexed mesh too large",
        }
    }
}

/// Whether an index shifted by `base` fits in 16 bits.
pub open spec fn shifted_fits(base: u32, idx: u32) -> bool {
    base + idx <= u16::MAX
}

/// The indices shifted by `base`, each known to fit.
pub open spec fn shifted(base: u32, idx: Seq<u32>) -> Seq<u16> {
    idx.map_values(|i: u32| (base + i) as u16)
}

/// Indices `base, base + 1, ..., base + count - 1`, each kept to its low 16 bits.
pub open spec fn sequential(base: u32, count: nat) -> Seq<u16> {
    Seq::new(count, |i: int| ((base + i) % 0x1_0000) as u16)
}

/// Appends a primitive's indices shifted by `base`, the number of vertices
/// stored before it. Stops at the first index that does not fit in 16 bits;
/// the ones before it have been appended by then. Up to that index, the sums
/// must fit in 32 bits.
pub fn append_indexed(all_indices: &mut Vec<u16>, base: u32, indices: &[u32]) -> (r: Result<(), MeshIndexError>)
    requires
        forall|k: int|
            0 <= k < indices@.len() && (forall|j: int| 0 <= j < k ==> shifted_fits(base, #[trigger] indices@[j]))
                ==> base + #[trigger] indices@[k] <= u32::MAX,
    ensures
        r is Ok <==> forall|k: int| 0 <= k < indices@.len() ==> shifted_fits(base, #[trigger] indices@[k]),
        r is Ok ==> final(all_indices)@ == old(all_indices)@ + shifted(base, indices@),
        r is Err ==> r == Err::<(), MeshIndexError>(MeshIndexError::IndexOverflow) && exists|k: int|
            0 <= k < indices@.len() && !shifted_fits(base, indices@[k]) && (forall|j: int|
                0 <= j < k ==> shifted_fits(base, #[trigger] indices@[j])) && final(all_indices)@
                == old(all_indices)@ + shifted(base, indices@.take(k)),
{
    let mut i: usize = 0;
    while i < indices.len()
        invariant
            i <= indices@.len(),
            forall|k: int|
                0 <= k < indices@.len() && (forall|j: int| 0 <= j < k ==> shifted_fits(base, #[trigger] indices@[j]))
                    ==> base + #[trigger] indices@[k] <= u32::MAX,
            forall|j: int| 0 <= j < i ==> shifted_fits(base, #[trigger] indices@[j]),
            all_indices@ == old(all_indices)@ + shifted(base, indices@.take(i as int)),
        decreases indices@.len() - i,
    {
        let global = base + indices[i];
        if global > 0xFFFF {
            return Err(MeshIndexError::IndexOverflow);
        }
        let ghost before = all_indices@;
        all_indices.push(global as u16);
        assert(shifted(base, indices@.take(i + 1)) =~= shifted(base, indices@.take(i as int)).push(
            global as u16,
        ));
        assert(all_indices@ =~= old(all_indices)@ + shifted(base, indices@.take(i + 1)));
        i += 1;
    }
    assert(indices@.take(i as int) =~= indices@);
    Ok(())
}

/// Appends the indices of a primitive without an index buffer: its vertices
/// in order, numbered from `base`. A primitive with more vertices than 16 bits
/// can number is refused and nothing is appended; otherwise each number keeps
/// its low 16 bits.
pub fn append_unindexed(all_indices: &mut Vec<u16>, base: u32, count: usize) -> (r: Result<(), MeshIndexError>)
    requires
        0 < count <= u16::MAX ==> base + count - 1 <= u32::MAX,
    ensures
        r is Ok <==> count <= u16::MAX,
        r is Err ==> r == Err::<(), MeshIndexError>(MeshIndexError::UnindexedTooLarge)
            && final(all_indices)@ == old(all_indices)@,
        r is Ok ==> final(all_indices)@ == old(all_indices)@ + sequential(base, count as nat),
{
    if count > 0xFFFF {
        return Err(MeshIndexError::UnindexedTooLarge);
    }
    let n = count as u32;
    let mut i: u32 = 0;
    while i < n
        invariant
            i <= n == count <= u16::MAX,
            0 < count <= u16::MAX ==> base + count - 1 <= u32::MAX,
            all_indices@ == old(all_indices)@ + sequential(base, i as nat),
        decreases n - i,
    {
        let global = base + i;
        all_indices.push((global % 0x1_0000) as u16);
        assert(sequential(base, (i + 1) as nat) =~= sequential(base, i as nat).push(
            (global % 0x1_0000) as u16,
        ));
        assert(all_indices@ =~= old(all_indices)@ + sequential(base, (i + 1) as nat));
        i += 1;
    }
    Ok(())
}

} // verus!
