//! The staging buffer: one fixed-capacity, host-mapped buffer that backs every
//! batch of a frame. Batches are placed by an aligned bump cursor that is reset
//! at the start of each frame.

use vstd::prelude::*;

verus! {

/// Storage-buffer dynamic offsets must be multiples of this many bytes.
pub const DYNAMIC_OFFSET_ALIGNMENT: u64 = 256;

/// Size of the staging buffer, in bytes (32 MiB).
pub const STAGING_BUFFER_CAPACITY: u64 = 32 * 1024 * 1024;

/// `x` rounded up to the next multiple of 256.
pub open spec fn align_up_spec(x: int) -> int {
    ((x + 255) / 256) * 256
}

/// Where the cursor stands after placing batches of the given byte lengths,
/// in order, starting from an empty buffer.
pub open spec fn cursor_after(lens: Seq<int>) -> int
    decreases lens.len(),
{
    if lens.len() == 0 {
        0
    } else {
        align_up_spec(cursor_after(lens.drop_last())) + lens.last()
    }
}

/// The offset at which the batch with index `i` is written.
pub open spec fn offset_of(lens: Seq<int>, i: int) -> int {
    align_up_spec(cursor_after(lens.take(i)))
}

/// Every length is a byte count.
pub open spec fn all_nonneg(lens: Seq<int>) -> bool {
    forall|i: int| 0 <= i < lens.len() ==> lens[i] >= 0
}

pub proof fn lemma_align_up(x: int)
    requires
        x >= 0,
    ensures
        align_up_spec(x) % 256 == 0,
        x <= align_up_spec(x) < x + 256,
{
    assert(((x + 255) / 256) * 256 % 256 == 0) by (nonlinear_arith);
    assert(x <= ((x + 255) / 256) * 256 < x + 256) by (nonlinear_arith)
        requires x >= 0;
}

pub proof fn lemma_cursor_nonneg(lens: Seq<int>)
    requires
        all_nonneg(lens),
    ensures
        cursor_after(lens) >= 0,
    decreases lens.len(),
{
    if lens.len() > 0 {
        let p = lens.drop_last();
        assert(all_nonneg(p));
        lemma_cursor_nonneg(p);
        lemma_align_up(cursor_after(p));
    }
}

/// The cursor never moves back as batches are added.
pub proof fn lemma_cursor_monotone(lens: Seq<int>, i: int)
    requires
        all_nonneg(lens),
        0 <= i <= lens.len(),
    ensures
        cursor_after(lens.take(i)) <= cursor_after(lens),
    decreases lens.len(),
{
    if i < lens.len() {
        let p = lens.drop_last();
        assert(all_nonneg(p));
        assert(p.take(i) =~= lens.take(i));
        lemma_cursor_monotone(p, i);
        lemma_cursor_nonneg(p);
        lemma_align_up(cursor_after(p));
    } else {
        assert(lens.take(i) =~= lens);
    }
}

/// Alignment invariant: for any sequence of batch byte lengths, every write
/// offset is a multiple of 256, and each batch's region `[offset, offset + len)`
/// ends at or before the offset of every later batch, so no two regions
/// overlap.
pub proof fn lemma_offsets_aligned_disjoint(lens: Seq<int>)
    requires
        all_nonneg(lens),
    ensures
        forall|i: int| 0 <= i < lens.len() ==> #[trigger] offset_of(lens, i) % 256 == 0,
        forall|i: int, j: int|
            0 <= i < j < lens.len() ==> #[trigger] offset_of(lens, i) + lens[i] <= #[trigger] offset_of(
                lens,
                j,
            ),
{
    assert forall|i: int| 0 <= i < lens.len() implies #[trigger] offset_of(lens, i) % 256 == 0 by {
        let p = lens.take(i);
        assert(all_nonneg(p));
        lemma_cursor_nonneg(p);
        lemma_align_up(cursor_after(p));
    }
    assert forall|i: int, j: int| 0 <= i < j < lens.len() implies #[trigger] offset_of(lens, i)
        + lens[i] <= #[trigger] offset_of(lens, j) by {
        let q = lens.take(i + 1);
        assert(q.drop_last() =~= lens.take(i));
        let pj = lens.take(j);
        assert(all_nonneg(pj));
        assert(pj.take(i + 1) =~= q);
        lemma_cursor_monotone(pj, i + 1);
        lemma_cursor_nonneg(pj);
        lemma_align_up(cursor_after(pj));
    }
}

/// Rounds `offset` up to the next multiple of 256.
pub fn align_up(offset: u64) -> (r: u64)
    requires
        offset <= u64::MAX - 255,
    ensures
        r == align_up_spec(offset as int),
        r % 256 == 0,
        offset <= r < offset + 256,
{
    proof {
        lemma_align_up(offset as int);
    }
    ((offset + 255) / 256) * 256
}

/// Why a batch could not be placed in the staging buffer.
#[derive(Clone, Copy, Debug, PartialEq, Eq, Structural)]
pub enum StagingError {
    /// The aligned region `[offset, offset + len)` would pass the capacity.
    Overflow { offset: u64, len: u64, capacity: u64 },
}

/// The bump cursor of the staging buffer.
#[derive(Clone, Copy, Debug, PartialEq, Eq, Structural)]
pub struct StagingCursor {
    pub capacity: u64,
    pub cursor: u64,
}

impl StagingCursor {
    pub open spec fn wf(&self) -> bool {
        self.cursor <= self.capacity && self.capacity <= u64::MAX - 256
    }

    /// An empty cursor over a buffer of `capacity` bytes.
    pub fn new(capacity: u64) -> (r: StagingCursor)
        requires
            capacity <= u64::MAX - 256,
        ensures
            r.wf(),
            r.capacity == capacity,
            r.cursor == 0,
    {
        StagingCursor { capacity, cursor: 0 }
    }

    /// Starts a new frame: the cursor goes back to 0.
    pub fn reset(&mut self)
        ensures
            final(self).capacity == old(self).capacity,
            final(self).cursor == 0,
    {
        self.cursor = 0;
    }

    /// Places a batch of `len` bytes: its offset is the cursor rounded up to
    /// 256, and the cursor then moves to the exact end of the batch. Where the
    /// batch would pass the capacity, nothing moves and the overflow is
    /// returned.
    pub fn allocate(&mut self, len: u64) -> (r: Result<u64, StagingError>)
        requires
            old(self).wf(),
        ensures
            final(self).wf(),
            final(self).capacity == old(self).capacity,
            r is Ok <==> align_up_spec(old(self).cursor as int) + len <= old(self).capacity,
            match r {
                Ok(off) => {
                    &&& off == align_up_spec(old(self).cursor as int)
                    &&& final(self).cursor == off + len
                },
                Err(e) => {
                    &&& e == StagingError::Overflow {
                        offset: align_up_spec(old(self).cursor as int) as u64,
                        len,
                        capacity: old(self).capacity,
                    }
                    &&& final(self).cursor == old(self).cursor
                },
            },
    {
        let offset = align_up(self.cursor);
        if len > self.capacity || offset > self.capacity - len {
            Err(StagingError::Overflow { offset, len, capacity: self.capacity })
        } else {
            self.cursor = offset + len;
            Ok(offset)
        }
    }
}

} // verus!
