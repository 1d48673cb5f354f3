//! One frame: where each batch goes in the staging buffer and which draw it
//! becomes, and the state machine that orders acquisition, recording,
//! submission and presentation.

use vstd::prelude::*;
use crate::pipeline::{PipelineKind, pipeline_for, pipeline_for_spec};
use crate::scene::{PrimitiveBatch, Scene};
use crate::staging::{
    StagingCursor, all_nonneg, cursor_after, lemma_cursor_monotone, lemma_offsets_aligned_disjoint,
    offset_of,
};

verus! {

/// One instanced draw: `instance_count` instances of six vertices, reading the
/// batch's records from the staging buffer at `offset`.
#[derive(Clone, Copy, Debug, PartialEq, Eq, Structural)]
pub struct DrawCall {
    pub pipeline: PipelineKind,
    pub batch_index: usize,
    pub offset: u64,
    pub byte_len: u64,
    pub instance_count: u32,
}

/// Why a frame was not started.
#[derive(Clone, Copy, Debug, PartialEq, Eq, Structural)]
pub enum FrameError {
    /// The scene's batches do not fit in the staging buffer.
    StagingOverflow,
    /// A frame is already in progress.
    Busy,
}

/// Indices, in order, of the batches among the first `n` that have a
/// pipeline and are therefore drawn.
pub open spec fn drawn_indices(b: Seq<PrimitiveBatch>, n: int) -> Seq<int>
    decreases n,
{
    if n <= 0 {
        seq![]
    } else {
        let p = drawn_indices(b, n - 1);
        if pipeline_for_spec(b[n - 1].kind) is Some {
            p.push(n - 1)
        } else {
            p
        }
    }
}

/// Byte lengths of the drawn batches among the first `n`, in order.
pub open spec fn drawn_lens(b: Seq<PrimitiveBatch>, n: int) -> Seq<int> {
    drawn_indices(b, n).map_values(|i: int| b[i].data@.len() as int)
}

/// The cursor after all drawn batches of the scene are placed.
pub open spec fn frame_bytes(b: Seq<PrimitiveBatch>) -> int {
    cursor_after(drawn_lens(b, b.len() as int))
}

/// `c` is the draw of the `k`-th drawn batch of `b`.
pub open spec fn draw_matches(c: DrawCall, b: Seq<PrimitiveBatch>, n: int, k: int) -> bool {
    let i = drawn_indices(b, n)[k];
    &&& c.batch_index == i
    &&& pipeline_for_spec(b[i].kind) == Some(c.pipeline)
    &&& c.byte_len == b[i].data@.len()
    &&& c.offset == offset_of(drawn_lens(b, n), k)
    &&& c.instance_count == b[i].len_spec()
}

/// `calls` are the draws of the scene `b`, one per drawn batch, in order.
pub open spec fn plan_matches(calls: Seq<DrawCall>, b: Seq<PrimitiveBatch>) -> bool {
    &&& calls.len() == drawn_indices(b, b.len() as int).len()
    &&& forall|k: int|
        0 <= k < calls.len() ==> draw_matches(#[trigger] calls[k], b, b.len() as int, k)
}

pub proof fn lemma_drawn_indices_bounds(b: Seq<PrimitiveBatch>, n: int)
    requires
        0 <= n,
    ensures
        drawn_indices(b, n).len() <= n,
        forall|k: int|
            0 <= k < drawn_indices(b, n).len() ==> 0 <= #[trigger] drawn_indices(b, n)[k] < n,
    decreases n,
{
    if n > 0 {
        lemma_drawn_indices_bounds(b, n - 1);
    }
}

/// The drawn batches among the first `i` are a prefix of those among the
/// first `n`.
pub proof fn lemma_drawn_prefix(b: Seq<PrimitiveBatch>, i: int, n: int)
    requires
        0 <= i <= n,
    ensures
        drawn_indices(b, i).len() <= drawn_indices(b, n).len(),
        drawn_indices(b, n).take(drawn_indices(b, i).len() as int) == drawn_indices(b, i),
    decreases n - i,
{
    if i == n {
        assert(drawn_indices(b, n).take(drawn_indices(b, n).len() as int) =~= drawn_indices(b, n));
    } else {
        lemma_drawn_prefix(b, i, n - 1);
        let m = drawn_indices(b, i).len() as int;
        assert(drawn_indices(b, n).take(m) =~= drawn_indices(b, n - 1).take(m));
    }
}

/// Which batches are drawn depends only on the batches themselves.
pub proof fn lemma_drawn_same_prefix(b: Seq<PrimitiveBatch>, c: Seq<PrimitiveBatch>, n: int)
    requires
        0 <= n <= b.len(),
        n <= c.len(),
        forall|k: int| 0 <= k < n ==> b[k] == c[k],
    ensures
        drawn_indices(b, n) == drawn_indices(c, n),
    decreases n,
{
    if n > 0 {
        lemma_drawn_same_prefix(b, c, n - 1);
    }
}

pub proof fn lemma_lens_nonneg(b: Seq<PrimitiveBatch>, n: int)
    ensures
        all_nonneg(drawn_lens(b, n)),
{
}

/// A batch of a kind that has no pipeline is a no-op: appended to any scene,
/// it adds no draw call and moves the staging cursor by nothing.
pub proof fn lemma_unknown_kind_no_op(b: Seq<PrimitiveBatch>, u: PrimitiveBatch)
    requires
        pipeline_for_spec(u.kind) is None,
    ensures
        drawn_indices(b.push(u), b.len() as int + 1) == drawn_indices(b, b.len() as int),
        drawn_lens(b.push(u), b.len() as int + 1) == drawn_lens(b, b.len() as int),
        frame_bytes(b.push(u)) == frame_bytes(b),
{
    let c = b.push(u);
    let n = b.len() as int;
    lemma_drawn_same_prefix(b, c, n);
    lemma_drawn_indices_bounds(b, n);
    assert(drawn_lens(c, n + 1) =~= drawn_lens(b, n));
}

/// The draws of a planned frame start at multiples of 256, and each one's
/// bytes end at or before the start of every later one.
pub proof fn lemma_plan_aligned_disjoint(calls: Seq<DrawCall>, b: Seq<PrimitiveBatch>)
    requires
        plan_matches(calls, b),
    ensures
        forall|k: int| 0 <= k < calls.len() ==> #[trigger] calls[k].offset % 256 == 0,
        forall|i: int, j: int|
            0 <= i < j < calls.len() ==> #[trigger] calls[i].offset + calls[i].byte_len
                <= #[trigger] calls[j].offset,
{
    let n = b.len() as int;
    let lens = drawn_lens(b, n);
    lemma_lens_nonneg(b, n);
    lemma_offsets_aligned_disjoint(lens);
    assert forall|k: int| 0 <= k < calls.len() implies #[trigger] calls[k].offset % 256 == 0 by {
        assert(draw_matches(calls[k], b, n, k));
        assert(offset_of(lens, k) % 256 == 0);
    }
    assert forall|i: int, j: int| 0 <= i < j < calls.len() implies #[trigger] calls[i].offset
        + calls[i].byte_len <= #[trigger] calls[j].offset by {
        assert(draw_matches(calls[i], b, n, i));
        assert(draw_matches(calls[j], b, n, j));
        assert(offset_of(lens, i) + lens[i] <= offset_of(lens, j));
    }
}

/// Places every drawn batch of the scene in a staging buffer of `capacity`
/// bytes and returns one draw per drawn batch, in scene order. Batches of a
/// kind without a pipeline are skipped. Fails, placing nothing, where the
/// batches do not fit.
pub fn plan_frame(scene: &Scene, capacity: u64) -> (r: Result<Vec<DrawCall>, FrameError>)
    requires
        scene.wf(),
        capacity <= u32::MAX,
    ensures
        r is Ok <==> frame_bytes(scene.batches@) <= capacity,
        match r {
            Ok(calls) => plan_matches(calls@, scene.batches@),
            Err(e) => e == FrameError::StagingOverflow,
        },
{
    let ghost b = scene.batches@;
    let n = scene.batches.len();
    let mut cursor = StagingCursor::new(capacity);
    let mut calls: Vec<DrawCall> = Vec::new();
    let mut i: usize = 0;
    while i < n
        invariant
            b == scene.batches@,
            n == b.len(),
            scene.wf(),
            capacity <= u32::MAX,
            0 <= i <= n,
            cursor.wf(),
            cursor.capacity == capacity,
            cursor.cursor == cursor_after(drawn_lens(b, i as int)),
            calls@.len() == drawn_indices(b, i as int).len(),
            forall|k: int| 0 <= k < calls@.len() ==> draw_matches(#[trigger] calls@[k], b, i as int, k),
        decreases n - i,
    {
        let batch = &scene.batches[i];
        proof {
            lemma_drawn_indices_bounds(b, i as int);
        }
        match pipeline_for(batch.kind) {
            None => {
                proof {
                    assert(drawn_indices(b, i + 1) == drawn_indices(b, i as int));
                }
            },
            Some(pipeline) => {
                let len = batch.data.len() as u64;
                let ghost lens = drawn_lens(b, i as int);
                let ghost lens2 = drawn_lens(b, i + 1);
                proof {
                    assert(drawn_indices(b, i + 1) == drawn_indices(b, i as int).push(i as int));
                    assert(lens2 =~= lens.push(len as int));
                    assert(lens2.drop_last() =~= lens);
                }
                match cursor.allocate(len) {
                    Err(_) => {
                        proof {
                            let all = drawn_lens(b, n as int);
                            lemma_drawn_prefix(b, i + 1, n as int);
                            let m = lens2.len() as int;
                            assert(all.take(m) =~= lens2);
                            lemma_lens_nonneg(b, n as int);
                            lemma_cursor_monotone(all, m);
                        }
                        return Err(FrameError::StagingOverflow);
                    },
                    Ok(offset) => {
                        let count = batch.len();
                        proof {
                            let rs = batch.record_size as int;
                            let dl = batch.data@.len() as int;
                            assert(dl / rs <= dl) by (nonlinear_arith)
                                requires rs >= 1, dl >= 0;
                            assert(lens2.take(lens.len() as int) =~= lens);
                        }
                        let call = DrawCall {
                            pipeline,
                            batch_index: i,
                            offset,
                            byte_len: len,
                            instance_count: count as u32,
                        };
                        let ghost old_calls = calls@;
                        calls.push(call);
                        proof {
                            assert forall|k: int| 0 <= k < calls@.len() implies draw_matches(
                                #[trigger] calls@[k],
                                b,
                                i + 1,
                                k,
                            ) by {
                                if k < old_calls.len() {
                                    assert(calls@[k] == old_calls[k]);
                                    assert(lens2.take(k) =~= lens.take(k));
                                }
                            }
                        }
                    },
                }
            },
        }
        i = i + 1;
    }
    Ok(calls)
}

/// The range that `pipeline`'s descriptor must cover for this frame: the
/// largest byte length among the draws with that pipeline, and at least 1, as
/// a descriptor range cannot be empty. `None` where no draw uses the pipeline.
pub fn descriptor_range(draws: &[DrawCall], pipeline: PipelineKind) -> (r: Option<u64>)
    ensures
        r is None <==> forall|k: int| 0 <= k < draws@.len() ==> #[trigger] draws@[k].pipeline != pipeline,
        r matches Some(n) ==> {
            &&& n >= 1
            &&& forall|k: int|
                0 <= k < draws@.len() && #[trigger] draws@[k].pipeline == pipeline ==> draws@[k].byte_len <= n
            &&& n == 1 || exists|k: int|
                0 <= k < draws@.len() && #[trigger] draws@[k].pipeline == pipeline && draws@[k].byte_len == n
        },
{
    let mut best: Option<u64> = None;
    let mut i: usize = 0;
    while i < draws.len()
        invariant
            0 <= i <= draws@.len(),
            best is None <==> forall|k: int| 0 <= k < i ==> #[trigger] draws@[k].pipeline != pipeline,
            best matches Some(n) ==> {
                &&& n >= 1
                &&& forall|k: int| 0 <= k < i && #[trigger] draws@[k].pipeline == pipeline ==> draws@[k].byte_len <= n
                &&& n == 1 || exists|k: int| 0 <= k < i && #[trigger] draws@[k].pipeline == pipeline && draws@[k].byte_len == n
            },
        decreases draws@.len() - i,
    {
        let d = draws[i];
        if d.pipeline == pipeline {
            let len = if d.byte_len >= 1 { d.byte_len } else { 1 };
            best = match best {
                None => Some(len),
                Some(n) => Some(if n >= len { n } else { len }),
            };
        }
        i = i + 1;
    }
    best
}

} // verus!
