//! The scene handed to the renderer once per frame: an ordered list of
//! same-kind primitive batches, each a run of fixed-size records.

use vstd::prelude::*;

verus! {

/// The kinds of primitive that a batch can hold.
#[derive(Clone, Copy, Debug, PartialEq, Eq, Structural)]
pub enum PrimitiveKind {
    Shadows,
    Quads,
    Paths,
    Underlines,
    MonochromeSprites,
    PolychromeSprites,
    Surfaces,
}

/// A run of records of one kind, stored as raw bytes. Every record is
/// `record_size` bytes long; the layout inside a record is shared by the
/// producer of the batch and the shader pair that reads it.
#[derive(Clone, Debug)]
pub struct PrimitiveBatch {
    pub kind: PrimitiveKind,
    pub record_size: usize,
    pub data: Vec<u8>,
}

impl PrimitiveBatch {
    pub open spec fn wf(&self) -> bool {
        self.record_size > 0 && (self.data@.len() as int) % (self.record_size as int) == 0
    }

    /// Number of records in the batch.
    pub open spec fn len_spec(&self) -> int {
        (self.data@.len() as int) / (self.record_size as int)
    }

    /// Builds a batch from its records' bytes; `None` where `record_size` is 0
    /// or the bytes are not a whole number of records.
    pub fn new(kind: PrimitiveKind, record_size: usize, data: Vec<u8>) -> (r: Option<PrimitiveBatch>)
        ensures
            r is Some <==> (record_size > 0 && (data@.len() as int) % (record_size as int) == 0),
            r matches Some(b) ==> b.wf() && b.kind == kind && b.record_size == record_size
                && b.data@ == data@,
    {
        if record_size == 0 || data.len() % record_size != 0 {
            None
        } else {
            Some(PrimitiveBatch { kind, record_size, data })
        }
    }

    /// Number of records in the batch.
    pub fn len(&self) -> (r: usize)
        requires
            self.wf(),
        ensures
            r == self.len_spec(),
    {
        self.data.len() / self.record_size
    }

    /// Size of the batch's records, in bytes.
    pub fn byte_len(&self) -> (r: usize)
        ensures
            r == self.data@.len(),
    {
        self.data.len()
    }
}

/// The ordered batches of one frame; later batches are drawn over earlier ones.
#[derive(Clone, Debug)]
pub struct Scene {
    pub batches: Vec<PrimitiveBatch>,
}

impl Scene {
    pub open spec fn wf(&self) -> bool {
        forall|i: int| 0 <= i < self.batches@.len() ==> (#[trigger] self.batches@[i]).wf()
    }

    /// A scene with no batches.
    pub fn empty() -> (r: Scene)
        ensures
            r.wf(),
            r.batches@.len() == 0,
    {
        Scene { batches: Vec::new() }
    }

    /// Appends a batch, drawn after (over) the ones already there.
    pub fn push(&mut self, batch: PrimitiveBatch)
        ensures
            final(self).batches@ == old(self).batches@.push(batch),
    {
        self.batches.push(batch);
    }

    /// The batches in drawing order.
    pub fn batches(&self) -> (r: &[PrimitiveBatch])
        ensures
            r@ == self.batches@,
    {
        self.batches.as_slice()
    }
}

} // verus!
