//! The reusable GPU vertex buffers: fixed capacity, refilled from offset zero
//! on every draw call.

use vstd::prelude::*;

verus! {

/// The contents of a buffer after uploading `data` at offset zero: `data`
/// overwrites the prefix; whatever lay beyond it is kept.
pub open spec fn spec_write_prefix(dst: Seq<u32>, data: Seq<u32>) -> Seq<u32> {
    if data.len() >= dst.len() {
        data
    } else {
        data + dst.skip(data.len() as int)
    }
}

/// A dynamically updatable GPU-resident buffer of 32-bit scalar components.
/// It is created once with a fixed capacity and never resized; every upload
/// rewrites a prefix no longer than that capacity.
#[derive(Clone, PartialEq, Eq, Debug)]
pub struct GpuBuffer {
    pub capacity: usize,
    pub contents: Vec<u32>,
}

/// The mathematical view of a [`GpuBuffer`].
pub struct GpuBufferModel {
    pub capacity: usize,
    pub contents: Seq<u32>,
}

impl View for GpuBuffer {
    type V = GpuBufferModel;

    open spec fn view(&self) -> GpuBufferModel {
        GpuBufferModel { capacity: self.capacity, contents: self.contents@ }
    }
}

impl GpuBufferModel {
    /// The buffer never holds more components than its fixed capacity.
    pub open spec fn wf(self) -> bool {
        self.contents.len() <= self.capacity
    }
}

impl GpuBuffer {
    /// Creates an empty buffer of the given fixed capacity.
    pub fn new(capacity: usize) -> (b: GpuBuffer)
        ensures
            b@.capacity == capacity,
            b@.contents == Seq::<u32>::empty(),
            b@.wf(),
    {
        GpuBuffer { capacity, contents: Vec::new() }
    }

    /// Uploads `data` at offset zero, overwriting the buffer's prefix. Each
    /// upload fully precedes the draw that reads it, so rewriting the one
    /// shared allocation per batch is safe.
    pub fn upload(&mut self, data: &Vec<u32>)
        requires
            old(self)@.wf(),
            data@.len() <= old(self)@.capacity,
        ensures
            final(self)@.wf(),
            final(self)@.capacity == old(self)@.capacity,
            final(self)@.contents == spec_write_prefix(old(self)@.contents, data@),
    {
        let mut i: usize = 0;
        while i < data.len()
            invariant
                i <= data@.len(),
                self.capacity == old(self).capacity,
                data@.len() <= self.capacity,
                self.contents@.len() == if i <= old(self).contents@.len() {
                    old(self).contents@.len()
                } else {
                    i as nat
                },
                forall|j: int| 0 <= j < i ==> self.contents@[j] == data@[j],
                forall|j: int|
                    i <= j < self.contents@.len() ==> self.contents@[j] == old(
                        self,
                    ).contents@[j],
            decreases data.len() - i,
        {
            if i < self.contents.len() {
                self.contents.set(i, data[i]);
            } else {
                self.contents.push(data[i]);
            }
            i = i + 1;
        }
        proof {
            assert(self@.contents =~= spec_write_prefix(old(self)@.contents, data@));
        }
    }
}

} // verus!
