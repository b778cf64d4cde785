use vstd::prelude::*;

verus! {

/// Per-node uniform buffers, one slot per node, indexed by the node's
/// position in the scene. The buffers themselves live on the device; the
/// pool records how many slots are allocated, their label and byte size.
pub struct UniformPool {
    label: String,
    size: u64,
    buffer_count: usize,
}

impl UniformPool {
    pub closed spec fn label_spec(&self) -> Seq<char> {
        self.label@
    }

    pub closed spec fn size_spec(&self) -> u64 {
        self.size
    }

    pub closed spec fn buffer_count_spec(&self) -> nat {
        self.buffer_count as nat
    }

    /// An empty pool whose buffers will be `size` bytes each.
    pub fn new(label: &str, size: u64) -> (r: UniformPool)
        ensures
            r.label_spec() == label@,
            r.size_spec() == size,
            r.buffer_count_spec() == 0,
    {
        UniformPool { label: label.to_string(), size, buffer_count: 0 }
    }

    /// Discards every slot and allocates `count` fresh ones.
    pub fn alloc_buffers(&mut self, count: usize)
        ensures
            final(self).buffer_count_spec() == count,
            final(self).label_spec() == old(self).label_spec(),
            final(self).size_spec() == old(self).size_spec(),
    {
        self.buffer_count = count;
    }

    /// The slot that receives node `index`'s uniform data; none when the
    /// pool holds no such slot, in which case the update is skipped.
    pub fn update_uniform(&self, index: usize) -> (r: Option<usize>)
        ensures
            r == (if index < self.buffer_count_spec() { Some(index) } else { None::<usize> }),
    {
        if index < self.buffer_count {
            Some(index)
        } else {
            None
        }
    }

    pub fn label(&self) -> (r: &str)
        ensures
            r@ == self.label_spec(),
    {
        self.label.as_str()
    }

    pub fn size(&self) -> (r: u64)
        ensures
            r == self.size_spec(),
    {
        self.size
    }

    pub fn buffer_count(&self) -> (r: usize)
        ensures
            r == self.buffer_count_spec(),
    {
        self.buffer_count
    }
}

} // verus!
