//! Descriptor-set layout builder: records which uniform- and
//! storage-buffer binding slots a compute shader expects, and lays them out
//! in the order a layout build walks them. Turning the recorded slots into
//! driver objects is the caller's concern.

use vstd::prelude::*;

verus! {

/// Which kind of buffer a binding slot carries.
#[derive(Clone, Copy, Debug, PartialEq, Eq, Structural)]
pub enum DescriptorBufferKind {
    Uniform,
    Storage,
}

/// One binding slot of a layout: the slot index as the shader defines it
/// and the kind of buffer bound there. Each slot carries exactly one
/// descriptor for the compute stage.
#[derive(Clone, Copy, Debug, PartialEq, Eq, Structural)]
pub struct DescriptorBinding {
    pub binding: usize,
    pub kind: DescriptorBufferKind,
}

/// Collects the buffer binding slots of a shader before a layout is built.
#[derive(Clone, Debug, PartialEq, Eq)]
pub struct DescriptorSetLayoutBuilder {
    /// Binding slots of uniform buffers, as defined in the shader.
    pub uniform_buffer_bindings: Vec<usize>,
    /// Binding slots of storage buffers, as defined in the shader.
    pub storage_buffer_bindings: Vec<usize>,
}

impl DescriptorSetLayoutBuilder {
    /// An empty builder with no binding slots recorded.
    pub fn new() -> (b: Self)
        ensures
            b.uniform_buffer_bindings@ == Seq::<usize>::empty(),
            b.storage_buffer_bindings@ == Seq::<usize>::empty(),
    {
        DescriptorSetLayoutBuilder {
            uniform_buffer_bindings: Vec::new(),
            storage_buffer_bindings: Vec::new(),
        }
    }

    /// Record one uniform-buffer binding slot.
    pub fn add_uniform_buffer(self, binding: usize) -> (r: Self)
        ensures
            r.uniform_buffer_bindings@ == self.uniform_buffer_bindings@.push(binding),
            r.storage_buffer_bindings@ == self.storage_buffer_bindings@,
    {
        let mut this = self;
        this.uniform_buffer_bindings.push(binding);
        this
    }

    /// Record one storage-buffer binding slot.
    pub fn add_storage_buffer(self, binding: usize) -> (r: Self)
        ensures
            r.storage_buffer_bindings@ == self.storage_buffer_bindings@.push(binding),
            r.uniform_buffer_bindings@ == self.uniform_buffer_bindings@,
    {
        let mut this = self;
        this.storage_buffer_bindings.push(binding);
        this
    }

    /// The binding slots of the layout in the order a build walks them:
    /// every uniform-buffer slot first, then every storage-buffer slot.
    pub fn binding_layout(&self) -> (r: Vec<DescriptorBinding>)
        ensures
            r@.len() == self.uniform_buffer_bindings@.len()
                + self.storage_buffer_bindings@.len(),
            forall|i: int|
                0 <= i < self.uniform_buffer_bindings@.len() ==> (#[trigger] r@[i]) == (
                DescriptorBinding {
                    binding: self.uniform_buffer_bindings@[i],
                    kind: DescriptorBufferKind::Uniform,
                }),
            forall|i: int|
                0 <= i < self.storage_buffer_bindings@.len() ==> (#[trigger] r@[
                    self.uniform_buffer_bindings@.len() + i
                ]) == (DescriptorBinding {
                    binding: self.storage_buffer_bindings@[i],
                    kind: DescriptorBufferKind::Storage,
                }),
    {
        let ghost ulen: int = self.uniform_buffer_bindings@.len() as int;
        let mut r: Vec<DescriptorBinding> = Vec::new();
        let mut k: usize = 0;
        while k < self.uniform_buffer_bindings.len()
            invariant
                ulen == self.uniform_buffer_bindings@.len(),
                k <= ulen,
                r@.len() == k,
                forall|t: int|
                    0 <= t < k as int ==> (#[trigger] r@[t]) == (DescriptorBinding {
                        binding: self.uniform_buffer_bindings@[t],
                        kind: DescriptorBufferKind::Uniform,
                    }),
            decreases ulen - k,
        {
            r.push(
                DescriptorBinding {
                    binding: self.uniform_buffer_bindings[k],
                    kind: DescriptorBufferKind::Uniform,
                },
            );
            k = k + 1;
        }
        let mut j: usize = 0;
        while j < self.storage_buffer_bindings.len()
            invariant
                ulen == self.uniform_buffer_bindings@.len(),
                j <= self.storage_buffer_bindings@.len(),
                r@.len() == ulen + j,
                forall|t: int|
                    0 <= t < ulen ==> (#[trigger] r@[t]) == (DescriptorBinding {
                        binding: self.uniform_buffer_bindings@[t],
                        kind: DescriptorBufferKind::Uniform,
                    }),
                forall|t: int|
                    0 <= t < j as int ==> (#[trigger] r@[ulen + t]) == (DescriptorBinding {
                        binding: self.storage_buffer_bindings@[t],
                        kind: DescriptorBufferKind::Storage,
                    }),
            decreases self.storage_buffer_bindings@.len() - j,
        {
            r.push(
                DescriptorBinding {
                    binding: self.storage_buffer_bindings[j],
                    kind: DescriptorBufferKind::Storage,
                },
            );
            j = j + 1;
        }
        r
    }
}

} // verus!
