//! Kernel memory blocks.
//!
//! A block is allocated from one of the memory partitions by a system
//! call that returns a handle; the allocation's status code is handed in
//! here and turned into the block value that tracks the handle, the
//! length and the partition. A fresh block is uninitialized; filling it
//! or copying into it yields an initialized block whose contents this
//! model tracks byte for byte.

use vstd::prelude::*;

use crate::sce::{sce_result_uid_from_code, sce_result_unit_from_code, SceResult, Uid};

verus! {

/// The memory partitions blocks can be allocated from.
#[derive(Default, Debug, Clone, Copy, PartialEq, Eq, Hash, Structural)]
pub enum MemPartition {
    #[default]
    Main,
    Cdram,
}

impl MemPartition {
    /// The allocation granularity of this partition.
    pub open spec fn spec_page_size(self) -> usize {
        match self {
            MemPartition::Main => 0x1000,
            MemPartition::Cdram => 0x40000,
        }
    }

    /// The allocation granularity of this partition.
    pub fn page_size(self) -> (r: usize)
        ensures
            r == self.spec_page_size(),
    {
        match self {
            MemPartition::Main => 0x1000,
            MemPartition::Cdram => 0x40000,
        }
    }
}

/// An allocated block as the kernel sees it: its handle, its length and
/// its partition.
#[derive(Debug)]
pub struct MemBlockRaw {
    uid: Uid,
    len: usize,
    mem_partition: MemPartition,
}

impl MemBlockRaw {
    pub closed spec fn spec_uid(self) -> Uid {
        self.uid
    }

    pub closed spec fn spec_len(self) -> usize {
        self.len
    }

    pub closed spec fn spec_partition(self) -> MemPartition {
        self.mem_partition
    }

    pub fn len(&self) -> (r: usize)
        ensures
            r == self.spec_len(),
    {
        self.len
    }

    pub fn is_empty(&self) -> (r: bool)
        ensures
            r == (self.spec_len() == 0),
    {
        self.len == 0
    }

    pub fn mem_partition(&self) -> (r: MemPartition)
        ensures
            r == self.spec_partition(),
    {
        self.mem_partition
    }

    /// Accounts for the block-free system call, consuming the block; does
    /// the same as dropping it, but the caller sees the error case.
    pub fn free(self, code: i32) -> (r: SceResult<()>)
        ensures
            code == 0 <==> r is Ok,
            r matches Err(e) ==> e.spec_code() == code,
    {
        sce_result_unit_from_code(code)
    }
}

/// An allocated block whose bytes have not been written yet.
#[derive(Debug)]
pub struct MemBlockUninitMut {
    raw: MemBlockRaw,
}

impl MemBlockUninitMut {
    pub closed spec fn spec_raw(self) -> MemBlockRaw {
        self.raw
    }

    pub open spec fn spec_len(self) -> usize {
        self.spec_raw().spec_len()
    }

    /// Takes ownership of an allocated block.
    pub fn from_raw(raw: MemBlockRaw) -> (r: MemBlockUninitMut)
        ensures
            r.spec_raw() == raw,
    {
        MemBlockUninitMut { raw }
    }

    /// Initializes the whole block with one byte value.
    pub fn fill_init(self, value: u8) -> (r: MemBlockMut)
        ensures
            r.spec_raw() == self.spec_raw(),
            r.spec_bytes() == Seq::new(self.spec_len() as nat, |i: int| value),
    {
        let n = self.raw.len();
        let mut data: Vec<u8> = Vec::new();
        let mut i: usize = 0;
        while i < n
            invariant
                i <= n,
                data@ =~= Seq::new(i as nat, |j: int| value),
            decreases n - i,
        {
            data.push(value);
            i += 1;
        }
        MemBlockMut { inner: self, data }
    }

    /// Initializes the block with a copy of `src`, which must fill it
    /// exactly.
    pub fn copy_from_slice_init(self, src: &[u8]) -> (r: MemBlockMut)
        requires
            src@.len() == self.spec_len(),
        ensures
            r.spec_raw() == self.spec_raw(),
            r.spec_bytes() == src@,
    {
        let n = self.raw.len();
        let mut data: Vec<u8> = Vec::new();
        let mut i: usize = 0;
        while i < n
            invariant
                i <= n == src@.len(),
                data@ =~= src@.take(i as int),
            decreases n - i,
        {
            data.push(src[i]);
            i += 1;
        }
        assert(data@ =~= src@);
        MemBlockMut { inner: self, data }
    }

    pub fn len(&self) -> (r: usize)
        ensures
            r == self.spec_len(),
    {
        self.raw.len()
    }

    pub fn is_empty(&self) -> (r: bool)
        ensures
            r == (self.spec_len() == 0),
    {
        self.raw.is_empty()
    }

    pub fn into_raw(self) -> (r: MemBlockRaw)
        ensures
            r == self.spec_raw(),
    {
        self.raw
    }

    pub fn as_raw(&self) -> (r: &MemBlockRaw)
        ensures
            *r == self.spec_raw(),
    {
        &self.raw
    }

    pub fn mem_partition(&self) -> (r: MemPartition)
        ensures
            r == self.spec_raw().spec_partition(),
    {
        self.raw.mem_partition()
    }

    /// Accounts for the block-free system call, consuming the block; does
    /// the same as dropping it, but the caller sees the error case.
    pub fn free(self, code: i32) -> (r: SceResult<()>)
        ensures
            code == 0 <==> r is Ok,
            r matches Err(e) ==> e.spec_code() == code,
    {
        self.raw.free(code)
    }
}

/// An allocated block together with its (initialized) contents.
#[derive(Debug)]
pub struct MemBlockMut {
    inner: MemBlockUninitMut,
    data: Vec<u8>,
}

impl MemBlockMut {
    pub closed spec fn spec_raw(self) -> MemBlockRaw {
        self.inner.spec_raw()
    }

    pub closed spec fn spec_bytes(self) -> Seq<u8> {
        self.data@
    }

    pub open spec fn spec_len(self) -> usize {
        self.spec_raw().spec_len()
    }

    #[verifier::type_invariant]
    closed spec fn wf(self) -> bool {
        self.data@.len() == self.inner.spec_len()
    }

    pub fn len(&self) -> (r: usize)
        ensures
            r == self.spec_len(),
            r == self.spec_bytes().len(),
    {
        proof {
            use_type_invariant(self);
        }
        self.inner.len()
    }

    pub fn is_empty(&self) -> (r: bool)
        ensures
            r == (self.spec_len() == 0),
    {
        self.inner.is_empty()
    }

    /// The block's contents.
    pub fn bytes(&self) -> (r: &Vec<u8>)
        ensures
            r@ == self.spec_bytes(),
            r@.len() == self.spec_len(),
    {
        proof {
            use_type_invariant(self);
        }
        &self.data
    }

    pub fn into_raw(self) -> (r: MemBlockRaw)
        ensures
            r == self.spec_raw(),
    {
        self.inner.into_raw()
    }

    /// Forgets the contents, keeping the allocation.
    pub fn into_uninit(self) -> (r: MemBlockUninitMut)
        ensures
            r.spec_raw() == self.spec_raw(),
    {
        self.inner
    }

    pub fn as_raw(&self) -> (r: &MemBlockRaw)
        ensures
            *r == self.spec_raw(),
    {
        self.inner.as_raw()
    }

    pub fn as_uninit(&self) -> (r: &MemBlockUninitMut)
        ensures
            r.spec_raw() == self.spec_raw(),
    {
        &self.inner
    }

    pub fn mem_partition(&self) -> (r: MemPartition)
        ensures
            r == self.spec_raw().spec_partition(),
    {
        self.inner.mem_partition()
    }

    /// Accounts for the block-free system call, consuming the block; does
    /// the same as dropping it, but the caller sees the error case.
    pub fn free(self, code: i32) -> (r: SceResult<()>)
        ensures
            code == 0 <==> r is Ok,
            r matches Err(e) ==> e.spec_code() == code,
    {
        self.inner.free(code)
    }
}

/// What one allocation asks for: a diagnostic name, a partition, a size,
/// and optionally an alignment.
#[derive(Debug, Clone)]
pub struct MemBlockOptions {
    pub name: String,
    pub mem_partition: MemPartition,
    pub size: usize,
    pub alignment: Option<usize>,
}

impl MemBlockOptions {
    /// An allocation of `size` bytes with every other choice defaulted.
    pub fn from_size(size: usize) -> (r: MemBlockOptions)
        ensures
            r.name@ == Seq::<char>::empty(),
            r.mem_partition is Main,
            r.size == size,
            r.alignment is None,
    {
        MemBlockOptions {
            name: String::new(),
            mem_partition: MemPartition::Main,
            size,
            alignment: None,
        }
    }

    /// The same allocation under a diagnostic name.
    pub fn with_name(self, name: &str) -> (r: MemBlockOptions)
        ensures
            r.name@ == name@,
            r.mem_partition == self.mem_partition,
            r.size == self.size,
            r.alignment == self.alignment,
    {
        MemBlockOptions { name: name.to_owned(), ..self }
    }

    /// The same allocation taken from another partition.
    pub fn with_memory_partition(self, mem_partition: MemPartition) -> (r: MemBlockOptions)
        ensures
            r.name == self.name,
            r.mem_partition == mem_partition,
            r.size == self.size,
            r.alignment == self.alignment,
    {
        MemBlockOptions { mem_partition, ..self }
    }

    /// Accounts for the block-allocation system call: a positive status is
    /// the new block's handle, a negative one is that error. The call
    /// never reports zero.
    pub fn alloc_mut_raw(self, code: i32) -> (r: SceResult<MemBlockRaw>)
        requires
            code != 0,
        ensures
            code > 0 <==> r is Ok,
            r matches Ok(raw) ==> raw.spec_uid() == code && raw.spec_len() == self.size
                && raw.spec_partition() == self.mem_partition,
            r matches Err(e) ==> e.spec_code() == code,
    {
        let uid = match sce_result_uid_from_code(code) {
            Ok(uid) => uid,
            Err(e) => {
                return Err(e);
            },
        };
        Ok(MemBlockRaw { uid, len: self.size, mem_partition: self.mem_partition })
    }

    /// The allocation, ready to be initialized.
    pub fn alloc_mut(self, code: i32) -> (r: SceResult<MemBlockUninitMut>)
        requires
            code != 0,
        ensures
            code > 0 <==> r is Ok,
            r matches Ok(b) ==> b.spec_raw().spec_uid() == code && b.spec_len() == self.size
                && b.spec_raw().spec_partition() == self.mem_partition,
            r matches Err(e) ==> e.spec_code() == code,
    {
        match self.alloc_mut_raw(code) {
            Ok(raw) => Ok(MemBlockUninitMut::from_raw(raw)),
            Err(e) => Err(e),
        }
    }
}

} // verus!
