//! Byte buffers that start at an aligned address.

use vstd::prelude::*;

verus! {

/// Calls `as_ptr` of a slice and takes the address of the pointer that it
/// gives, which is that of the slice's first byte.
///
/// Nothing is claimed of the result, which is whatever address the allocator
/// gave.
#[verifier::external_body]
fn address_of(bytes: &[u8]) -> (address: usize) {
    bytes.as_ptr() as usize
}

/// How many bytes to skip from an address to the next one that is a multiple of
/// `align`.
pub open spec fn start_spec(address: usize, align: usize) -> int {
    (align - address as int % align as int) % align as int
}

/// A buffer that is the tail of a larger allocation, which it shares with
/// nothing but the bytes skipped for its alignment.
///
/// The view is the buffer's bytes; `alignment`, `address` and `skipped` say
/// where they are.
#[derive(Debug)]
pub struct AlignedBytes {
    storage: Vec<u8>,
    start: usize,
    align: usize,
    address: usize,
}

impl View for AlignedBytes {
    type V = Seq<u8>;

    closed spec fn view(&self) -> Seq<u8> {
        self.storage@.skip(self.start as int)
    }
}

impl AlignedBytes {
    /// The buffer starts inside its allocation. Every buffer that this module
    /// makes does, and keeps doing so.
    pub closed spec fn wf(&self) -> bool {
        self.start <= self.storage@.len()
    }

    /// The alignment that the buffer was made for.
    pub closed spec fn alignment(&self) -> usize {
        self.align
    }

    /// The address that the buffer's allocation was found at.
    pub closed spec fn address(&self) -> usize {
        self.address
    }

    /// How many bytes of the allocation lie before the buffer.
    pub closed spec fn skipped(&self) -> usize {
        self.start
    }

    /// The buffer starts at a multiple of an alignment, and that is the one it
    /// was made for.
    pub open spec fn aligned_to(&self, align: usize) -> bool {
        &&& self.alignment() == align
        &&& self.skipped() < align
        &&& (self.address() + self.skipped()) % (align as int) == 0
    }

    /// Places a buffer of `len` bytes in an allocation at `address`, so that it
    /// starts at the first multiple of `align` there.
    pub fn placed(storage: Vec<u8>, len: usize, align: usize, address: usize) -> (buffer:
        AlignedBytes)
        requires
            align > 0,
            storage@.len() == len + align,
        ensures
            buffer.wf(),
            buffer.aligned_to(align),
            buffer.address() == address,
            buffer.skipped() == start_spec(address, align),
            buffer@ == storage@.subrange(buffer.skipped() as int, buffer.skipped() + len),
    {
        let mut storage = storage;
        let ghost whole = storage@;
        let start: usize = (align - address % align) % align;
        proof {
            law_start_is_aligned(address, align);
        }
        assert(storage.len() == len + align);
        storage.truncate(start + len);
        let buffer = AlignedBytes { storage, start, align, address };
        assert(buffer@ =~= whole.subrange(start as int, start + len));
        buffer
    }

    /// A buffer of `len` zero bytes, aligned to `align`.
    ///
    /// That `address` is where the allocation is rests on the standard library,
    /// and is not claimed; that the buffer is aligned with it follows.
    pub fn new_zeroed(len: usize, align: usize) -> (buffer: AlignedBytes)
        requires
            align > 0,
            len + align <= isize::MAX,
        ensures
            buffer.wf(),
            buffer.aligned_to(align),
            buffer.skipped() == start_spec(buffer.address(), align),
            buffer@ == Seq::new(len as nat, |i: int| 0u8),
    {
        let storage: Vec<u8> = vec![0u8; len + align];
        let address: usize = address_of(storage.as_slice());
        let buffer = AlignedBytes::placed(storage, len, align, address);
        assert(buffer@ =~= Seq::new(len as nat, |i: int| 0u8));
        buffer
    }

    /// All bytes.
    pub fn as_slice(&self) -> (bytes: &[u8])
        requires
            self.wf(),
        ensures
            bytes@ == self@,
    {
        vstd::slice::slice_subrange(self.storage.as_slice(), self.start, self.storage.len())
    }

    /// The first `n` bytes, if there are that many.
    pub fn prefix(&self, n: usize) -> (bytes: Option<&[u8]>)
        requires
            self.wf(),
        ensures
            n <= self@.len() ==> bytes is Some && bytes->0@ == self@.take(n as int),
            n > self@.len() ==> bytes is None,
    {
        if n > self.storage.len() - self.start {
            return None;
        }
        let bytes = vstd::slice::slice_subrange(
            self.storage.as_slice(),
            self.start,
            self.start + n,
        );
        assert(bytes@ =~= self@.take(n as int));
        Some(bytes)
    }

    /// All bytes, for writing. The buffer stays where it is.
    pub fn as_mut_slice(&mut self) -> (bytes: &mut [u8])
        requires
            old(self).wf(),
        ensures
            bytes@ == old(self)@,
            final(self)@ == final(bytes)@,
            final(self).wf(),
            final(self).alignment() == old(self).alignment(),
            final(self).address() == old(self).address(),
            final(self).skipped() == old(self).skipped(),
    {
        let start: usize = self.start;
        let (skipped, bytes) = self.storage.as_mut_slice().split_at_mut(start);
        bytes
    }
}

/// The bytes skipped lead to an aligned address, and are the fewest that do.
pub proof fn law_start_is_aligned(address: usize, align: usize)
    requires
        align > 0,
    ensures
        0 <= start_spec(address, align) < align,
        (address + start_spec(address, align)) % (align as int) == 0,
        forall|n: int|
            0 <= n < start_spec(address, align) ==> #[trigger] ((address + n) % (align as int)) != 0,
{
    let a = address as int;
    let m = align as int;
    let r = a % m;
    vstd::arithmetic::div_mod::lemma_fundamental_div_mod(a, m);
    vstd::arithmetic::div_mod::lemma_mod_bound(a, m);
    if r == 0 {
        vstd::arithmetic::div_mod::lemma_mod_self_0(m);
    } else {
        vstd::arithmetic::div_mod::lemma_small_mod((m - r) as nat, m as nat);
        assert(a + (m - r) == m * (a / m + 1)) by (nonlinear_arith)
            requires
                a == m * (a / m) + r,
        ;
        vstd::arithmetic::div_mod::lemma_mod_multiples_basic(a / m + 1, m);
        assert(m * (a / m + 1) == (a / m + 1) * m) by (nonlinear_arith);
        assert(m * (a / m) == (a / m) * m) by (nonlinear_arith);
        assert forall|n: int| 0 <= n < m - r implies #[trigger] ((address + n) % m) != 0 by {
            vstd::arithmetic::div_mod::lemma_fundamental_div_mod_converse(
                a + n,
                m,
                a / m,
                r + n,
            );
        }
    }
}

/// A buffer that is aligned starts at an address that the alignment divides, and
/// the bytes skipped for that are fewer than the alignment.
pub proof fn law_aligned_buffers(buffer: AlignedBytes, align: usize)
    ensures
        buffer.aligned_to(align) ==> {
            &&& buffer.alignment() == align
            &&& 0 <= buffer.skipped() < align
            &&& (buffer.address() + buffer.skipped()) % (align as int) == 0
        },
{
}

} // verus!
