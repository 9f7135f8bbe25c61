//! Guest physical memory as an owned, zero-initialised byte buffer with
//! bounds-checked access.
use vstd::prelude::*;

verus! {

/// `s` with the bytes from `at` on replaced by `data`; the length is kept.
pub open spec fn overwrite(s: Seq<u8>, at: int, data: Seq<u8>) -> Seq<u8> {
    Seq::new(s.len(), |i: int| if at <= i < at + data.len() { data[i - at] } else { s[i] })
}

/// `n` copies of the byte `b`.
pub open spec fn repeat(b: u8, n: nat) -> Seq<u8> {
    Seq::new(n, |i: int| b)
}

/// An access that would reach past the end of guest memory.
#[derive(Debug, Clone, Copy, PartialEq, Eq, Structural)]
pub enum MemoryError {
    OutOfBounds,
}

/// The guest's physical memory, starting at guest-physical address 0.
pub struct GuestMemory {
    bytes: Vec<u8>,
}

impl View for GuestMemory {
    type V = Seq<u8>;

    closed spec fn view(&self) -> Seq<u8> {
        self.bytes@
    }
}

impl GuestMemory {
    /// A zero-filled memory of `size` bytes.
    pub fn new(size: usize) -> (m: GuestMemory)
        ensures
            m@ == repeat(0, size as nat),
    {
        let bytes: Vec<u8> = vec![0u8; size];
        let m = GuestMemory { bytes };
        assert(m@ =~= repeat(0, size as nat));
        m
    }

    /// The number of bytes of guest memory.
    pub fn size(&self) -> (n: usize)
        ensures
            n == self@.len(),
    {
        self.bytes.len()
    }

    /// Copies `data` to guest memory at `addr`, or fails, changing nothing,
    /// where it would not fit.
    pub fn write_bytes(&mut self, addr: usize, data: &[u8]) -> (r: Result<(), MemoryError>)
        ensures
            r is Ok <==> addr + data@.len() <= old(self)@.len(),
            r is Ok ==> final(self)@ == overwrite(old(self)@, addr as int, data@),
            r is Err ==> final(self)@ == old(self)@,
    {
        if addr > self.bytes.len() || data.len() > self.bytes.len() - addr {
            return Err(MemoryError::OutOfBounds);
        }
        let n = data.len();
        let end = addr + n;
        let mut i: usize = 0;
        while i < n
            invariant
                n == data@.len(),
                end == addr + n,
                addr + n <= self.bytes@.len(),
                i <= n,
                self.bytes@.len() == old(self)@.len(),
                forall|j: int| 0 <= j < self.bytes@.len() ==> #[trigger] self.bytes@[j] == (if addr <= j < addr + i { data@[j - addr] } else { old(self)@[j] }),
            decreases n - i,
        {
            self.bytes.set(addr + i, data[i]);
            i = i + 1;
        }
        assert(self@ =~= overwrite(old(self)@, addr as int, data@));
        Ok(())
    }

    /// Sets `len` bytes at `addr` to `value`, or fails, changing nothing,
    /// where they would not fit.
    pub fn fill(&mut self, addr: usize, len: usize, value: u8) -> (r: Result<(), MemoryError>)
        ensures
            r is Ok <==> addr + len <= old(self)@.len(),
            r is Ok ==> final(self)@ == overwrite(old(self)@, addr as int, repeat(value, len as nat)),
            r is Err ==> final(self)@ == old(self)@,
    {
        if addr > self.bytes.len() || len > self.bytes.len() - addr {
            return Err(MemoryError::OutOfBounds);
        }
        let end = addr + len;
        let mut i: usize = 0;
        while i < len
            invariant
                end == addr + len,
                addr + len <= self.bytes@.len(),
                i <= len,
                self.bytes@.len() == old(self)@.len(),
                forall|j: int| 0 <= j < self.bytes@.len() ==> #[trigger] self.bytes@[j] == (if addr <= j < addr + i { value } else { old(self)@[j] }),
            decreases len - i,
        {
            self.bytes.set(addr + i, value);
            i = i + 1;
        }
        assert(self@ =~= overwrite(old(self)@, addr as int, repeat(value, len as nat)));
        Ok(())
    }

    /// A copy of the `len` bytes at `addr`, or an error where they are not
    /// all inside guest memory.
    pub fn read_bytes(&self, addr: usize, len: usize) -> (r: Result<Vec<u8>, MemoryError>)
        ensures
            r is Ok <==> addr + len <= self@.len(),
            r matches Ok(v) ==> v@ == self@.subrange(addr as int, addr + len),
    {
        if addr > self.bytes.len() || len > self.bytes.len() - addr {
            return Err(MemoryError::OutOfBounds);
        }
        let end = addr + len;
        let mut v: Vec<u8> = Vec::with_capacity(len);
        let mut i: usize = addr;
        while i < end
            invariant
                addr <= i <= end,
                end <= self.bytes@.len(),
                v@ == self@.subrange(addr as int, i as int),
            decreases end - i,
        {
            v.push(self.bytes[i]);
            i = i + 1;
            assert(v@ =~= self@.subrange(addr as int, i as int));
        }
        Ok(v)
    }

    /// The whole memory as a mutable byte slice, for handing its host address
    /// to the hypervisor.
    pub fn host_bytes(&mut self) -> (r: &mut [u8])
        ensures
            r@ == old(self)@,
            final(self)@ == final(r)@,
    {
        self.bytes.as_mut_slice()
    }
}

} // verus!
