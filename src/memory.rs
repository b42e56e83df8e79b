use vstd::prelude::*;

verus! {

/// Number of bytes on the 16-bit address bus.
pub const MEMORY_SIZE: usize = 0x10000;

/// The flat 64 KiB address space the processor reads and writes.
pub struct Memory {
    bytes: Vec<u8>,
}

impl View for Memory {
    type V = Seq<u8>;

    closed spec fn view(&self) -> Seq<u8> {
        self.bytes@
    }
}

impl Memory {
    /// Every address of the bus is backed by one byte.
    pub open spec fn wf(&self) -> bool {
        self@.len() == MEMORY_SIZE
    }

    /// A memory whose every byte is zero.
    pub fn new() -> (r: Memory)
        ensures
            r.wf(),
            forall|i: int| 0 <= i < MEMORY_SIZE ==> r@[i] == 0,
    {
        Memory { bytes: vec![0u8; MEMORY_SIZE] }
    }

    pub fn read_memory(&self, address: u16) -> (r: u8)
        requires
            self.wf(),
        ensures
            r == self@[address as int],
    {
        self.bytes[address as usize]
    }

    pub fn write_memory(&mut self, address: u16, value: u8)
        requires
            old(self).wf(),
        ensures
            final(self)@ == old(self)@.update(address as int, value),
    {
        self.bytes.set(address as usize, value);
    }

    /// Copies `data` to the addresses from `start` on.
    pub fn load(&mut self, start: u16, data: &[u8])
        requires
            old(self).wf(),
            start + data@.len() <= MEMORY_SIZE,
        ensures
            final(self).wf(),
            forall|i: int|
                0 <= i < MEMORY_SIZE ==> #[trigger] final(self)@[i] == if start <= i < start
                    + data@.len() {
                    data@[i - start]
                } else {
                    old(self)@[i]
                },
    {
        let mut k: usize = 0;
        while k < data.len()
            invariant
                self.wf(),
                k <= data@.len(),
                start + data@.len() <= MEMORY_SIZE,
                forall|i: int|
                    0 <= i < MEMORY_SIZE ==> #[trigger] self@[i] == if start <= i < start + k {
                        data@[i - start]
                    } else {
                        old(self)@[i]
                    },
            decreases data@.len() - k,
        {
            self.bytes.set(start as usize + k, data[k]);
            k = k + 1;
        }
    }
}

} // verus!
