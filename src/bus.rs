use vstd::prelude::*;

verus! {

/// Number of addressable bytes: the whole 16-bit address space.
pub const MEMORY_SIZE: usize = 0x10000;

/// A flat 64 KiB random-access memory that the processor reads and writes.
pub struct Bus {
    ram: Vec<u8>,
}

impl View for Bus {
    type V = Seq<u8>;

    closed spec fn view(&self) -> Seq<u8> {
        self.ram@
    }
}

impl Bus {
    /// The memory holds exactly one byte for each 16-bit address.
    pub open spec fn wf(&self) -> bool {
        self@.len() == MEMORY_SIZE
    }

    /// The byte stored at `address`.
    pub open spec fn byte(&self, address: u16) -> u8 {
        self@[address as int]
    }

    /// A memory with every byte zero.
    pub fn new() -> (r: Self)
        ensures
            r.wf(),
            forall|a: u16| #[trigger] r.byte(a) == 0,
    {
        let ram: Vec<u8> = vec![0u8; MEMORY_SIZE];
        assert forall|a: u16| #[trigger] ram@[a as int] == 0 by {
            assert(cloned(0u8, ram@[a as int]));
        }
        Self { ram }
    }

    /// Stores `data` at `address`; every other byte keeps its value.
    pub fn write(&mut self, address: u16, data: u8)
        requires
            old(self).wf(),
        ensures
            final(self).wf(),
            final(self)@ == old(self)@.update(address as int, data),
    {
        self.ram.set(address as usize, data);
    }

    /// The byte at `address`. Reading has no side effect, whether or not
    /// `read_only` is set.
    pub fn read(&self, address: u16, read_only: bool) -> (r: u8)
        requires
            self.wf(),
        ensures
            r == self.byte(address),
    {
        self.ram[address as usize]
    }
}

} // verus!
