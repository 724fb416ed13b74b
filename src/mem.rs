//! Page-frame descriptors and page-table entries for Sv39 address
//! translation. The boot path runs with translation off; these are the
//! encodings that translation would use.
use vstd::prelude::*;

verus! {

/// Bits of a page offset.
pub const PAGE_ORDER: usize = 12;

/// Bytes in a page.
pub const PAGE_SIZE: usize = 4096;

/// `value` rounded up to a multiple of `2^align`.
pub open spec fn aligned_up(value: usize, align: usize) -> usize {
    ((value + ((1usize << align) - 1)) as usize) & !(((1usize << align) - 1) as usize)
}

/// Rounds `value` up to a multiple of `2^align`.
pub fn aling_value(value: usize, align: usize) -> (r: usize)
    requires
        align < usize::BITS,
        value + ((1usize << align) - 1) <= usize::MAX,
    ensures
        r == aligned_up(value, align),
{
    assert(1usize << align >= 1) by (bit_vector)
        requires
            align < usize::BITS,
    ;
    let o = (1usize << align) - 1;
    (value + o) & !o
}

/// Flags of a page-frame descriptor.
#[derive(Clone, Copy, Debug, PartialEq, Eq, Structural)]
pub enum PageBits {
    Empty,
    Taken,
    Last,
}

/// The bit value of a page flag.
pub open spec fn page_bits(b: PageBits) -> u8 {
    match b {
        PageBits::Empty => 0,
        PageBits::Taken => 1,
        PageBits::Last => 2,
    }
}

impl PageBits {
    /// The bit value.
    pub fn val(self) -> (r: u8)
        ensures
            r == page_bits(self),
    {
        match self {
            PageBits::Empty => 0,
            PageBits::Taken => 1,
            PageBits::Last => 2,
        }
    }
}

/// The descriptor of one page frame.
#[derive(Clone, Copy, Debug, PartialEq, Eq, Structural)]
pub struct Page {
    pub flags: u8,
}

impl Page {
    /// Whether the page ends an allocation.
    pub fn is_last(self) -> (r: bool)
        ensures
            r == (self.flags & 2 != 0),
    {
        if self.flags & PageBits::Last.val() != 0 {
            return true;
        } else {
            return false;
        }
    }

    /// Whether the page is allocated.
    pub fn is_taken(&self) -> (r: bool)
        ensures
            r == (self.flags & 1 != 0),
    {
        if self.flags & PageBits::Taken.val() != 0 {
            return true;
        } else {
            return false;
        }
    }

    /// Whether the page is free.
    pub fn is_free(&self) -> (r: bool)
        ensures
            r == (self.flags & 1 == 0),
    {
        !self.is_taken()
    }

    /// Clears every flag.
    pub fn clear(&mut self)
        ensures
            final(self).flags == 0,
    {
        self.flags = PageBits::Empty.val();
    }

    /// Replaces the flags by `flag`.
    pub fn set_flags(&mut self, flag: PageBits)
        ensures
            final(self).flags == page_bits(flag),
    {
        self.flags = flag.val();
    }

    /// Clears the bits of `flag`, keeping the others.
    pub fn clear_flags(&mut self, flag: PageBits)
        ensures
            final(self).flags == old(self).flags & !page_bits(flag),
    {
        self.flags = self.flags & !flag.val();
    }
}

/// Bits of a page-table entry.
#[derive(Clone, Copy, Debug, PartialEq, Eq, Structural)]
pub enum EntryBits {
    Node,
    Valid,
    Read,
    Write,
    Execute,
    User,
    Global,
    Access,
    Dirty,
    ReadWrite,
    ReadExecute,
    ReadWriteExecute,
    UserReadWrite,
    UserReadExecute,
    UserReadWriteExecute,
}

/// The bit value of an entry flag or flag combination.
pub open spec fn entry_bits(b: EntryBits) -> i64 {
    match b {
        EntryBits::Node => 0,
        EntryBits::Valid => 1,
        EntryBits::Read => 2,
        EntryBits::Write => 4,
        EntryBits::Execute => 8,
        EntryBits::User => 16,
        EntryBits::Global => 32,
        EntryBits::Access => 64,
        EntryBits::Dirty => 128,
        EntryBits::ReadWrite => 6,
        EntryBits::ReadExecute => 10,
        EntryBits::ReadWriteExecute => 14,
        EntryBits::UserReadWrite => 22,
        EntryBits::UserReadExecute => 26,
        EntryBits::UserReadWriteExecute => 30,
    }
}

impl EntryBits {
    /// The bit value.
    pub fn val(self) -> (r: i64)
        ensures
            r == entry_bits(self),
    {
        match self {
            EntryBits::Node => 0,
            EntryBits::Valid => 1,
            EntryBits::Read => 0b10,
            EntryBits::Write => 0b100,
            EntryBits::Execute => 0b1000,
            EntryBits::User => 0b1_0000,
            EntryBits::Global => 0b10_0000,
            EntryBits::Access => 0b100_0000,
            EntryBits::Dirty => 0b1000_0000,
            EntryBits::ReadWrite => 0b110,
            EntryBits::ReadExecute => 0b1010,
            EntryBits::ReadWriteExecute => 0b1110,
            EntryBits::UserReadWrite => 0b1_0110,
            EntryBits::UserReadExecute => 0b1_1010,
            EntryBits::UserReadWriteExecute => 0b1_1110,
        }
    }
}

/// A page-table entry.
#[derive(Clone, Copy, Debug, PartialEq, Eq, Structural)]
pub struct Entry {
    pub entry: i64,
}

impl Entry {
    /// Whether the valid bit is set.
    pub fn is_valid(&self) -> (r: bool)
        ensures
            r == (self.entry & 1 != 0),
    {
        self.get_entry() & EntryBits::Valid.val() != 0
    }

    /// Whether the valid bit is clear.
    pub fn is_invalid(&self) -> (r: bool)
        ensures
            r == (self.entry & 1 == 0),
    {
        !self.is_valid()
    }

    /// Whether any of read, write or execute is set: the entry maps a page.
    pub fn is_leaf(&self) -> (r: bool)
        ensures
            r == (self.entry & 0xe != 0),
    {
        self.get_entry() & 0xe != 0
    }

    /// Whether none of read, write or execute is set: the entry points to a table.
    pub fn is_branch(&self) -> (r: bool)
        ensures
            r == (self.entry & 0xe == 0),
    {
        !self.is_leaf()
    }

    /// The raw entry.
    pub fn get_entry(&self) -> (r: i64)
        ensures
            r == self.entry,
    {
        self.entry
    }

    /// Replaces the raw entry.
    pub fn set_entry(&mut self, entry: i64)
        ensures
            final(self).entry == entry,
    {
        self.entry = entry;
    }
}

/// One level of a page table.
pub struct Table {
    pub entries: [Entry; 512],
}

impl Table {
    /// Number of entries in a table.
    pub fn len() -> (r: usize)
        ensures
            r == 512,
    {
        512
    }
}

} // verus!
