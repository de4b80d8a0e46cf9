//! The main bus of the system, divided into [`Page`]s based on the memory map.
//! Addresses are 16 bits wide and values are 8 bits wide.

use vstd::prelude::*;

verus! {

pub const ADDRESS_SPACE: usize = 0x1_0000;

pub const PAGE_SIZE: usize = 0x100;

pub const PAGE_COUNT: usize = ADDRESS_SPACE / PAGE_SIZE;

/// The address one past `addr`, with ordinary 16-bit wraparound: the successor
/// of 0xFFFF is 0x0000, matching the real bus (and the program counter).
pub open spec fn wrap_inc(addr: u16) -> u16 {
    if addr == 0xFFFF {
        0
    } else {
        (addr + 1) as u16
    }
}

/// The low byte of a 16-bit value, stored first in little-endian order.
pub open spec fn spec_lo(value: u16) -> u8 {
    (value & 0xFF) as u8
}

/// The high byte of a 16-bit value, stored second in little-endian order.
pub open spec fn spec_hi(value: u16) -> u8 {
    ((value >> 8) & 0xFF) as u8
}

/// The 16-bit little-endian value read from `mem` at `addr`, whose second byte
/// comes from the wrapped successor address.
pub open spec fn spec_read16(mem: Seq<u8>, addr: u16) -> u16 {
    (mem[addr as int] as u16) | ((mem[wrap_inc(addr) as int] as u16) << 8)
}

/// Address resolution law: splitting an address into its high byte (page
/// selector) and low byte (index within the page) is exact, so every one of the
/// 65536 addresses resolves to exactly one page and one in-page offset.
pub proof fn lemma_addr_split(addr: u16)
    by (bit_vector)
    ensures
        addr >> 8 < 0x100,
        addr & 0xFF < 0x100,
        addr >> 8 == addr / 0x100,
        addr & 0xFF == addr % 0x100,
{
}

/// The two bytes of a 16-bit value fit in a byte each, and recombining them in
/// little-endian order gives the value back.
proof fn lemma_u16_le_bytes(value: u16)
    by (bit_vector)
    ensures
        value & 0xFF < 0x100,
        (value >> 8) & 0xFF < 0x100,
        (spec_lo(value) as u16) | ((spec_hi(value) as u16) << 8) == value,
{
}

/// A 256-byte chunk of address space, indexed by a `u8`. Can be wired to RAM,
/// ROM, or specialized hardware.
enum Page {
    /// Readable and writable memory.
    Ram(Vec<u8>),
}

impl Page {
    /// Every page kind backs exactly [`PAGE_SIZE`] addressable bytes.
    spec fn wf(&self) -> bool {
        match self {
            Page::Ram(ram) => ram@.len() == PAGE_SIZE,
        }
    }

    /// The bytes this page currently holds.
    spec fn contents(&self) -> Seq<u8> {
        match self {
            Page::Ram(ram) => ram@,
        }
    }

    fn read(&self, addr: u8) -> (r: u8)
        requires
            self.wf(),
        ensures
            r == self.contents()[addr as int],
    {
        match self {
            Page::Ram(ram) => ram[addr as usize],
        }
    }

    fn write(&mut self, addr: u8, value: u8)
        requires
            old(self).wf(),
        ensures
            final(self).wf(),
            final(self).contents() == old(self).contents().update(addr as int, value),
    {
        match self {
            Page::Ram(ram) => {
                ram[addr as usize] = value;
            },
        }
    }

    /// A fresh RAM page, initialized to 0xFF like unprogrammed hardware.
    fn new_ram() -> (r: Self)
        ensures
            r.wf(),
            forall|i: int| 0 <= i < PAGE_SIZE ==> r.contents()[i] == 0xFF,
    {
        let mut ram: Vec<u8> = Vec::new();
        let mut i: usize = 0;
        while i < PAGE_SIZE
            invariant
                i <= PAGE_SIZE,
                ram@.len() == i,
                forall|j: int| 0 <= j < i ==> ram@[j] == 0xFF,
            decreases PAGE_SIZE - i,
        {
            ram.push(0xFF);
            i = i + 1;
        }
        Page::Ram(ram)
    }
}

/// The main bus of the system. Divided into [`Page`]s based on the memory map.
/// Addresses are 16 bits wide and values are 8 bits wide.
pub struct Bus {
    pages: Vec<Page>,
}

impl View for Bus {
    type V = Seq<u8>;

    /// The bus as one flat 64 KiB byte sequence: position `addr` is byte
    /// `addr % 256` of page `addr / 256`.
    closed spec fn view(&self) -> Seq<u8> {
        Seq::new(
            ADDRESS_SPACE as nat,
            |i: int| self.pages[i / (PAGE_SIZE as int)].contents()[i % (PAGE_SIZE as int)],
        )
    }
}

impl Bus {
    /// Well-formedness: every one of the 65536 addresses resolves to a
    /// well-formed page. Constructors establish this and every method keeps it.
    pub closed spec fn wf(&self) -> bool {
        &&& self.pages@.len() == PAGE_COUNT
        &&& forall|p: int| 0 <= p < PAGE_COUNT ==> (#[trigger] self.pages[p]).wf()
    }

    /// Read an 8-bit value from the specified address.
    pub fn read(&self, addr: u16) -> (r: u8)
        requires
            self.wf(),
        ensures
            r == self@[addr as int],
    {
        proof {
            lemma_addr_split(addr);
        }
        let index = (addr & 0xFF) as u8;
        let page = (addr >> 8) as usize;

        self.pages[page].read(index)
    }

    /// Read a 16-bit little-endian value from the specified address.
    pub fn read16(&self, addr: u16) -> (r: u16)
        requires
            self.wf(),
        ensures
            r == spec_read16(self@, addr),
    {
        // Note that `addr + 1` could cross a page boundary or wrap around to 0x0000.
        let low = self.read(addr);
        let high = self.read(addr.wrapping_add(1));

        (low as u16) | ((high as u16) << 8)
    }

    /// Write an 8-bit value to the specified address.
    pub fn write(&mut self, addr: u16, value: u8)
        requires
            old(self).wf(),
        ensures
            final(self).wf(),
            final(self)@ == old(self)@.update(addr as int, value),
    {
        proof {
            lemma_addr_split(addr);
        }
        let index = (addr & 0xFF) as u8;
        let page = (addr >> 8) as usize;

        self.pages[page].write(index, value);

        proof {
            let pre = old(self)@;
            assert forall|i: int| 0 <= i < ADDRESS_SPACE implies self@[i] == pre.update(
                addr as int,
                value,
            )[i] by {
                vstd::arithmetic::div_mod::lemma_fundamental_div_mod(i, PAGE_SIZE as int);
                vstd::arithmetic::div_mod::lemma_fundamental_div_mod(addr as int, PAGE_SIZE as int);
                assert(0 <= i % (PAGE_SIZE as int) < PAGE_SIZE && 0 <= i / (PAGE_SIZE as int)
                    < PAGE_COUNT) by (nonlinear_arith)
                    requires
                        0 <= i < ADDRESS_SPACE,
                ;
            }
            assert(self@ =~= pre.update(addr as int, value));
        }
    }

    /// Write a 16-bit little-endian value to the specified address.
    pub fn write16(&mut self, addr: u16, value: u16)
        requires
            old(self).wf(),
        ensures
            final(self).wf(),
            final(self)@ == old(self)@.update(addr as int, spec_lo(value)).update(
                wrap_inc(addr) as int,
                spec_hi(value),
            ),
    {
        proof {
            lemma_u16_le_bytes(value);
        }
        let low = (value & 0xFF) as u8;
        let high = ((value >> 8) & 0xFF) as u8;

        // Note that `addr + 1` could cross a page boundary or wrap around to 0x0000.
        self.write(addr, low);
        self.write(addr.wrapping_add(1), high);
    }
}

impl Bus {
    /// Create a new [`Bus`] with the standard memory map for the DMG.
    pub fn new_dmg() -> (r: Self)
        ensures
            r.wf(),
            r@.len() == ADDRESS_SPACE,
            forall|i: int| 0 <= i < ADDRESS_SPACE ==> r@[i] == 0xFF,
    {
        Self::all_ram()
    }

    /// Create a new [`Bus`] with nothing but RAM, used to stage arbitrary
    /// register/memory states for single-instruction conformance testing.
    pub fn flat() -> (r: Self)
        ensures
            r.wf(),
            r@.len() == ADDRESS_SPACE,
            forall|i: int| 0 <= i < ADDRESS_SPACE ==> r@[i] == 0xFF,
    {
        Self::all_ram()
    }

    fn all_ram() -> (r: Self)
        ensures
            r.wf(),
            r@.len() == ADDRESS_SPACE,
            forall|i: int| 0 <= i < ADDRESS_SPACE ==> r@[i] == 0xFF,
    {
        let mut pages: Vec<Page> = Vec::new();
        let mut p: usize = 0;
        while p < PAGE_COUNT
            invariant
                p <= PAGE_COUNT,
                pages@.len() == p,
                forall|q: int| 0 <= q < p ==> (#[trigger] pages[q]).wf(),
                forall|q: int, j: int|
                    0 <= q < p && 0 <= j < PAGE_SIZE ==> (#[trigger] pages[q].contents()[j]) == 0xFF,
            decreases PAGE_COUNT - p,
        {
            pages.push(Page::new_ram());
            p = p + 1;
        }
        let r = Bus { pages };
        proof {
            assert forall|i: int| 0 <= i < ADDRESS_SPACE implies r@[i] == 0xFF by {
                assert(0 <= i / (PAGE_SIZE as int) < PAGE_COUNT && 0 <= i % (PAGE_SIZE as int)
                    < PAGE_SIZE) by (nonlinear_arith)
                    requires
                        0 <= i < ADDRESS_SPACE,
                ;
            }
        }
        r
    }
}

/// Bus address-space coverage law: for every address, writing a byte and
/// reading it back through the flat bus view returns the written value, leaves
/// every other address unchanged, and keeps the full address space mapped.
pub proof fn lemma_bus_round_trip(mem: Seq<u8>, addr: u16, value: u8)
    requires
        mem.len() == 0x1_0000,
    ensures
        mem.update(addr as int, value)[addr as int] == value,
        forall|other: u16|
            other != addr ==> mem.update(addr as int, value)[other as int] == mem[other as int],
        mem.update(addr as int, value).len() == 0x1_0000,
{
}

/// 16-bit wraparound law: writing a 16-bit value at any address, including
/// 0xFFFF, then reading 16 bits back from the same address returns that value;
/// at 0xFFFF the high byte lands at address 0x0000 (address-space wrap, not an
/// error).
pub proof fn lemma_write16_read16_round_trip(mem: Seq<u8>, addr: u16, value: u16)
    requires
        mem.len() == 0x1_0000,
    ensures
        spec_read16(
            mem.update(addr as int, spec_lo(value)).update(wrap_inc(addr) as int, spec_hi(value)),
            addr,
        ) == value,
        addr == 0xFFFF ==> mem.update(addr as int, spec_lo(value)).update(
            wrap_inc(addr) as int,
            spec_hi(value),
        )[0] == spec_hi(value),
{
    lemma_u16_le_bytes(value);
}

} // verus!
