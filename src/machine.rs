//! The processor state and its memory bus: a list of memory maps, each a device
//! seen through one or more address ranges of the CPU or the PPU.
use crate::ines::{Ines, BANK_SIZE};
use vstd::prelude::*;

verus! {

/// Address of the non-maskable interrupt vector.
pub const NMI_VECTOR: u16 = 0xFFFA;

/// Address of the reset vector.
pub const RESET_VECTOR: u16 = 0xFFFC;

/// Address of the IRQ and `BRK` vector.
pub const BRK_VECTOR: u16 = 0xFFFE;

/// A half-open range of addresses: `0` inclusive, `1` exclusive.
#[derive(Debug, Clone, Copy, PartialEq, Eq, Structural)]
pub struct Range(pub u16, pub u16);

impl Range {
    pub fn contains(&self, value: u16) -> (r: bool)
        ensures
            r == (self.0 <= value && value < self.1),
    {
        value >= self.0 && value < self.1
    }
}

/// The CPU's address space, or the PPU's.
#[derive(Debug, Clone, Copy, PartialEq, Eq, Structural)]
pub enum AddressSpace {
    Cpu,
    Ppu,
}

/// An inclusive range of addresses in one address space.
#[derive(Debug, Clone, Copy, PartialEq, Eq, Structural)]
pub struct MemoryRegion {
    pub address_space: AddressSpace,
    pub start: u16,
    pub end: u16,
}

/// What answers on the bus.
pub enum Device {
    /// Writable bytes, indexed from the start of the region.
    Ram(Vec<u8>),
    /// An 8 KiB bank of the image, by index.
    Rom(usize),
    /// The 32 bytes of palette memory.
    Palette(Vec<u8>),
    /// The PPU's registers, seen by the CPU.
    PpuRegisters,
}

/// A device mapped to regions of the CPU or PPU bus.
pub struct MemoryMap {
    pub memory_regions: Vec<MemoryRegion>,
    pub device: Device,
}

/// What the CPU sees of the PPU.
#[derive(Debug, Clone, Copy, PartialEq, Eq, Structural)]
pub struct PpuState {
    /// Set by writing to PPUADDR: first the high byte, then the low byte.
    pub tmp_addr: Option<u16>,
    /// The value buffered for the next read of PPUDATA.
    pub tmp_val: u8,
    pub vblank: bool,
    pub sprite_0_hit: bool,
    pub sprite_overflow: bool,
}

impl PpuState {
    pub open spec fn initial() -> PpuState {
        PpuState { tmp_addr: None, tmp_val: 0, vblank: false, sprite_0_hit: false, sprite_overflow: false }
    }

    pub fn new() -> (r: PpuState)
        ensures
            r == PpuState::initial(),
    {
        PpuState { tmp_addr: None, tmp_val: 0, vblank: false, sprite_0_hit: false, sprite_overflow: false }
    }
}

/// The state of the machine: registers, and every device mapped to memory.
pub struct State {
    /// Program counter.
    pub pc: u16,
    /// Accumulator.
    pub a: u8,
    pub x: u8,
    pub y: u8,
    /// Status register: `NV-BDIZC`.
    pub sr: u8,
    /// Stack pointer: the stack is the page `$0100..=$01FF`.
    pub sp: u8,
    /// Cycle counter. Instruction costs are not modelled: execution leaves it as it is.
    pub cycles: u64,
    /// The cartridge.
    pub ines: Ines,
    /// The memory maps; the first one that holds an address answers for it.
    pub memory: Vec<MemoryMap>,
    pub ppu_state: PpuState,
}

/// Whether the region holds the address.
pub open spec fn region_hit(r: MemoryRegion, space: AddressSpace, addr: u16) -> bool {
    r.address_space == space && r.start <= addr && addr <= r.end
}

/// The start of the first region from index `j` on that holds the address.
pub open spec fn region_from(rs: Seq<MemoryRegion>, space: AddressSpace, addr: u16, j: int) -> Option<u16>
    decreases rs.len() - j,
{
    if j < 0 || j >= rs.len() {
        None
    } else if region_hit(rs[j], space, addr) {
        Some(rs[j].start)
    } else {
        region_from(rs, space, addr, j + 1)
    }
}

/// The first map from index `i` on with a region that holds the address: its index and
/// the start of that region.
pub open spec fn map_from(ms: Seq<MemoryMap>, space: AddressSpace, addr: u16, i: int) -> Option<(int, u16)>
    decreases ms.len() - i,
{
    if i < 0 || i >= ms.len() {
        None
    } else {
        match region_from(ms[i].memory_regions@, space, addr, 0) {
            Some(start) => Some((i, start)),
            None => map_from(ms, space, addr, i + 1),
        }
    }
}

/// The map that answers for an address, and the start of the region it is seen through.
pub open spec fn locate(ms: Seq<MemoryMap>, space: AddressSpace, addr: u16) -> Option<(int, u16)> {
    map_from(ms, space, addr, 0)
}

pub proof fn lemma_region_from_hit(rs: Seq<MemoryRegion>, space: AddressSpace, addr: u16, j: int)
    requires
        0 <= j,
    ensures
        region_from(rs, space, addr, j) matches Some(start) ==> start <= addr,
    decreases rs.len() - j,
{
    if j < rs.len() && !region_hit(rs[j], space, addr) {
        lemma_region_from_hit(rs, space, addr, j + 1);
    }
}

pub proof fn lemma_map_from_hit(ms: Seq<MemoryMap>, space: AddressSpace, addr: u16, i: int)
    requires
        0 <= i,
    ensures
        map_from(ms, space, addr, i) matches Some((k, start)) ==> 0 <= k < ms.len() && start <= addr,
    decreases ms.len() - i,
{
    if i < ms.len() {
        lemma_region_from_hit(ms[i].memory_regions@, space, addr, 0);
        if region_from(ms[i].memory_regions@, space, addr, 0) is None {
            lemma_map_from_hit(ms, space, addr, i + 1);
        }
    }
}

/// The palette cell of a PPU address: the low five bits, with the sprite
/// backdrop entries `$10/$14/$18/$1C` folded onto `$00/$04/$08/$0C`.
pub open spec fn palette_index(addr: u16) -> int {
    let a = addr & 0x1F;
    if a == 0x10 || a == 0x14 || a == 0x18 || a == 0x1C {
        a - 0x10
    } else {
        a as int
    }
}

/// The byte a device holds for an address seen through a region starting at `start`;
/// zero where the device holds nothing there.
pub open spec fn device_byte(banks: Seq<u8>, d: Device, start: u16, addr: u16) -> u8 {
    let off = addr - start;
    match d {
        Device::Ram(b) => if off < b@.len() { b@[off] } else { 0 },
        Device::Rom(i) => if off < BANK_SIZE && i < (banks.len() as int) / (BANK_SIZE as int) {
            banks[i * BANK_SIZE + off]
        } else {
            0
        },
        Device::Palette(b) => if palette_index(addr) < b@.len() { b@[palette_index(addr)] } else { 0 },
        Device::PpuRegisters => 0,
    }
}

/// The status register of the PPU: vblank, sprite-0 hit and sprite overflow in bits 7, 6, 5.
pub open spec fn status_byte(p: PpuState) -> u8 {
    ((if p.vblank { 0x80int } else { 0 }) + (if p.sprite_0_hit { 0x40int } else { 0 })
        + (if p.sprite_overflow { 0x20int } else { 0 })) as u8
}

/// Addresses of the palette in the PPU's space.
pub open spec fn is_palette_addr(t: u16) -> bool {
    0x3F00 <= t
}

/// The latch after a write of `val` to PPUADDR: the first write gives the high byte,
/// a later one the low byte.
pub open spec fn latch_after_write(p: Option<u16>, val: u8) -> Option<u16> {
    match p {
        None => Some(((val as u16) << 8u16) as u16),
        Some(x) => Some((x & 0xFF00u16) | (val as u16)),
    }
}

/// The storage of a writable device.
pub open spec fn storage(d: Device) -> Seq<u8> {
    match d {
        Device::Ram(b) => b@,
        Device::Palette(b) => b@,
        _ => Seq::empty(),
    }
}

/// `new` is `old` with the byte at `k` of map `i`'s storage set to `val`.
pub open spec fn device_updated(old: Device, new: Device, k: int, val: u8) -> bool {
    match old {
        Device::Ram(b) => new matches Device::Ram(nb) && nb@ == b@.update(k, val),
        Device::Palette(b) => new matches Device::Palette(nb) && nb@ == b@.update(k, val),
        _ => new == old,
    }
}

/// The maps after storing `val` in `cell` (map index, index in its storage), if any.
pub open spec fn memory_updated(old: Seq<MemoryMap>, new: Seq<MemoryMap>, cell: Option<(int, int)>, val: u8) -> bool {
    &&& new.len() == old.len()
    &&& forall|i: int|
        0 <= i < old.len() ==> {
            &&& (#[trigger] new[i]).memory_regions == old[i].memory_regions
            &&& match cell {
                Some((ci, k)) => if ci == i {
                    device_updated(old[i].device, new[i].device, k, val)
                } else {
                    new[i].device == old[i].device
                },
                None => new[i].device == old[i].device,
            }
        }
}

/// The byte a device holds for an address; the PPU registers and unmapped
/// addresses read as zero here.
#[verifier::opaque]
pub open spec fn bus_plain_value(ms: Seq<MemoryMap>, banks: Seq<u8>, p: PpuState, space: AddressSpace, addr: u16) -> u8 {
    match locate(ms, space, addr) {
        Some((i, start)) => device_byte(banks, ms[i].device, start, addr),
        None => 0,
    }
}

/// What a read of the bus returns.
#[verifier::opaque]
pub open spec fn bus_read_value(ms: Seq<MemoryMap>, banks: Seq<u8>, p: PpuState, space: AddressSpace, addr: u16, read_only: bool) -> u8 {
    match locate(ms, space, addr) {
        Some((i, start)) => match ms[i].device {
            Device::PpuRegisters => {
                let reg = addr & 7;
                if reg == 2 {
                    status_byte(p)
                } else if reg == 7 {
                    match p.tmp_addr {
                        Some(t) => if is_palette_addr(t) {
                            bus_plain_value(ms, banks, p, AddressSpace::Ppu, t)
                        } else {
                            p.tmp_val
                        },
                        None => p.tmp_val,
                    }
                } else {
                    0
                }
            },
            _ => device_byte(banks, ms[i].device, start, addr),
        },
        None => 0,
    }
}

/// The PPU state after a read of the bus. A read-only read changes nothing; a read of
/// PPUSTATUS clears vblank and the latch; a read of PPUDATA refills the buffer.
#[verifier::opaque]
pub open spec fn bus_ppu_after_read(ms: Seq<MemoryMap>, banks: Seq<u8>, p: PpuState, space: AddressSpace, addr: u16, read_only: bool) -> PpuState {
    if read_only {
        p
    } else {
        match locate(ms, space, addr) {
            Some((i, start)) => match ms[i].device {
                Device::PpuRegisters => {
                    let reg = addr & 7;
                    if reg == 2 {
                        PpuState { vblank: false, tmp_addr: None, ..p }
                    } else if reg == 7 {
                        match p.tmp_addr {
                            Some(t) => PpuState { tmp_val: bus_plain_value(ms, banks, p, AddressSpace::Ppu, t), ..p },
                            None => p,
                        }
                    } else {
                        p
                    }
                },
                _ => p,
            },
            None => p,
        }
    }
}

/// The storage cell that holds an address, if a writable device answers for it.
#[verifier::opaque]
pub open spec fn bus_plain_cell(ms: Seq<MemoryMap>, banks: Seq<u8>, p: PpuState, space: AddressSpace, addr: u16) -> Option<(int, int)> {
    match locate(ms, space, addr) {
        Some((i, start)) => match ms[i].device {
            Device::Ram(b) => if addr - start < b@.len() { Some((i, addr - start)) } else { None },
            Device::Palette(b) => if palette_index(addr) < b@.len() {
                Some((i, palette_index(addr)))
            } else {
                None
            },
            _ => None,
        },
        None => None,
    }
}

/// The cell that a write of the bus stores into: a write to PPUDATA goes to the
/// latched PPU address.
#[verifier::opaque]
pub open spec fn bus_write_cell(ms: Seq<MemoryMap>, banks: Seq<u8>, p: PpuState, space: AddressSpace, addr: u16) -> Option<(int, int)> {
    match locate(ms, space, addr) {
        Some((i, start)) => match ms[i].device {
            Device::PpuRegisters => if addr & 7 == 7 {
                match p.tmp_addr {
                    Some(t) => bus_plain_cell(ms, banks, p, AddressSpace::Ppu, t),
                    None => None,
                }
            } else {
                None
            },
            _ => bus_plain_cell(ms, banks, p, space, addr),
        },
        None => None,
    }
}

/// The PPU state after a write of the bus: a write to PPUADDR moves the latch.
#[verifier::opaque]
pub open spec fn bus_ppu_after_write(ms: Seq<MemoryMap>, banks: Seq<u8>, p: PpuState, space: AddressSpace, addr: u16, val: u8) -> PpuState {
            match locate(ms, space, addr) {
        Some((i, start)) => match ms[i].device {
            Device::PpuRegisters => if addr & 7 == 6 {
                PpuState { tmp_addr: latch_after_write(p.tmp_addr, val), ..p }
            } else {
                p
            },
            _ => p,
        },
        None => p,
    }
}

impl State {
    /// The registers of two states agree.
    pub open spec fn same_registers(&self, o: State) -> bool {
        &&& self.pc == o.pc
        &&& self.a == o.a
        &&& self.x == o.x
        &&& self.y == o.y
        &&& self.sr == o.sr
        &&& self.sp == o.sp
        &&& self.cycles == o.cycles
    }

    /// The byte a device holds for an address; the PPU registers and unmapped
    /// addresses read as zero here.
    pub open spec fn plain_value(&self, space: AddressSpace, addr: u16) -> u8 {
        bus_plain_value(self.memory@, self.ines.banks@, self.ppu_state, space, addr)
    }

    /// What a read of the bus returns.
    pub open spec fn read_value(&self, space: AddressSpace, addr: u16, read_only: bool) -> u8 {
        bus_read_value(self.memory@, self.ines.banks@, self.ppu_state, space, addr, read_only)
    }

    /// The PPU state after a read of the bus. A read-only read changes nothing; a read of
    /// PPUSTATUS clears vblank and the latch; a read of PPUDATA refills the buffer.
    pub open spec fn ppu_after_read(&self, space: AddressSpace, addr: u16, read_only: bool) -> PpuState {
        bus_ppu_after_read(self.memory@, self.ines.banks@, self.ppu_state, space, addr, read_only)
    }

    /// The state after a read of the bus: only the PPU state changes.
    pub open spec fn after_read(&self, space: AddressSpace, addr: u16, read_only: bool) -> State {
        State { ppu_state: self.ppu_after_read(space, addr, read_only), ..*self }
    }

    /// The storage cell that holds an address, if a writable device answers for it.
    pub open spec fn plain_cell(&self, space: AddressSpace, addr: u16) -> Option<(int, int)> {
        bus_plain_cell(self.memory@, self.ines.banks@, self.ppu_state, space, addr)
    }

    /// The cell that a write of the bus stores into: a write to PPUDATA goes to the
    /// latched PPU address.
    pub open spec fn write_cell(&self, space: AddressSpace, addr: u16) -> Option<(int, int)> {
        bus_write_cell(self.memory@, self.ines.banks@, self.ppu_state, space, addr)
    }

    /// The PPU state after a write of the bus: a write to PPUADDR moves the latch.
    pub open spec fn ppu_after_write(&self, space: AddressSpace, addr: u16, val: u8) -> PpuState {
        bus_ppu_after_write(self.memory@, self.ines.banks@, self.ppu_state, space, addr, val)
    }

    /// `f` is this state after a write of `val` to the bus.
    pub open spec fn wrote(&self, f: State, space: AddressSpace, addr: u16, val: u8) -> bool {
        &&& f.same_registers(*self)
        &&& f.ines == self.ines
        &&& f.ppu_state == self.ppu_after_write(space, addr, val)
        &&& memory_updated(self.memory@, f.memory@, self.write_cell(space, addr), val)
    }
}

/// A read-only read changes nothing.
pub proof fn lemma_read_only_keeps_state(s: State, space: AddressSpace, addr: u16)
    ensures
        s.after_read(space, addr, true) == s,
{
    reveal(bus_ppu_after_read);
}

/// An address that no map holds reads as zero, and a write to it changes no memory.
pub proof fn lemma_unmapped_address(s: State, f: State, space: AddressSpace, addr: u16, val: u8)
    requires
        locate(s.memory@, space, addr) is None,
        s.wrote(f, space, addr, val),
    ensures
        s.read_value(space, addr, false) == 0,
        f.memory@.len() == s.memory@.len(),
        forall|i: int| 0 <= i < s.memory@.len() ==> (#[trigger] f.memory@[i]).device == s.memory@[i].device,
        f.ppu_state == s.ppu_state,
{
    reveal(bus_read_value);
    reveal(bus_write_cell);
    reveal(bus_ppu_after_write);
}

/// A write that lands on a ROM bank changes no memory.
pub proof fn lemma_rom_write_dropped(s: State, f: State, addr: u16, val: u8)
    requires
        locate(s.memory@, AddressSpace::Cpu, addr) matches Some((i, _start)) && s.memory@[i].device is Rom,
        s.wrote(f, AddressSpace::Cpu, addr, val),
    ensures
        forall|i: int| 0 <= i < s.memory@.len() ==> (#[trigger] f.memory@[i]).device == s.memory@[i].device,
{
    reveal(bus_write_cell);
    reveal(bus_plain_cell);
}

/// Finds the first region of a map that holds the address.
fn find_region(rs: &Vec<MemoryRegion>, space: AddressSpace, addr: u16) -> (r: Option<u16>)
    ensures
        r == region_from(rs@, space, addr, 0),
{
    let mut j: usize = 0;
    while j < rs.len()
        invariant
            j <= rs@.len(),
            region_from(rs@, space, addr, 0) == region_from(rs@, space, addr, j as int),
        decreases rs@.len() - j,
    {
        let r = rs[j];
        if r.address_space == space && r.start <= addr && addr <= r.end {
            return Some(r.start);
        }
        j = j + 1;
    }
    None
}

/// Finds the map that answers for an address, and the start of its region.
fn try_address(memory: &Vec<MemoryMap>, address_space: AddressSpace, address: u16) -> (r: Option<(usize, u16)>)
    ensures
        match r {
            Some((i, start)) => locate(memory@, address_space, address) == Some((i as int, start)),
            None => locate(memory@, address_space, address) is None,
        },
{
    let mut i: usize = 0;
    while i < memory.len()
        invariant
            i <= memory@.len(),
            locate(memory@, address_space, address) == map_from(memory@, address_space, address, i as int),
        decreases memory@.len() - i,
    {
        match find_region(&memory[i].memory_regions, address_space, address) {
            Some(start) => {
                return Some((i, start));
            },
            None => {},
        }
        i = i + 1;
    }
    None
}

/// The palette cell of a PPU address.
fn palette_slot(addr: u16) -> (r: usize)
    ensures
        r == palette_index(addr),
        r < 32,
{
    let a = addr & 0x1F;
    assert(a < 32) by (bit_vector)
        requires
            a == addr & 0x1F,
    ;
    if a == 0x10 || a == 0x14 || a == 0x18 || a == 0x1C {
        (a - 0x10) as usize
    } else {
        a as usize
    }
}

impl State {
    /// The byte a device holds for an address, without side effects.
    fn plain_read(&self, space: AddressSpace, addr: u16) -> (r: u8)
        ensures
            r == self.plain_value(space, addr),
    {
        proof {
            reveal(bus_plain_value);
            reveal(bus_read_value);
            reveal(bus_ppu_after_read);
            reveal(bus_plain_cell);
            reveal(bus_write_cell);
            reveal(bus_ppu_after_write);
            lemma_map_from_hit(self.memory@, space, addr, 0);
        }
        match try_address(&self.memory, space, addr) {
            Some((i, start)) => {
                let off = (addr - start) as usize;
                match &self.memory[i].device {
                    Device::Ram(b) => if off < b.len() {
                        b[off]
                    } else {
                        0
                    },
                    Device::Rom(k) => {
                        let k = *k;
                        if off < BANK_SIZE && k < self.ines.banks.len() / BANK_SIZE {
                            proof {
                                let n = self.ines.banks@.len() as int;
                                assert(k * BANK_SIZE + off < n) by (nonlinear_arith)
                                    requires
                                        off < BANK_SIZE,
                                        k < n / (BANK_SIZE as int),
                                        BANK_SIZE == 8192,
                                        n >= 0,
                                ;
                            }
                            self.ines.banks[k * BANK_SIZE + off]
                        } else {
                            0
                        }
                    },
                    Device::Palette(b) => {
                        let s = palette_slot(addr);
                        if s < b.len() {
                            b[s]
                        } else {
                            0
                        }
                    },
                    Device::PpuRegisters => 0,
                }
            },
            None => 0,
        }
    }

    /// Stores a byte in a cell of a writable device.
    fn store(&mut self, i: usize, k: usize, val: u8)
        requires
            i < old(self).memory@.len(),
            k < storage(old(self).memory@[i as int].device).len(),
        ensures
            final(self).same_registers(*old(self)),
            final(self).ines == old(self).ines,
            final(self).ppu_state == old(self).ppu_state,
            memory_updated(old(self).memory@, final(self).memory@, Some((i as int, k as int)), val),
    {
        match &mut self.memory[i].device {
            Device::Ram(b) => {
                b[k] = val;
            },
            Device::Palette(b) => {
                b[k] = val;
            },
            _ => {},
        }
    }

    /// Writes a byte to a device, without the PPU registers.
    fn plain_write(&mut self, space: AddressSpace, addr: u16, val: u8)
        ensures
            final(self).same_registers(*old(self)),
            final(self).ines == old(self).ines,
            final(self).ppu_state == old(self).ppu_state,
            memory_updated(old(self).memory@, final(self).memory@, old(self).plain_cell(space, addr), val),
    {
        proof {
            reveal(bus_plain_value);
            reveal(bus_read_value);
            reveal(bus_ppu_after_read);
            reveal(bus_plain_cell);
            reveal(bus_write_cell);
            reveal(bus_ppu_after_write);
            lemma_map_from_hit(self.memory@, space, addr, 0);
        }
        match try_address(&self.memory, space, addr) {
            Some((i, start)) => {
                let off = (addr - start) as usize;
                let cell: Option<usize> = match &self.memory[i].device {
                    Device::Ram(b) => if off < b.len() {
                        Some(off)
                    } else {
                        None
                    },
                    Device::Palette(b) => {
                        let s = palette_slot(addr);
                        if s < b.len() {
                            Some(s)
                        } else {
                            None
                        }
                    },
                    _ => None,
                };
                match cell {
                    Some(k) => self.store(i, k, val),
                    None => {
                        assert(memory_updated(self.memory@, self.memory@, None, val));
                    },
                }
            },
            None => {
                assert(memory_updated(self.memory@, self.memory@, None, val));
            },
        }
    }

    /// Writes a byte to the bus.
    fn write_to_bus(&mut self, address: u16, value: u8, bus: AddressSpace)
        ensures
            old(self).wrote(*final(self), bus, address, value),
    {
        proof {
            reveal(bus_plain_value);
            reveal(bus_read_value);
            reveal(bus_ppu_after_read);
            reveal(bus_plain_cell);
            reveal(bus_write_cell);
            reveal(bus_ppu_after_write);
            lemma_map_from_hit(self.memory@, bus, address, 0);
        }
        match try_address(&self.memory, bus, address) {
            Some((i, _start)) => {
                if let Device::PpuRegisters = &self.memory[i].device {
                    let reg = address & 7;
                    if reg == 6 {
                        let latch = match self.ppu_state.tmp_addr {
                            None => Some((value as u16) << 8u16),
                            Some(x) => Some((x & 0xFF00u16) | (value as u16)),
                        };
                        self.ppu_state.tmp_addr = latch;
                        assert(memory_updated(self.memory@, self.memory@, None, value));
                    } else if reg == 7 {
                        match self.ppu_state.tmp_addr {
                            Some(t) => self.plain_write(AddressSpace::Ppu, t, value),
                            None => {
                                assert(memory_updated(self.memory@, self.memory@, None, value));
                            },
                        }
                    } else {
                        assert(memory_updated(self.memory@, self.memory@, None, value));
                    }
                } else {
                    self.plain_write(bus, address, value);
                }
            },
            None => {
                self.plain_write(bus, address, value);
            },
        }
    }

    /// Reads a byte from the bus. A read-only read changes nothing.
    fn read_from_bus(&mut self, address: u16, read_only: bool, bus: AddressSpace) -> (r: u8)
        ensures
            r == old(self).read_value(bus, address, read_only),
            *final(self) == old(self).after_read(bus, address, read_only),
    {
        proof {
            reveal(bus_plain_value);
            reveal(bus_read_value);
            reveal(bus_ppu_after_read);
            reveal(bus_plain_cell);
            reveal(bus_write_cell);
            reveal(bus_ppu_after_write);
            lemma_map_from_hit(self.memory@, bus, address, 0);
        }
        match try_address(&self.memory, bus, address) {
            Some((i, _start)) => {
                if let Device::PpuRegisters = &self.memory[i].device {
                    let reg = address & 7;
                    if reg == 2 {
                        let p = self.ppu_state;
                        let to_return = (if p.vblank { 0x80u8 } else { 0 }) + (if p.sprite_0_hit {
                            0x40u8
                        } else {
                            0
                        }) + (if p.sprite_overflow { 0x20u8 } else { 0 });
                        if !read_only {
                            self.ppu_state.vblank = false;
                            self.ppu_state.tmp_addr = None;
                        }
                        to_return
                    } else if reg == 7 {
                        let mut to_return = self.ppu_state.tmp_val;
                        if let Some(t) = self.ppu_state.tmp_addr {
                            let fresh = self.plain_read(AddressSpace::Ppu, t);
                            if !read_only {
                                self.ppu_state.tmp_val = fresh;
                            }
                            // Palette reads are not delayed by the buffer.
                            if t >= 0x3F00 {
                                to_return = fresh;
                            }
                        }
                        to_return
                    } else {
                        0
                    }
                } else {
                    self.plain_read(bus, address)
                }
            },
            None => 0,
        }
    }

    /// Reads from the CPU bus.
    pub fn read(&mut self, address: u16, read_only: bool) -> (r: u8)
        ensures
            r == old(self).read_value(AddressSpace::Cpu, address, read_only),
            *final(self) == old(self).after_read(AddressSpace::Cpu, address, read_only),
    {
        self.read_from_bus(address, read_only, AddressSpace::Cpu)
    }

    /// Writes to the CPU bus.
    pub fn write(&mut self, address: u16, value: u8)
        ensures
            old(self).wrote(*final(self), AddressSpace::Cpu, address, value),
    {
        self.write_to_bus(address, value, AddressSpace::Cpu)
    }

    /// Reads from the PPU bus.
    pub fn ppu_read(&mut self, address: u16, read_only: bool) -> (r: u8)
        ensures
            r == old(self).read_value(AddressSpace::Ppu, address, read_only),
            *final(self) == old(self).after_read(AddressSpace::Ppu, address, read_only),
    {
        self.read_from_bus(address, read_only, AddressSpace::Ppu)
    }

    /// Writes to the PPU bus.
    pub fn ppu_write(&mut self, address: u16, value: u8)
        ensures
            old(self).wrote(*final(self), AddressSpace::Ppu, address, value),
    {
        self.write_to_bus(address, value, AddressSpace::Ppu)
    }
}

} // verus!

verus! {

/// What an addressing mode hands to an opcode.
#[derive(Debug, Clone, Copy, PartialEq, Eq, Structural)]
pub enum MemoryTarget {
    Address(u16),
    Accumulator,
    Impl,
}

/// `a + b` on sixteen bits, wrapping.
pub open spec fn add16(a: int, b: int) -> u16 {
    ((a + b) % 0x10000) as u16
}

/// The sixteen-bit value of a low and a high byte.
pub open spec fn word(lo: u8, hi: u8) -> u16 {
    (lo + hi * 256) as u16
}

/// What a CPU read (not read-only) returns.
pub open spec fn rd(s: State, addr: u16) -> u8 {
    s.read_value(AddressSpace::Cpu, addr, false)
}

/// The state after a CPU read (not read-only).
pub open spec fn ard(s: State, addr: u16) -> State {
    s.after_read(AddressSpace::Cpu, addr, false)
}

/// `f` is `s` after a CPU write.
pub open spec fn wr(s: State, f: State, addr: u16, v: u8) -> bool {
    s.wrote(f, AddressSpace::Cpu, addr, v)
}

/// The flag bit set or cleared in a status byte.
pub open spec fn with_flag(sr: u8, flag: u8, on: bool) -> u8 {
    if on {
        sr | flag
    } else {
        sr & !flag
    }
}

/// Is the flag set in a status byte?
pub open spec fn flag_set(sr: u8, flag: u8) -> bool {
    sr & flag == flag
}

impl State {
    pub fn set_flag(&mut self, flag: u8, value: bool)
        ensures
            *final(self) == (State { sr: with_flag(old(self).sr, flag, value), ..*old(self) }),
    {
        if value {
            self.sr = self.sr | flag;
        } else {
            self.sr = self.sr & !flag;
        }
    }

    pub fn get_flag(&self, flag: u8) -> (r: bool)
        ensures
            r == flag_set(self.sr, flag),
    {
        (self.sr & flag) == flag
    }

    /// Reads a little-endian word from the CPU bus.
    pub fn read_u16(&mut self, val: u16) -> (r: u16)
        ensures
            r == word(rd(*old(self), val), rd(ard(*old(self), val), add16(val as int, 1))),
            *final(self) == ard(ard(*old(self), val), add16(val as int, 1)),
    {
        let lo = self.read(val, false);
        let hi = self.read(val.wrapping_add(1), false);
        lo as u16 + (hi as u16) * 256
    }

    /// A soft reset: the program counter is loaded from the reset vector, read without side effects.
    pub fn reset(&mut self)
        ensures
            *final(self) == (State {
                pc: word(
                    old(self).read_value(AddressSpace::Cpu, RESET_VECTOR, true),
                    old(self).read_value(AddressSpace::Cpu, (RESET_VECTOR + 1) as u16, true),
                ),
                ..*old(self)
            }),
    {
        proof {
            reveal(bus_ppu_after_read);
        }
        let lo = self.read(RESET_VECTOR, true);
        let hi = self.read(RESET_VECTOR + 1, true);
        self.pc = lo as u16 + (hi as u16) * 256;
    }

    /// Advances the program counter by one, wrapping.
    pub fn inc_pc(&mut self)
        ensures
            *final(self) == (State { pc: add16(old(self).pc as int, 1), ..*old(self) }),
    {
        self.pc = self.pc.wrapping_add(1);
    }
}

} // verus!
