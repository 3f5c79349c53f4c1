//! Building the machine from an image, and running it one instruction at a time.
use crate::addressing_modes::{self, decode};
use crate::ines::Ines;
use crate::isa::{codepoint, codepoint_of};
use crate::machine::{
    ard, bus_plain_cell, bus_read_value, bus_write_cell, locate, rd, region_from, word, AddressSpace,
    Device, MemoryMap, MemoryRegion, PpuState, State, RESET_VECTOR,
};
use crate::opcodes::{self, executes};
use vstd::prelude::*;

verus! {

pub open spec fn cpu_range(start: u16, end: u16) -> MemoryRegion {
    MemoryRegion { address_space: AddressSpace::Cpu, start, end }
}

pub open spec fn ppu_range(start: u16, end: u16) -> MemoryRegion {
    MemoryRegion { address_space: AddressSpace::Ppu, start, end }
}

/// A map of zeroed RAM of `len` bytes seen through `regions`.
pub open spec fn is_ram(m: MemoryMap, regions: Seq<MemoryRegion>, len: nat) -> bool {
    &&& m.memory_regions@ == regions
    &&& (m.device matches Device::Ram(b) && b@ == Seq::new(len, |_i: int| 0u8))
}

/// A map of the image's bank `bank` seen through `regions`.
pub open spec fn is_rom(m: MemoryMap, regions: Seq<MemoryRegion>, bank: usize) -> bool {
    m.memory_regions@ == regions && m.device == Device::Rom(bank)
}

/// The standard NROM layout. With one PRG unit its two 8 KiB banks are mirrored at
/// `$C000` and `$E000`; with two, the four banks fill `$8000..=$FFFF`. The CHR bank
/// follows the PRG banks.
pub open spec fn standard_layout(ms: Seq<MemoryMap>, prg: u16) -> bool {
    let n = if prg == 1 { 2int } else { 4int };
    &&& ms.len() == n + 5
    &&& is_ram(ms[0], seq![cpu_range(0x0000, 0x07FF)], 0x800)
    &&& if prg == 1 {
        &&& is_rom(ms[1], seq![cpu_range(0x8000, 0x9FFF), cpu_range(0xC000, 0xDFFF)], 0)
        &&& is_rom(ms[2], seq![cpu_range(0xA000, 0xBFFF), cpu_range(0xE000, 0xFFFF)], 1)
    } else {
        &&& is_rom(ms[1], seq![cpu_range(0x8000, 0x9FFF)], 0)
        &&& is_rom(ms[2], seq![cpu_range(0xA000, 0xBFFF)], 1)
        &&& is_rom(ms[3], seq![cpu_range(0xC000, 0xDFFF)], 2)
        &&& is_rom(ms[4], seq![cpu_range(0xE000, 0xFFFF)], 3)
    }
    &&& is_rom(ms[n + 1], seq![ppu_range(0x0000, 0x1FFF)], n as usize)
    &&& is_ram(ms[n + 2], seq![ppu_range(0x2000, 0x3EFF)], 0x1F00)
    &&& ms[n + 3].memory_regions@ == seq![ppu_range(0x3F00, 0x3FFF)]
    &&& (ms[n + 3].device matches Device::Palette(b) && b@ == Seq::new(32, |_i: int| 0u8))
    &&& ms[n + 4].memory_regions@ == seq![cpu_range(0x2000, 0x3FFF)]
    &&& ms[n + 4].device == Device::PpuRegisters
}

/// `n` zero bytes.
fn zeroed(n: usize) -> (r: Vec<u8>)
    ensures
        r@ == Seq::new(n as nat, |_i: int| 0u8),
{
    let mut r: Vec<u8> = Vec::new();
    while r.len() < n
        invariant
            r.len() <= n,
            r@ == Seq::new(r.len() as nat, |_i: int| 0u8),
        decreases n - r.len(),
    {
        r.push(0);
        assert(r@ =~= Seq::new(r.len() as nat, |_i: int| 0u8));
    }
    r
}

/// A device seen through one region.
fn map_of(region: MemoryRegion, device: Device) -> (r: MemoryMap)
    ensures
        r.memory_regions@ == seq![region],
        r.device == device,
{
    let mut regions: Vec<MemoryRegion> = Vec::new();
    regions.push(region);
    assert(regions@ =~= seq![region]);
    MemoryMap { memory_regions: regions, device }
}

/// A device seen through two regions.
fn map_of_two(first: MemoryRegion, second: MemoryRegion, device: Device) -> (r: MemoryMap)
    ensures
        r.memory_regions@ == seq![first, second],
        r.device == device,
{
    let mut regions: Vec<MemoryRegion> = Vec::new();
    regions.push(first);
    regions.push(second);
    assert(regions@ =~= seq![first, second]);
    MemoryMap { memory_regions: regions, device }
}

fn cpu(start: u16, end: u16) -> (r: MemoryRegion)
    ensures
        r == cpu_range(start, end),
{
    MemoryRegion { address_space: AddressSpace::Cpu, start, end }
}

fn ppu(start: u16, end: u16) -> (r: MemoryRegion)
    ensures
        r == ppu_range(start, end),
{
    MemoryRegion { address_space: AddressSpace::Ppu, start, end }
}

/// One instruction: fetch the opcode byte at the program counter, decode its mode, run it.
#[verifier::opaque]
pub open spec fn steps(s: State, f: State) -> bool {
    let c = codepoint_of(rd(s, s.pc));
    let (t, s2) = decode(c.addressing_mode, ard(s, s.pc));
    executes(c.opcode, t, s2, f)
}

/// `n` instructions lead from `s` to `f`.
pub open spec fn runs(s: State, f: State, n: nat) -> bool
    decreases n,
{
    if n == 0 {
        f == s
    } else {
        exists|m: State| runs(s, m, (n - 1) as nat) && #[trigger] steps(m, f)
    }
}

proof fn lemma_runs_one_more(s: State, m: State, f: State, n: nat)
    requires
        runs(s, m, n),
        steps(m, f),
    ensures
        runs(s, f, n + 1),
{
    assert(((n + 1) as nat - 1) as nat == n);
    assert(runs(s, m, ((n + 1) as nat - 1) as nat));
}

impl State {
    /// Builds the machine for an image: the standard memory maps, the registers cleared,
    /// the stack pointer at `$FF`, and the program counter loaded from the reset vector.
    pub fn new(ines: Ines) -> (r: State)
        ensures
            standard_layout(r.memory@, ines.inesprg),
            r.ines == ines,
            r.a == 0 && r.x == 0 && r.y == 0 && r.sr == 0,
            r.sp == 0xFF,
            r.cycles == 0,
            r.ppu_state == PpuState::initial(),
            r.pc == word(
                r.read_value(AddressSpace::Cpu, RESET_VECTOR, true),
                r.read_value(AddressSpace::Cpu, (RESET_VECTOR + 1) as u16, true),
            ),
    {
        let one = ines.inesprg == 1;
        let mut memory: Vec<MemoryMap> = Vec::new();
        memory.push(map_of(cpu(0x0000, 0x07FF), Device::Ram(zeroed(0x800))));
        if one {
            memory.push(map_of_two(cpu(0x8000, 0x9FFF), cpu(0xC000, 0xDFFF), Device::Rom(0)));
            memory.push(map_of_two(cpu(0xA000, 0xBFFF), cpu(0xE000, 0xFFFF), Device::Rom(1)));
        } else {
            memory.push(map_of(cpu(0x8000, 0x9FFF), Device::Rom(0)));
            memory.push(map_of(cpu(0xA000, 0xBFFF), Device::Rom(1)));
            memory.push(map_of(cpu(0xC000, 0xDFFF), Device::Rom(2)));
            memory.push(map_of(cpu(0xE000, 0xFFFF), Device::Rom(3)));
        }
        let chr_bank: usize = if one { 2 } else { 4 };
        memory.push(map_of(ppu(0x0000, 0x1FFF), Device::Rom(chr_bank)));
        memory.push(map_of(ppu(0x2000, 0x3EFF), Device::Ram(zeroed(0x1F00))));
        memory.push(map_of(ppu(0x3F00, 0x3FFF), Device::Palette(zeroed(32))));
        memory.push(map_of(cpu(0x2000, 0x3FFF), Device::PpuRegisters));
        let mut state = State {
            pc: 0,
            a: 0,
            x: 0,
            y: 0,
            sr: 0,
            sp: 0xFF,
            cycles: 0,
            ines,
            memory,
            ppu_state: PpuState::new(),
        };
        state.reset();
        state
    }

    /// Runs one instruction.
    pub fn run_one_instruction(&mut self)
        ensures
            steps(*old(self), *final(self)),
    {
        proof {
            reveal(steps);
        }
        let instr = self.read(self.pc, false);
        let c = codepoint(instr);
        let memory_target = addressing_modes::run(c.addressing_mode, self);
        opcodes::run(c.opcode, self, memory_target);
    }

    /// Runs `n_instructions` instructions.
    pub fn run_instructions(&mut self, n_instructions: u64)
        ensures
            runs(*old(self), *final(self), n_instructions as nat),
    {
        let ghost s0 = *self;
        let mut i: u64 = 0;
        while i < n_instructions
            invariant
                i <= n_instructions,
                runs(s0, *self, i as nat),
            decreases n_instructions - i,
        {
            let ghost m = *self;
            self.run_one_instruction();
            proof {
                lemma_runs_one_more(s0, m, *self, i as nat);
            }
            i = i + 1;
        }
    }
}

} // verus!

verus! {

/// With the internal RAM first among the maps, as in the standard layout, a pull returns
/// the byte the last push stored and puts the stack pointer back.
pub proof fn lemma_push_pull(s: State, f: State, v: u8)
    requires
        s.memory@.len() > 0,
        is_ram_at_zero(s.memory@[0]),
        crate::opcodes::pushed(s, f, v),
    ensures
        crate::opcodes::pull_value(f) == v,
        crate::opcodes::pull_state(f).sp == s.sp,
{
    reveal(bus_read_value);
    reveal(bus_write_cell);
    reveal(bus_plain_cell);
    let a = crate::opcodes::stack_addr(s.sp);
    let g = State { sp: s.sp, ..f };
    assert(region_from(s.memory@[0].memory_regions@, AddressSpace::Cpu, a, 0) == Some(0u16));
    assert(locate(s.memory@, AddressSpace::Cpu, a) == Some((0int, 0u16)));
    assert(g.memory@[0].memory_regions == s.memory@[0].memory_regions);
    assert(region_from(g.memory@[0].memory_regions@, AddressSpace::Cpu, a, 0) == Some(0u16));
    assert(locate(f.memory@, AddressSpace::Cpu, a) == Some((0int, 0u16)));
    assert(crate::opcodes::pulled_sp(f) == s.sp);
}

/// The internal RAM: 2 KiB seen at `$0000..=$07FF`.
pub open spec fn is_ram_at_zero(m: MemoryMap) -> bool {
    &&& m.memory_regions@ == seq![cpu_range(0x0000, 0x07FF)]
    &&& (m.device matches Device::Ram(b) && b@.len() == 0x800)
}

} // verus!
