//! The computer: CPU, bus, RAM and boot ROM, advanced together one tick at a time.
use vstd::prelude::*;

use crate::address::BOOT_ROM_START;
use crate::bus::{Bus, BusOwner, BusStatus, BusView, MMC};
use crate::cpu::{tick_spec, CPU, CpuView};
use crate::paged_memory::{addr_dist, window_pages, PagedMemory};
use crate::ram::{ram_serves, read_answer, RAM};
use crate::registers::REGISTER_COUNT;
use crate::rom::ROM;

verus! {

/// The bus after the boot ROM, holding `m`, answers the transaction on `b`.
pub open spec fn rom_serves(m: PagedMemory, b: BusView) -> BusView {
    if b.status == BusStatus::Read {
        BusView { data: read_answer(m, b.address), ..b }
    } else {
        b
    }
}

pub struct Computer {
    pub bus: Bus,
    pub cpu: CPU,
    pub ram: RAM,
    pub rom: ROM,
}

impl Computer {
    /// A computer with a running CPU, a free idle bus, and RAM and ROM all zero.
    pub fn new() -> (r: Computer)
        ensures
            r.cpu@ == (CpuView {
                regs: Seq::new(REGISTER_COUNT as nat, |i: int| 0u64),
                queue: Seq::empty(),
                halted: false,
                fault: None,
            }),
            r.bus@ == (BusView { address: 0, data: 0, owner: BusOwner::Nobody, status: BusStatus::Idle }),
            forall|a: u64| r.ram.memory().byte(a) == 0 && r.rom.memory().byte(a) == 0,
    {
        Computer { bus: Bus::new(), cpu: CPU::new(), ram: RAM::new(), rom: ROM::new() }
    }

    /// Advances the CPU by one micro-operation, then lets the device that the
    /// bus address selects answer the transaction on the bus. Returns whether
    /// the computer goes on running; once halted, a tick changes nothing.
    pub fn tick(&mut self) -> (r: bool)
        ensures
            old(self).cpu@.halted ==> {
                &&& !r
                &&& final(self).cpu@ == old(self).cpu@
                &&& final(self).bus@ == old(self).bus@
                &&& final(self).ram.memory() == old(self).ram.memory()
                &&& final(self).rom.memory() == old(self).rom.memory()
            },
            !old(self).cpu@.halted ==> {
                let after_cpu = tick_spec(old(self).cpu@, old(self).bus@);
                let b = after_cpu.1;
                &&& r == after_cpu.2
                &&& final(self).cpu@ == after_cpu.0
                &&& final(self).rom.memory() == old(self).rom.memory()
                &&& b.active_mmc() == Some(MMC::ROM) ==> final(self).bus@ == rom_serves(
                    old(self).rom.memory(),
                    b,
                ) && final(self).ram.memory() == old(self).ram.memory()
                &&& b.active_mmc() == Some(MMC::RAM) ==> ram_serves(
                    old(self).ram.memory(),
                    b,
                    final(self).ram.memory(),
                    final(self).bus@,
                )
                &&& b.active_mmc() is None ==> final(self).bus@ == b && final(self).ram.memory()
                    == old(self).ram.memory()
            },
    {
        if self.cpu.is_halted() {
            return false;
        }
        let do_continue = self.cpu.tick(&mut self.bus);
        match self.bus.get_active_mmc() {
            Some(MMC::RAM) => self.ram.process_bus(&mut self.bus),
            Some(MMC::ROM) => self.rom.process_bus(&mut self.bus),
            None => {},
        }
        do_continue
    }

    /// Loads a program image into the boot ROM, from its first address on.
    pub fn set_boot_rom(&mut self, data: Vec<u8>)
        ensures
            forall|x: u64|
                #[trigger] final(self).rom.memory().byte(x) == if addr_dist(BOOT_ROM_START, x) < data.len() {
                    data@[addr_dist(BOOT_ROM_START, x)]
                } else {
                    old(self).rom.memory().byte(x)
                },
            final(self).rom.memory().mapped() == old(self).rom.memory().mapped().union(
                window_pages(BOOT_ROM_START, data.len() as int),
            ),
            final(self).cpu@ == old(self).cpu@,
            final(self).bus@ == old(self).bus@,
            final(self).ram.memory() == old(self).ram.memory(),
    {
        self.rom.force_write(data, BOOT_ROM_START)
    }
}

} // verus!
