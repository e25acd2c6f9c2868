//! General-purpose RAM: answers reads and writes addressed to it on the bus.
use vstd::prelude::*;

use crate::bits::le_value;
use crate::bus::{Bus, BusStatus, BusView};
use crate::paged_memory::{stores, PagedMemory};

verus! {

/// How many bytes a write transaction of status `s` stores; zero for the rest.
pub open spec fn write_width(s: BusStatus) -> nat {
    match s {
        BusStatus::WriteByte => 1,
        BusStatus::WriteHalfWord => 2,
        BusStatus::WriteWord => 4,
        BusStatus::WriteDoubleWord => 8,
        _ => 0,
    }
}

/// The low `n` bytes of `v`, as a number.
pub open spec fn low_bytes(v: u64, n: nat) -> nat {
    if n == 1 {
        v as nat % 0x100
    } else if n == 2 {
        v as nat % 0x1_0000
    } else if n == 4 {
        v as nat % 0x1_0000_0000
    } else {
        v as nat
    }
}

/// The double word that `memory` answers to a read at `address`.
pub open spec fn read_answer(memory: PagedMemory, address: u64) -> u64 {
    le_value(memory.bytes_at(address, 8)) as u64
}

/// RAM answering the transaction on bus `b` with memory `m` leaves memory `m2`
/// and bus `b2`: a read puts the double word at the bus address on the bus; a
/// write stores the low bytes of the bus data; nothing else changes anything.
pub open spec fn ram_serves(m: PagedMemory, b: BusView, m2: PagedMemory, b2: BusView) -> bool {
    if b.status == BusStatus::Read {
        b2 == (BusView { data: read_answer(m, b.address), ..b }) && m2 == m
    } else if write_width(b.status) > 0 {
        b2 == b && stores(m, m2, b.address, write_width(b.status), low_bytes(b.data, write_width(b.status)))
    } else {
        b2 == b && m2 == m
    }
}

pub struct RAM {
    memory: PagedMemory,
}

impl RAM {
    /// What the RAM holds.
    pub closed spec fn memory(&self) -> PagedMemory {
        self.memory
    }

    /// A RAM in which every byte is zero.
    pub fn new() -> (r: Self)
        ensures
            forall|a: u64| r.memory().byte(a) == 0,
            r.memory().mapped() == Set::<u64>::empty(),
    {
        RAM { memory: PagedMemory::new() }
    }

    /// Answers the transaction on the bus: a read puts the double word at the
    /// bus address on the bus; a write stores the low bytes of the bus data
    /// at the bus address.
    pub fn process_bus(&mut self, bus: &mut Bus)
        ensures
            ram_serves(old(self).memory(), old(bus)@, final(self).memory(), final(bus)@),
    {
        match bus.get_status() {
            BusStatus::Read => self.output_data(bus),
            BusStatus::WriteByte => self.input_data_byte(bus),
            BusStatus::WriteHalfWord => self.input_data_hw(bus),
            BusStatus::WriteWord => self.input_data_w(bus),
            BusStatus::WriteDoubleWord => self.input_data_dw(bus),
            BusStatus::Idle => {},
        }
    }

    /// Stores the low byte of the bus data at the bus address.
    pub fn input_data_byte(&mut self, bus: &mut Bus)
        ensures
            final(bus)@ == old(bus)@,
            stores(old(self).memory(), final(self).memory(), old(bus)@.address, 1, low_bytes(old(bus)@.data, 1)),
    {
        let address = bus.get_address().value();
        let data = bus.get_data();
        let value = data as u8;
        assert(data as u8 == data % 0x100) by (bit_vector);
        let ghost before = self.memory;
        self.memory.write_byte(address, value);
        proof {
            PagedMemory::lemma_byte_store(before, self.memory, address, value);
        }
    }

    /// Stores the low two bytes of the bus data from the bus address on.
    pub fn input_data_hw(&mut self, bus: &mut Bus)
        ensures
            final(bus)@ == old(bus)@,
            stores(old(self).memory(), final(self).memory(), old(bus)@.address, 2, low_bytes(old(bus)@.data, 2)),
    {
        let address = bus.get_address().value();
        let data = bus.get_data();
        assert(data as u16 == data % 0x1_0000) by (bit_vector);
        self.memory.write_hw(address, data as u16);
    }

    /// Stores the low four bytes of the bus data from the bus address on.
    pub fn input_data_w(&mut self, bus: &mut Bus)
        ensures
            final(bus)@ == old(bus)@,
            stores(old(self).memory(), final(self).memory(), old(bus)@.address, 4, low_bytes(old(bus)@.data, 4)),
    {
        let address = bus.get_address().value();
        let data = bus.get_data();
        assert(data as u32 == data % 0x1_0000_0000) by (bit_vector);
        self.memory.write_w(address, data as u32);
    }

    /// Stores the bus data, all eight bytes, from the bus address on.
    pub fn input_data_dw(&mut self, bus: &Bus)
        ensures
            stores(old(self).memory(), final(self).memory(), bus@.address, 8, bus@.data as nat),
    {
        let address = bus.get_address().value();
        self.memory.write_dw(address, bus.get_data());
    }

    /// Puts the double word at the bus address on the bus.
    pub fn output_data(&mut self, bus: &mut Bus)
        ensures
            final(bus)@ == (BusView { data: read_answer(old(self).memory(), old(bus)@.address), ..old(bus)@ }),
            final(self).memory() == old(self).memory(),
    {
        let address = bus.get_address().value();
        let data = self.memory.read_dw(address);
        bus.force_put_data(data);
    }
}

} // verus!
