//! The boot ROM: preloaded with the program image, then answers reads only.
use vstd::prelude::*;

use crate::bus::{Bus, BusStatus, BusView};
use crate::paged_memory::{
    addr_dist, lemma_addr_dist, lemma_window_pages_empty, lemma_window_pages_step, window_pages,
    PagedMemory,
};
use crate::ram::read_answer;

verus! {

pub struct ROM {
    memory: PagedMemory,
}

impl ROM {
    /// What the ROM holds.
    pub closed spec fn memory(&self) -> PagedMemory {
        self.memory
    }

    /// A ROM in which every byte is zero.
    pub fn new() -> (r: Self)
        ensures
            forall|a: u64| r.memory().byte(a) == 0,
            r.memory().mapped() == Set::<u64>::empty(),
    {
        ROM { memory: PagedMemory::new() }
    }

    /// Answers a read on the bus with the double word at the bus address; any
    /// other transaction is ignored.
    pub fn process_bus(&mut self, bus: &mut Bus)
        ensures
            final(self).memory() == old(self).memory(),
            final(bus)@ == if old(bus)@.status == BusStatus::Read {
                BusView { data: read_answer(old(self).memory(), old(bus)@.address), ..old(bus)@ }
            } else {
                old(bus)@
            },
    {
        match bus.get_status() {
            BusStatus::Read => self.output_data(bus),
            _ => {},
        }
    }

    /// Puts the double word at the bus address on the bus.
    pub fn output_data(&mut self, bus: &mut Bus)
        ensures
            final(bus)@ == (BusView { data: read_answer(old(self).memory(), old(bus)@.address), ..old(bus)@ }),
            final(self).memory() == old(self).memory(),
    {
        let address = bus.get_address().value();
        let data = self.memory.read_dw(address);
        bus.force_put_data(data);
    }

    /// Copies `data` into the ROM from `address` on, bypassing the bus.
    pub fn force_write(&mut self, data: Vec<u8>, address: u64)
        ensures
            forall|x: u64|
                #[trigger] final(self).memory().byte(x) == if addr_dist(address, x) < data.len() {
                    data@[addr_dist(address, x)]
                } else {
                    old(self).memory().byte(x)
                },
            final(self).memory().mapped() == old(self).memory().mapped().union(
                window_pages(address, data.len() as int),
            ),
    {
        let mut i: usize = 0;
        proof {
            lemma_window_pages_empty(address);
            assert(self.memory.mapped() =~= old(self).memory.mapped().union(window_pages(address, 0)));
        }
        while i < data.len()
            invariant
                i <= data.len(),
                forall|x: u64|
                    #[trigger] self.memory.byte(x) == if addr_dist(address, x) < i {
                        data@[addr_dist(address, x)]
                    } else {
                        old(self).memory.byte(x)
                    },
                self.memory.mapped() == old(self).memory.mapped().union(window_pages(address, i as int)),
            decreases data.len() - i,
        {
            let target = address.wrapping_add(i as u64);
            proof {
                lemma_addr_dist(address, i as int);
            }
            self.memory.write_byte(target, data[i]);
            proof {
                lemma_window_pages_step(address, i as int);
                assert(self.memory.mapped() =~= old(self).memory.mapped().union(
                    window_pages(address, i + 1),
                ));
            }
            i = i + 1;
        }
    }
}

} // verus!
