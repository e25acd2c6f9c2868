//! The single shared bus: an address, a data word, a status and an owner.
//! Only the owner may change the address, data or status; a change asked for
//! by anyone else is refused and leaves the bus as it was.
use vstd::prelude::*;

use crate::address::{Address, BOOT_ROM_END, BOOT_ROM_START};

verus! {

/// Who holds the bus.
#[derive(Debug, Clone, Copy, PartialEq, Eq, Structural)]
pub enum BusOwner {
    Nobody,
    CPU,
    RAM,
    ROM,
}

/// The transaction that the bus currently carries.
#[derive(Debug, Clone, Copy, PartialEq, Eq, Structural)]
pub enum BusStatus {
    Idle,
    Read,
    WriteByte,
    WriteHalfWord,
    WriteWord,
    WriteDoubleWord,
}

/// A memory-mapped component that answers bus transactions.
#[derive(Debug, Clone, Copy, PartialEq, Eq, Structural)]
pub enum MMC {
    RAM,
    ROM,
}

/// The latched contents of the bus.
pub struct BusView {
    pub address: u64,
    pub data: u64,
    pub owner: BusOwner,
    pub status: BusStatus,
}

impl BusView {
    /// Free for anyone to take: no owner and no transaction.
    pub open spec fn available(self) -> bool {
        self.owner == BusOwner::Nobody && self.status == BusStatus::Idle
    }

    /// The bus after `source` asks for it, and whether it got it.
    pub open spec fn take_spec(self, source: BusOwner) -> (BusView, bool) {
        if self.available() {
            (BusView { owner: source, status: BusStatus::Idle, ..self }, true)
        } else {
            (self, false)
        }
    }

    /// The bus after `source` gives it up, and whether it held it.
    pub open spec fn release_spec(self, source: BusOwner) -> (BusView, bool) {
        if source == self.owner {
            (BusView { owner: BusOwner::Nobody, status: BusStatus::Idle, ..self }, true)
        } else {
            (self, false)
        }
    }

    /// The bus after `source` puts `address` on it, and whether it could.
    pub open spec fn put_address_spec(self, address: u64, source: BusOwner) -> (BusView, bool) {
        if source == self.owner {
            (BusView { address, ..self }, true)
        } else {
            (self, false)
        }
    }

    /// The bus after `source` puts `data` on it, and whether it could.
    pub open spec fn put_data_spec(self, data: u64, source: BusOwner) -> (BusView, bool) {
        if source == self.owner {
            (BusView { data, ..self }, true)
        } else {
            (self, false)
        }
    }

    /// The bus after `source` sets its status to `status`, and whether it could.
    pub open spec fn put_status_spec(self, status: BusStatus, source: BusOwner) -> (BusView, bool) {
        if source == self.owner {
            (BusView { status, ..self }, true)
        } else {
            (self, false)
        }
    }

    /// The device that must answer the current transaction, chosen by address.
    pub open spec fn active_mmc(self) -> Option<MMC> {
        if self.status == BusStatus::Idle {
            None
        } else if BOOT_ROM_START <= self.address <= BOOT_ROM_END {
            Some(MMC::ROM)
        } else {
            Some(MMC::RAM)
        }
    }
}

pub struct Bus {
    address: Address,
    data: u64,
    owner: BusOwner,
    status: BusStatus,
}

impl View for Bus {
    type V = BusView;

    closed spec fn view(&self) -> BusView {
        BusView { address: self.address@, data: self.data, owner: self.owner, status: self.status }
    }
}

impl Bus {
    /// An idle bus that nobody holds, with address and data zero.
    pub fn new() -> (r: Self)
        ensures
            r@ == (BusView { address: 0, data: 0, owner: BusOwner::Nobody, status: BusStatus::Idle }),
    {
        Bus { address: Address::new(0), data: 0, owner: BusOwner::Nobody, status: BusStatus::Idle }
    }

    pub fn is_available(&self) -> (r: bool)
        ensures
            r == self@.available(),
    {
        self.owner == BusOwner::Nobody && self.status == BusStatus::Idle
    }

    /// Gives the bus to `source` if nobody holds it and it is idle.
    pub fn take_ownership(&mut self, source: BusOwner) -> (r: bool)
        ensures
            (final(self)@, r) == old(self)@.take_spec(source),
    {
        if !self.is_available() {
            return false;
        }
        self.owner = source;
        self.status = BusStatus::Idle;
        true
    }

    /// Frees the bus if `source` holds it, leaving it idle.
    pub fn release_ownership(&mut self, source: BusOwner) -> (r: bool)
        ensures
            (final(self)@, r) == old(self)@.release_spec(source),
    {
        if source != self.owner {
            return false;
        }
        self.owner = BusOwner::Nobody;
        self.status = BusStatus::Idle;
        true
    }

    pub fn put_address(&mut self, address: Address, source: BusOwner) -> (r: bool)
        ensures
            (final(self)@, r) == old(self)@.put_address_spec(address@, source),
    {
        if source != self.owner {
            return false;
        }
        self.address = address;
        true
    }

    pub fn put_data(&mut self, data: u64, source: BusOwner) -> (r: bool)
        ensures
            (final(self)@, r) == old(self)@.put_data_spec(data, source),
    {
        if source != self.owner {
            return false;
        }
        self.data = data;
        true
    }

    pub fn put_status(&mut self, status: BusStatus, source: BusOwner) -> (r: bool)
        ensures
            (final(self)@, r) == old(self)@.put_status_spec(status, source),
    {
        if source != self.owner {
            return false;
        }
        self.status = status;
        true
    }

    pub fn get_address(&self) -> (r: Address)
        ensures
            r@ == self@.address,
    {
        self.address
    }

    pub fn get_data(&self) -> (r: u64)
        ensures
            r == self@.data,
    {
        self.data
    }

    pub fn get_status(&self) -> (r: BusStatus)
        ensures
            r == self@.status,
    {
        self.status
    }

    /// The device that must answer the current transaction, if any.
    pub fn get_active_mmc(&self) -> (r: Option<MMC>)
        ensures
            r == self@.active_mmc(),
    {
        if self.status == BusStatus::Idle {
            return None;
        }
        let address = self.get_address().value();
        if BOOT_ROM_START <= address && address <= BOOT_ROM_END {
            Some(MMC::ROM)
        } else {
            Some(MMC::RAM)
        }
    }

    /// Puts `data` on the bus on behalf of whoever holds it: the path by which
    /// an addressed device answers a read.
    pub fn force_put_data(&mut self, data: u64)
        ensures
            final(self)@ == (BusView { data, ..old(self)@ }),
    {
        let owner = self.owner;
        self.put_data(data, owner);
    }
}

/// While one identity holds the bus, another cannot take it, and the failed
/// attempt changes nothing; once the holder releases it, a newcomer can take it.
pub proof fn lemma_bus_contention(b: BusView, holder: BusOwner, other: BusOwner)
    requires
        b.owner == holder,
        holder != BusOwner::Nobody,
        other != holder,
    ensures
        b.take_spec(other) == (b, false),
        b.release_spec(holder).1,
        b.release_spec(holder).0.take_spec(other).1,
        b.release_spec(holder).0.take_spec(other).0.owner == other,
        b.release_spec(holder).0.take_spec(other).0.address == b.address,
        b.release_spec(holder).0.take_spec(other).0.data == b.data,
{
}

} // verus!
