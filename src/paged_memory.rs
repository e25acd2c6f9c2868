//! Sparse byte-addressed memory, allocated one page at a time on first write.
use std::collections::HashMap;
use vstd::prelude::*;

use crate::bits::{construct_u32, le_value, lemma_le_value_split_8, lemma_le_value_4};

verus! {

broadcast use vstd::std_specs::hash::group_hash_axioms;

/// The number of bytes in one page.
pub const PAGE_SIZE: usize = 4096;

/// The bits of an address that select its page.
pub const PAGE_MASK: u64 = 0xFFFF_FFFF_FFFF_F000;

/// The number of distinct addresses.
pub open spec fn address_space() -> int {
    0x1_0000_0000_0000_0000
}

/// The address `k` bytes after `a`, wrapping around the address space.
pub open spec fn addr_add(a: u64, k: int) -> u64 {
    ((a as int + k) % address_space()) as u64
}

/// How many bytes after `a` the address `x` lies, wrapping around the address space.
pub open spec fn addr_dist(a: u64, x: u64) -> int {
    (x as int - a as int) % address_space()
}

/// The base address of the page that holds `a`.
pub open spec fn page_base(a: u64) -> u64 {
    (a as int - a as int % (PAGE_SIZE as int)) as u64
}

/// The position of `a` within its page.
pub open spec fn page_offset(a: u64) -> int {
    a as int % (PAGE_SIZE as int)
}

/// The pages touched by the `n` bytes that start at `a`.
pub open spec fn window_pages(a: u64, n: int) -> Set<u64> {
    Set::new(|p: u64| exists|k: int| 0 <= k < n && p == page_base(#[trigger] addr_add(a, k)))
}

/// Stepping `k` bytes from `a` lands `k` bytes after `a`.
pub proof fn lemma_addr_dist(a: u64, k: int)
    requires
        0 <= k < address_space(),
    ensures
        addr_dist(a, addr_add(a, k)) == k,
{
}

/// Steps along the address space compose.
pub proof fn lemma_addr_add_add(a: u64, i: int, j: int)
    requires
        0 <= i < 16,
        0 <= j < 16,
    ensures
        addr_add(addr_add(a, i), j) == addr_add(a, i + j),
{
}

/// The pages of a window grow by the page of its next byte.
pub proof fn lemma_window_pages_step(a: u64, n: int)
    requires
        0 <= n,
    ensures
        window_pages(a, n + 1) == window_pages(a, n).insert(page_base(addr_add(a, n))),
{
    assert(window_pages(a, n + 1) =~= window_pages(a, n).insert(page_base(addr_add(a, n))));
}

/// A window with no bytes touches no page.
pub proof fn lemma_window_pages_empty(a: u64)
    ensures
        window_pages(a, 0) == Set::<u64>::empty(),
{
    assert(window_pages(a, 0) =~= Set::<u64>::empty());
}

/// The pages of eight bytes are those of their two halves.
pub proof fn lemma_window_pages_split_8(a: u64)
    ensures
        window_pages(a, 8) == window_pages(a, 4).union(window_pages(addr_add(a, 4), 4)),
{
    let high = addr_add(a, 4);
    assert forall|p: u64| #[trigger] window_pages(a, 8).contains(p) <==> (window_pages(
        a,
        4,
    ).contains(p) || window_pages(high, 4).contains(p)) by {
        if window_pages(a, 8).contains(p) {
            let k = choose|k: int| 0 <= k < 8 && p == page_base(#[trigger] addr_add(a, k));
            if k >= 4 {
                lemma_addr_add_add(a, 4, k - 4);
            }
        }
        if window_pages(high, 4).contains(p) {
            let k = choose|k: int| 0 <= k < 4 && p == page_base(#[trigger] addr_add(high, k));
            lemma_addr_add_add(a, 4, k);
        }
    }
    assert(window_pages(a, 8) =~= window_pages(a, 4).union(window_pages(high, 4)));
}

/// `after` is `before` with the `n` bytes from `a` on holding `v`, little-endian:
/// every other byte is kept, and exactly the pages of those bytes are added.
pub open spec fn stores(before: PagedMemory, after: PagedMemory, a: u64, n: nat, v: nat) -> bool {
    &&& le_value(after.bytes_at(a, n)) == v
    &&& forall|x: u64| addr_dist(a, x) >= n ==> #[trigger] after.byte(x) == before.byte(x)
    &&& after.mapped() == before.mapped().union(window_pages(a, n as int))
}

pub struct PagedMemory {
    pages: HashMap<u64, [u8; PAGE_SIZE]>,
}

impl PagedMemory {
    /// The base addresses of the pages that have been allocated.
    pub closed spec fn mapped(&self) -> Set<u64> {
        self.pages@.dom()
    }

    /// The byte stored at `a`; zero on a page that was never written.
    pub closed spec fn byte(&self, a: u64) -> u8 {
        if self.pages@.contains_key(page_base(a)) {
            self.pages@[page_base(a)]@[page_offset(a)]
        } else {
            0
        }
    }

    /// The `n` bytes that start at `a`, lowest address first.
    pub open spec fn bytes_at(&self, a: u64, n: nat) -> Seq<u8> {
        Seq::new(n, |k: int| self.byte(addr_add(a, k)))
    }

    /// An empty memory: no page allocated, every byte zero.
    pub fn new() -> (r: Self)
        ensures
            r.mapped() == Set::<u64>::empty(),
            forall|a: u64| r.byte(a) == 0,
    {
        PagedMemory { pages: HashMap::new() }
    }

    fn page_address(address: u64) -> (r: u64)
        ensures
            r == page_base(address),
    {
        assert(address & 0xFFFF_FFFF_FFFF_F000 == address - address % 4096) by (bit_vector);
        address & PAGE_MASK
    }

    fn page_offset(address: u64) -> (r: usize)
        ensures
            r == page_offset(address),
            r < PAGE_SIZE,
    {
        assert(address & 0xFFF == address % 4096) by (bit_vector);
        (address & 0xFFF) as usize
    }

    /// The byte at `address`.
    pub fn read_byte(&self, address: u64) -> (r: u8)
        ensures
            r == self.byte(address),
    {
        let page_address = Self::page_address(address);
        let offset = Self::page_offset(address);
        match self.pages.get(&page_address) {
            Some(p) => p[offset],
            None => 0,
        }
    }

    /// Stores `value` at `address`, allocating its page, zero-filled, if it has none.
    pub fn write_byte(&mut self, address: u64, value: u8)
        ensures
            final(self).mapped() == old(self).mapped().insert(page_base(address)),
            forall|x: u64|
                #[trigger] final(self).byte(x) == if x == address {
                    value
                } else {
                    old(self).byte(x)
                },
    {
        let page_address = Self::page_address(address);
        let offset = Self::page_offset(address);
        let mut page = match self.pages.remove(&page_address) {
            Some(p) => p,
            None => [0u8; PAGE_SIZE],
        };
        page[offset] = value;
        self.pages.insert(page_address, page);
        proof {
            assert forall|x: u64|
                #[trigger] self.byte(x) == if x == address {
                    value
                } else {
                    old(self).byte(x)
                } by {
                if page_base(x) == page_base(address) && x != address {
                    assert(page_offset(x) != page_offset(address));
                }
            }
            assert(self.mapped() =~= old(self).mapped().insert(page_base(address)));
        }
    }
}

impl PagedMemory {
    /// A byte on a page that was never allocated reads as zero.
    pub proof fn lemma_unmapped_reads_zero(&self, a: u64)
        requires
            !self.mapped().contains(page_base(a)),
        ensures
            self.byte(a) == 0,
    {
    }

    /// Writing a byte into a page that was not allocated allocates exactly
    /// that page; the rest of the new page reads as zero, and every other
    /// byte keeps its value.
    pub proof fn lemma_write_to_fresh_page(before: Self, after: Self, a: u64, v: u8)
        requires
            !before.mapped().contains(page_base(a)),
            after.mapped() == before.mapped().insert(page_base(a)),
            forall|x: u64| #[trigger] after.byte(x) == if x == a { v } else { before.byte(x) },
        ensures
            after.mapped() == before.mapped().insert(page_base(a)),
            after.byte(a) == v,
            forall|x: u64| page_base(x) == page_base(a) && x != a ==> #[trigger] after.byte(x) == 0,
            forall|x: u64| page_base(x) != page_base(a) ==> #[trigger] after.byte(x) == before.byte(x),
    {
        assert forall|x: u64| page_base(x) == page_base(a) && x != a implies #[trigger] after.byte(x) == 0 by {
            before.lemma_unmapped_reads_zero(x);
        }
    }

    /// A single-byte write, seen as a store of one byte.
    pub proof fn lemma_byte_store(before: Self, after: Self, a: u64, v: u8)
        requires
            after.mapped() == before.mapped().insert(page_base(a)),
            forall|x: u64| #[trigger] after.byte(x) == if x == a { v } else { before.byte(x) },
        ensures
            stores(before, after, a, 1, v as nat),
    {
        lemma_addr_dist(a, 0);
        assert(after.bytes_at(a, 1) =~= seq![v]);
        assert(after.bytes_at(a, 1).drop_first() =~= Seq::<u8>::empty());
        reveal_with_fuel(le_value, 2);
        lemma_window_pages_empty(a);
        lemma_window_pages_step(a, 0);
        assert(after.mapped() =~= before.mapped().union(window_pages(a, 1)));
    }

    /// After a write of the high half of eight bytes, the low half is still
    /// as it was and the high half is as written; bytes outside are untouched.
    proof fn lemma_split_halves(mid: Self, fin: Self, a: u64)
        requires
            forall|x: u64| addr_dist(addr_add(a, 4), x) >= 4 ==> #[trigger] fin.byte(x) == mid.byte(x),
        ensures
            fin.bytes_at(a, 8).take(4) == mid.bytes_at(a, 4),
            fin.bytes_at(a, 8).skip(4) == fin.bytes_at(addr_add(a, 4), 4),
            forall|x: u64| addr_dist(a, x) >= 8 ==> #[trigger] fin.byte(x) == mid.byte(x),
    {
        let high = addr_add(a, 4);
        let s = fin.bytes_at(a, 8);
        assert forall|k: int| 0 <= k < 4 implies #[trigger] s.take(4)[k] == mid.bytes_at(a, 4)[k] by {
            lemma_addr_dist(a, k);
            lemma_addr_dist(a, 4);
            assert(addr_dist(high, addr_add(a, k)) >= 4);
        }
        assert(s.take(4) =~= mid.bytes_at(a, 4));
        assert forall|k: int| 0 <= k < 4 implies #[trigger] s.skip(4)[k] == fin.bytes_at(high, 4)[k] by {
            lemma_addr_add_add(a, 4, k);
        }
        assert(s.skip(4) =~= fin.bytes_at(high, 4));
        assert forall|x: u64| addr_dist(a, x) >= 8 implies #[trigger] fin.byte(x) == mid.byte(x) by {
            assert(addr_dist(high, x) >= 4);
        }
    }

    /// The little-endian word of four bytes that starts at `address`.
    pub fn read_w(&self, address: u64) -> (r: u32)
        ensures
            r as nat == le_value(self.bytes_at(address, 4)),
    {
        let b0 = self.read_byte(address);
        let b1 = self.read_byte(address.wrapping_add(1));
        let b2 = self.read_byte(address.wrapping_add(2));
        let b3 = self.read_byte(address.wrapping_add(3));
        assert(self.bytes_at(address, 4) =~= seq![b0, b1, b2, b3]);
        construct_u32(b0, b1, b2, b3)
    }

    /// The little-endian double word of eight bytes that starts at `address`.
    pub fn read_dw(&self, address: u64) -> (r: u64)
        ensures
            r as nat == le_value(self.bytes_at(address, 8)),
    {
        let w0 = self.read_w(address) as u64;
        let w1 = self.read_w(address.wrapping_add(4)) as u64;
        proof {
            let s = self.bytes_at(address, 8);
            assert(s.take(4) =~= self.bytes_at(address, 4));
            assert forall|k: int| 0 <= k < 4 implies #[trigger] s.skip(4)[k] == self.bytes_at(
                addr_add(address, 4),
                4,
            )[k] by {
                lemma_addr_add_add(address, 4, k);
            }
            assert(s.skip(4) =~= self.bytes_at(addr_add(address, 4), 4));
            lemma_le_value_split_8(s);
            assert(w0 | (w1 << 32) == w0 + 0x1_0000_0000 * w1) by (bit_vector)
                requires
                    w0 < 0x1_0000_0000,
                    w1 < 0x1_0000_0000,
            ;
        }
        w0 | (w1 << 32)
    }

    /// Stores the two bytes of `value`, lowest first, from `address` on.
    pub fn write_hw(&mut self, address: u64, value: u16)
        ensures
            stores(*old(self), *final(self), address, 2, value as nat),
    {
        let b0 = value as u8;
        let b1 = (value >> 8) as u8;
        let a1 = address.wrapping_add(1);
        self.write_byte(address, b0);
        self.write_byte(a1, b1);
        proof {
            lemma_addr_dist(address, 0);
            lemma_addr_dist(address, 1);
            let s = self.bytes_at(address, 2);
            assert(s =~= seq![b0, b1]);
            assert(s.drop_first() =~= seq![b1]);
            assert(s.drop_first().drop_first() =~= Seq::<u8>::empty());
            reveal_with_fuel(le_value, 3);
            assert(b0 as u16 + 0x100 * (b1 as u16) == value) by (bit_vector)
                requires
                    b0 == value as u8,
                    b1 == (value >> 8) as u8,
            ;
            lemma_window_pages_empty(address);
            lemma_window_pages_step(address, 0);
            lemma_window_pages_step(address, 1);
            assert(self.mapped() =~= old(self).mapped().union(window_pages(address, 2)));
        }
    }

    /// Stores the four bytes of `value`, lowest first, from `address` on.
    #[verifier::rlimit(40)]
    pub fn write_w(&mut self, address: u64, value: u32)
        ensures
            stores(*old(self), *final(self), address, 4, value as nat),
    {
        let b0 = value as u8;
        let b1 = (value >> 8) as u8;
        let b2 = (value >> 16) as u8;
        let b3 = (value >> 24) as u8;
        let a1 = address.wrapping_add(1);
        let a2 = address.wrapping_add(2);
        let a3 = address.wrapping_add(3);
        self.write_byte(address, b0);
        self.write_byte(a1, b1);
        self.write_byte(a2, b2);
        self.write_byte(a3, b3);
        proof {
            lemma_addr_dist(address, 0);
            lemma_addr_dist(address, 1);
            lemma_addr_dist(address, 2);
            lemma_addr_dist(address, 3);
            assert(self.bytes_at(address, 4) =~= seq![b0, b1, b2, b3]);
            lemma_le_value_4(b0, b1, b2, b3);
            assert(b0 as u32 + 0x100 * (b1 as u32) + 0x1_0000 * (b2 as u32) + 0x100_0000 * (
            b3 as u32) == value) by (bit_vector)
                requires
                    b0 == value as u8,
                    b1 == (value >> 8) as u8,
                    b2 == (value >> 16) as u8,
                    b3 == (value >> 24) as u8,
            ;
            lemma_window_pages_empty(address);
            lemma_window_pages_step(address, 0);
            lemma_window_pages_step(address, 1);
            lemma_window_pages_step(address, 2);
            lemma_window_pages_step(address, 3);
            assert(self.mapped() =~= old(self).mapped().union(window_pages(address, 4)));
        }
    }

    /// Stores the eight bytes of `value`, lowest first, from `address` on.
    #[verifier::rlimit(40)]
    pub fn write_dw(&mut self, address: u64, value: u64)
        ensures
            stores(*old(self), *final(self), address, 8, value as nat),
    {
        let w0 = value as u32;
        let w1 = (value >> 32) as u32;
        let high = address.wrapping_add(4);
        self.write_w(address, w0);
        let ghost mid = *self;
        self.write_w(high, w1);
        proof {
            Self::lemma_split_halves(mid, *self, address);
            lemma_le_value_split_8(self.bytes_at(address, 8));
            assert(w0 as u64 + 0x1_0000_0000 * (w1 as u64) == value) by (bit_vector)
                requires
                    w0 == value as u32,
                    w1 == (value >> 32) as u32,
            ;
            lemma_window_pages_split_8(address);
            assert(self.mapped() =~= old(self).mapped().union(window_pages(address, 8)));
        }
    }
}

} // verus!
