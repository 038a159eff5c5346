//! Hardware paging structures: the bit-packed 32-bit directory and table
//! entries, and the controller that owns the 1024-entry page directory.
//!
//! Both entry kinds store a 4 KiB-aligned physical address in bits 31:12 and
//! flags in bits 11:0; every bit position is architecturally fixed.

use vstd::prelude::*;

use super::PAGE_SIZE;

verus! {

/// The address portion of an entry word: bits 31:12.
pub open spec fn entry_address_bits(w: u32) -> u32 {
    w & 0xFFFF_F000
}

/// Flag bit `k` of an entry word.
pub open spec fn entry_flag(w: u32, k: u32) -> bool {
    w & (1u32 << k) != 0
}

/// Writing flag bit `k` by masked read-modify-write changes that bit to `b`
/// and nothing else: the address bits and every other flag bit keep their
/// value.
proof fn lemma_flag_update(x: u32, k: u32, b: bool)
    by (bit_vector)
    requires
        k < 12,
    ensures
        ({
            let w = (x & !(1u32 << k)) | ((if b {
                1u32
            } else {
                0u32
            }) << k);
            &&& entry_address_bits(w) == entry_address_bits(x)
            &&& entry_flag(w, k) == b
            &&& k != 0 ==> entry_flag(w, 0) == entry_flag(x, 0)
            &&& k != 1 ==> entry_flag(w, 1) == entry_flag(x, 1)
            &&& k != 2 ==> entry_flag(w, 2) == entry_flag(x, 2)
            &&& k != 3 ==> entry_flag(w, 3) == entry_flag(x, 3)
            &&& k != 4 ==> entry_flag(w, 4) == entry_flag(x, 4)
            &&& k != 5 ==> entry_flag(w, 5) == entry_flag(x, 5)
            &&& k != 6 ==> entry_flag(w, 6) == entry_flag(x, 6)
            &&& k != 7 ==> entry_flag(w, 7) == entry_flag(x, 7)
            &&& k != 8 ==> entry_flag(w, 8) == entry_flag(x, 8)
            &&& k != 9 ==> entry_flag(w, 9) == entry_flag(x, 9)
            &&& k != 10 ==> entry_flag(w, 10) == entry_flag(x, 10)
            &&& k != 11 ==> entry_flag(w, 11) == entry_flag(x, 11)
        }),
{
}

/// Writing the address portion by masked read-modify-write keeps every flag
/// bit, and stores exactly the address bits of the argument.
proof fn lemma_address_update(x: u32, a: u32)
    by (bit_vector)
    ensures
        ({
            let w = (x & !0xFFFF_F000u32) | (a & 0xFFFF_F000u32);
            &&& entry_address_bits(w) == entry_address_bits(a)
            &&& entry_flag(w, 0) == entry_flag(x, 0)
            &&& entry_flag(w, 1) == entry_flag(x, 1)
            &&& entry_flag(w, 2) == entry_flag(x, 2)
            &&& entry_flag(w, 3) == entry_flag(x, 3)
            &&& entry_flag(w, 4) == entry_flag(x, 4)
            &&& entry_flag(w, 5) == entry_flag(x, 5)
            &&& entry_flag(w, 6) == entry_flag(x, 6)
            &&& entry_flag(w, 7) == entry_flag(x, 7)
            &&& entry_flag(w, 8) == entry_flag(x, 8)
            &&& entry_flag(w, 9) == entry_flag(x, 9)
            &&& entry_flag(w, 10) == entry_flag(x, 10)
            &&& entry_flag(w, 11) == entry_flag(x, 11)
        }),
{
}

/// One entry of the page directory, pointing at a page table.
#[derive(Clone, Copy, Debug, PartialEq, Eq, Structural)]
pub struct PageDirectoryEntry {
    pub inner: u32,
}

impl PageDirectoryEntry {
    /// The stored page-table address: bits 31:12, low 12 bits always zero.
    pub open spec fn spec_address(self) -> u32 {
        entry_address_bits(self.inner)
    }

    /// The page-size flag (bit 7): set for a 4 MiB mapping.
    pub open spec fn spec_is_4m(self) -> bool {
        entry_flag(self.inner, 7)
    }

    /// The accessed flag (bit 5).
    pub open spec fn spec_was_accessed(self) -> bool {
        entry_flag(self.inner, 5)
    }

    /// The cache-disable flag (bit 4).
    pub open spec fn spec_cache_disabled(self) -> bool {
        entry_flag(self.inner, 4)
    }

    /// The write-through flag (bit 3).
    pub open spec fn spec_is_write_through(self) -> bool {
        entry_flag(self.inner, 3)
    }

    /// The user-accessible flag (bit 2).
    pub open spec fn spec_is_user(self) -> bool {
        entry_flag(self.inner, 2)
    }

    /// The read-write flag (bit 1).
    pub open spec fn spec_is_read_write(self) -> bool {
        entry_flag(self.inner, 1)
    }

    /// The present flag (bit 0).
    pub open spec fn spec_is_present(self) -> bool {
        entry_flag(self.inner, 0)
    }

    /// Build a 4 KiB directory entry over a page-aligned table address.
    /// The alignment precondition is the construction-time contract: the
    /// address is stored exactly, never silently masked.
    pub fn new(address: u32, user: bool, rw: bool, present: bool) -> (r: Self)
        requires
            address % PAGE_SIZE as u32 == 0,
        ensures
            r.spec_address() == address,
            r.spec_is_user() == user,
            r.spec_is_read_write() == rw,
            r.spec_is_present() == present,
            !r.spec_is_4m(),
            !r.spec_was_accessed(),
            !r.spec_cache_disabled(),
            !r.spec_is_write_through(),
    {
        let ps = false;  // Always 4k, not 4M
        let accessed = false;  // Initially not accessed
        let cache_disable = false;
        let write_through = false;

        let inner = (address & 0xFFFF_F000) | ((if ps {
            1u32
        } else {
            0u32
        }) << 7) | ((if accessed {
            1u32
        } else {
            0u32
        }) << 5) | ((if cache_disable {
            1u32
        } else {
            0u32
        }) << 4) | ((if write_through {
            1u32
        } else {
            0u32
        }) << 3) | ((if user {
            1u32
        } else {
            0u32
        }) << 2) | ((if rw {
            1u32
        } else {
            0u32
        }) << 1) | (if present {
            1u32
        } else {
            0u32
        });
        proof {
            assert({
                &&& entry_address_bits(inner) == address
                &&& entry_flag(inner, 7) == false
                &&& entry_flag(inner, 5) == false
                &&& entry_flag(inner, 4) == false
                &&& entry_flag(inner, 3) == false
                &&& entry_flag(inner, 2) == user
                &&& entry_flag(inner, 1) == rw
                &&& entry_flag(inner, 0) == present
            }) by (bit_vector)
                requires
                    address % 4096 == 0,
                    inner == (address & 0xFFFF_F000) | ((if false {
                        1u32
                    } else {
                        0u32
                    }) << 7) | ((if false {
                        1u32
                    } else {
                        0u32
                    }) << 5) | ((if false {
                        1u32
                    } else {
                        0u32
                    }) << 4) | ((if false {
                        1u32
                    } else {
                        0u32
                    }) << 3) | ((if user {
                        1u32
                    } else {
                        0u32
                    }) << 2) | ((if rw {
                        1u32
                    } else {
                        0u32
                    }) << 1) | (if present {
                        1u32
                    } else {
                        0u32
                    });
        }
        Self::new_raw(inner)
    }

    /// Build a directory entry only when the table address is page-aligned;
    /// a misaligned address fails construction instead of being masked.
    pub fn new_checked(address: u32, user: bool, rw: bool, present: bool) -> (r: Option<Self>)
        ensures
            r is Some <==> address % PAGE_SIZE as u32 == 0,
            (match r {
                Some(e) => {
                    &&& e.spec_address() == address
                    &&& e.spec_is_user() == user
                    &&& e.spec_is_read_write() == rw
                    &&& e.spec_is_present() == present
                    &&& !e.spec_is_4m()
                    &&& !e.spec_was_accessed()
                    &&& !e.spec_cache_disabled()
                    &&& !e.spec_is_write_through()
                },
                None => true,
            }),
    {
        if address % (PAGE_SIZE as u32) == 0 {
            Some(Self::new(address, user, rw, present))
        } else {
            None
        }
    }

    /// Adopt a raw 32-bit entry word as it stands.
    pub fn new_raw(inner: u32) -> (r: Self)
        ensures
            r.inner == inner,
    {
        Self { inner }
    }

    pub fn address(&self) -> (r: u32)
        ensures
            r == self.spec_address(),
    {
        self.inner & 0xFFFF_F000
    }

    pub fn set_address(&mut self, address: u32)
        ensures
            final(self).spec_address() == entry_address_bits(address),
            final(self).spec_is_4m() == old(self).spec_is_4m(),
            final(self).spec_was_accessed() == old(self).spec_was_accessed(),
            final(self).spec_cache_disabled() == old(self).spec_cache_disabled(),
            final(self).spec_is_write_through() == old(self).spec_is_write_through(),
            final(self).spec_is_user() == old(self).spec_is_user(),
            final(self).spec_is_read_write() == old(self).spec_is_read_write(),
            final(self).spec_is_present() == old(self).spec_is_present(),
    {
        proof {
            lemma_address_update(self.inner, address);
        }
        self.inner = (self.inner & !0xFFFF_F000) | (address & 0xFFFF_F000);
    }

    pub fn is_4m(&self) -> (r: bool)
        ensures
            r == self.spec_is_4m(),
    {
        (self.inner & (1u32 << 7)) != 0
    }

    pub fn set_4m(&mut self, is_4m: bool)
        ensures
            final(self).spec_is_4m() == is_4m,
            final(self).spec_address() == old(self).spec_address(),
            final(self).spec_was_accessed() == old(self).spec_was_accessed(),
            final(self).spec_cache_disabled() == old(self).spec_cache_disabled(),
            final(self).spec_is_write_through() == old(self).spec_is_write_through(),
            final(self).spec_is_user() == old(self).spec_is_user(),
            final(self).spec_is_read_write() == old(self).spec_is_read_write(),
            final(self).spec_is_present() == old(self).spec_is_present(),
    {
        proof {
            lemma_flag_update(self.inner, 7, is_4m);
        }
        self.inner = (self.inner & !(1u32 << 7)) | ((if is_4m {
            1u32
        } else {
            0u32
        }) << 7);
    }

    pub fn was_accessed(&self) -> (r: bool)
        ensures
            r == self.spec_was_accessed(),
    {
        (self.inner & (1u32 << 5)) != 0
    }

    pub fn set_was_accessed(&mut self, was_accessed: bool)
        ensures
            final(self).spec_was_accessed() == was_accessed,
            final(self).spec_address() == old(self).spec_address(),
            final(self).spec_is_4m() == old(self).spec_is_4m(),
            final(self).spec_cache_disabled() == old(self).spec_cache_disabled(),
            final(self).spec_is_write_through() == old(self).spec_is_write_through(),
            final(self).spec_is_user() == old(self).spec_is_user(),
            final(self).spec_is_read_write() == old(self).spec_is_read_write(),
            final(self).spec_is_present() == old(self).spec_is_present(),
    {
        proof {
            lemma_flag_update(self.inner, 5, was_accessed);
        }
        self.inner = (self.inner & !(1u32 << 5)) | ((if was_accessed {
            1u32
        } else {
            0u32
        }) << 5);
    }

    pub fn cache_disabled(&self) -> (r: bool)
        ensures
            r == self.spec_cache_disabled(),
    {
        (self.inner & (1u32 << 4)) != 0
    }

    pub fn set_cache_disabled(&mut self, cache_disabled: bool)
        ensures
            final(self).spec_cache_disabled() == cache_disabled,
            final(self).spec_address() == old(self).spec_address(),
            final(self).spec_is_4m() == old(self).spec_is_4m(),
            final(self).spec_was_accessed() == old(self).spec_was_accessed(),
            final(self).spec_is_write_through() == old(self).spec_is_write_through(),
            final(self).spec_is_user() == old(self).spec_is_user(),
            final(self).spec_is_read_write() == old(self).spec_is_read_write(),
            final(self).spec_is_present() == old(self).spec_is_present(),
    {
        proof {
            lemma_flag_update(self.inner, 4, cache_disabled);
        }
        self.inner = (self.inner & !(1u32 << 4)) | ((if cache_disabled {
            1u32
        } else {
            0u32
        }) << 4);
    }

    pub fn is_write_through(&self) -> (r: bool)
        ensures
            r == self.spec_is_write_through(),
    {
        (self.inner & (1u32 << 3)) != 0
    }

    pub fn set_write_through(&mut self, is_write_through: bool)
        ensures
            final(self).spec_is_write_through() == is_write_through,
            final(self).spec_address() == old(self).spec_address(),
            final(self).spec_is_4m() == old(self).spec_is_4m(),
            final(self).spec_was_accessed() == old(self).spec_was_accessed(),
            final(self).spec_cache_disabled() == old(self).spec_cache_disabled(),
            final(self).spec_is_user() == old(self).spec_is_user(),
            final(self).spec_is_read_write() == old(self).spec_is_read_write(),
            final(self).spec_is_present() == old(self).spec_is_present(),
    {
        proof {
            lemma_flag_update(self.inner, 3, is_write_through);
        }
        self.inner = (self.inner & !(1u32 << 3)) | ((if is_write_through {
            1u32
        } else {
            0u32
        }) << 3);
    }

    pub fn is_user(&self) -> (r: bool)
        ensures
            r == self.spec_is_user(),
    {
        (self.inner & (1u32 << 2)) != 0
    }

    pub fn set_user(&mut self, is_user: bool)
        ensures
            final(self).spec_is_user() == is_user,
            final(self).spec_address() == old(self).spec_address(),
            final(self).spec_is_4m() == old(self).spec_is_4m(),
            final(self).spec_was_accessed() == old(self).spec_was_accessed(),
            final(self).spec_cache_disabled() == old(self).spec_cache_disabled(),
            final(self).spec_is_write_through() == old(self).spec_is_write_through(),
            final(self).spec_is_read_write() == old(self).spec_is_read_write(),
            final(self).spec_is_present() == old(self).spec_is_present(),
    {
        proof {
            lemma_flag_update(self.inner, 2, is_user);
        }
        self.inner = (self.inner & !(1u32 << 2)) | ((if is_user {
            1u32
        } else {
            0u32
        }) << 2);
    }

    pub fn is_read_write(&self) -> (r: bool)
        ensures
            r == self.spec_is_read_write(),
    {
        (self.inner & (1u32 << 1)) != 0
    }

    pub fn set_read_write(&mut self, is_read_write: bool)
        ensures
            final(self).spec_is_read_write() == is_read_write,
            final(self).spec_address() == old(self).spec_address(),
            final(self).spec_is_4m() == old(self).spec_is_4m(),
            final(self).spec_was_accessed() == old(self).spec_was_accessed(),
            final(self).spec_cache_disabled() == old(self).spec_cache_disabled(),
            final(self).spec_is_write_through() == old(self).spec_is_write_through(),
            final(self).spec_is_user() == old(self).spec_is_user(),
            final(self).spec_is_present() == old(self).spec_is_present(),
    {
        proof {
            lemma_flag_update(self.inner, 1, is_read_write);
        }
        self.inner = (self.inner & !(1u32 << 1)) | ((if is_read_write {
            1u32
        } else {
            0u32
        }) << 1);
    }

    pub fn is_present(&self) -> (r: bool)
        ensures
            r == self.spec_is_present(),
    {
        (self.inner & (1u32 << 0)) != 0
    }

    pub fn set_present(&mut self, is_present: bool)
        ensures
            final(self).spec_is_present() == is_present,
            final(self).spec_address() == old(self).spec_address(),
            final(self).spec_is_4m() == old(self).spec_is_4m(),
            final(self).spec_was_accessed() == old(self).spec_was_accessed(),
            final(self).spec_cache_disabled() == old(self).spec_cache_disabled(),
            final(self).spec_is_write_through() == old(self).spec_is_write_through(),
            final(self).spec_is_user() == old(self).spec_is_user(),
            final(self).spec_is_read_write() == old(self).spec_is_read_write(),
    {
        proof {
            lemma_flag_update(self.inner, 0, is_present);
        }
        self.inner = (self.inner & !(1u32 << 0)) | ((if is_present {
            1u32
        } else {
            0u32
        }) << 0);
    }
}


/// One entry of a page table, addressing one physical frame.
#[derive(Clone, Copy, Debug, PartialEq, Eq, Structural)]
pub struct PageTableEntry {
    pub inner: u32,
}

impl PageTableEntry {
    /// The stored frame address: bits 31:12, low 12 bits always zero.
    pub open spec fn spec_address(self) -> u32 {
        entry_address_bits(self.inner)
    }
    /// The global flag (bit 8).
    pub open spec fn spec_is_global(self) -> bool {
        entry_flag(self.inner, 8)
    }
    /// The page-attribute-table flag (bit 7), exposed as the 4 MiB flag.
    pub open spec fn spec_is_4m(self) -> bool {
        entry_flag(self.inner, 7)
    }
    /// The dirty flag (bit 6).
    pub open spec fn spec_is_dirty(self) -> bool {
        entry_flag(self.inner, 6)
    }
    /// The accessed flag (bit 5).
    pub open spec fn spec_was_accessed(self) -> bool {
        entry_flag(self.inner, 5)
    }
    /// The cache-disable flag (bit 4).
    pub open spec fn spec_cache_disabled(self) -> bool {
        entry_flag(self.inner, 4)
    }
    /// The write-through flag (bit 3).
    pub open spec fn spec_is_write_through(self) -> bool {
        entry_flag(self.inner, 3)
    }
    /// The user-accessible flag (bit 2).
    pub open spec fn spec_is_user(self) -> bool {
        entry_flag(self.inner, 2)
    }
    /// The read-write flag (bit 1).
    pub open spec fn spec_is_read_write(self) -> bool {
        entry_flag(self.inner, 1)
    }
    /// The present flag (bit 0).
    pub open spec fn spec_is_present(self) -> bool {
        entry_flag(self.inner, 0)
    }
    /// Build a table entry over a page-aligned frame address.  The alignment
    /// precondition is the construction-time contract: the address is stored
    /// exactly, never silently masked.
    pub fn new(address: u32, user: bool, rw: bool, present: bool) -> (r: Self)
        requires
            address % PAGE_SIZE as u32 == 0,
        ensures
            r.spec_address() == address,
            r.spec_is_user() == user,
            r.spec_is_read_write() == rw,
            r.spec_is_present() == present,
            !r.spec_is_global(),
            !r.spec_is_4m(),
            !r.spec_is_dirty(),
            !r.spec_was_accessed(),
            !r.spec_cache_disabled(),
            !r.spec_is_write_through(),
    {
        let global = false;
        let pat = false;  // The page-attribute table is not used
        let dirty = false;  // Initially not dirty
        let accessed = false;  // Initially not accessed
        let cache_disable = false;
        let write_through = false;

        let inner = (address & 0xFFFF_F000) | ((if global {
            1u32
        } else {
            0u32
        }) << 8) | ((if pat {
            1u32
        } else {
            0u32
        }) << 7) | ((if dirty {
            1u32
        } else {
            0u32
        }) << 6) | ((if accessed {
            1u32
        } else {
            0u32
        }) << 5) | ((if cache_disable {
            1u32
        } else {
            0u32
        }) << 4) | ((if write_through {
            1u32
        } else {
            0u32
        }) << 3) | ((if user {
            1u32
        } else {
            0u32
        }) << 2) | ((if rw {
            1u32
        } else {
            0u32
        }) << 1) | (if present {
            1u32
        } else {
            0u32
        });
        proof {
            assert({
                &&& entry_address_bits(inner) == address
                &&& entry_flag(inner, 8) == false
                &&& entry_flag(inner, 7) == false
                &&& entry_flag(inner, 6) == false
                &&& entry_flag(inner, 5) == false
                &&& entry_flag(inner, 4) == false
                &&& entry_flag(inner, 3) == false
                &&& entry_flag(inner, 2) == user
                &&& entry_flag(inner, 1) == rw
                &&& entry_flag(inner, 0) == present
            }) by (bit_vector)
                requires
                    address % 4096 == 0,
                    inner == (address & 0xFFFF_F000) | ((if false {
                        1u32
                    } else {
                        0u32
                    }) << 8) | ((if false {
                        1u32
                    } else {
                        0u32
                    }) << 7) | ((if false {
                        1u32
                    } else {
                        0u32
                    }) << 6) | ((if false {
                        1u32
                    } else {
                        0u32
                    }) << 5) | ((if false {
                        1u32
                    } else {
                        0u32
                    }) << 4) | ((if false {
                        1u32
                    } else {
                        0u32
                    }) << 3) | ((if user {
                        1u32
                    } else {
                        0u32
                    }) << 2) | ((if rw {
                        1u32
                    } else {
                        0u32
                    }) << 1) | (if present {
                        1u32
                    } else {
                        0u32
                    });
        }
        Self::new_raw(inner)
    }

    /// Build a table entry only when the frame address is page-aligned; a
    /// misaligned address fails construction instead of being masked.
    pub fn new_checked(address: u32, user: bool, rw: bool, present: bool) -> (r: Option<Self>)
        ensures
            r is Some <==> address % PAGE_SIZE as u32 == 0,
            (match r {
                Some(e) => {
                    &&& e.spec_address() == address
                    &&& e.spec_is_user() == user
                    &&& e.spec_is_read_write() == rw
                    &&& e.spec_is_present() == present
                    &&& !e.spec_is_global()
                    &&& !e.spec_is_4m()
                    &&& !e.spec_is_dirty()
                    &&& !e.spec_was_accessed()
                    &&& !e.spec_cache_disabled()
                    &&& !e.spec_is_write_through()
                },
                None => true,
            }),
    {
        if address % (PAGE_SIZE as u32) == 0 {
            Some(Self::new(address, user, rw, present))
        } else {
            None
        }
    }

    /// Adopt a raw 32-bit entry word as it stands.
    pub fn new_raw(inner: u32) -> (r: Self)
        ensures
            r.inner == inner,
    {
        Self { inner }
    }

    pub fn address(&self) -> (r: u32)
        ensures
            r == self.spec_address(),
    {
        self.inner & 0xFFFF_F000
    }

    pub fn set_address(&mut self, address: u32)
        ensures
            final(self).spec_address() == entry_address_bits(address),
            final(self).spec_is_global() == old(self).spec_is_global(),
            final(self).spec_is_4m() == old(self).spec_is_4m(),
            final(self).spec_is_dirty() == old(self).spec_is_dirty(),
            final(self).spec_was_accessed() == old(self).spec_was_accessed(),
            final(self).spec_cache_disabled() == old(self).spec_cache_disabled(),
            final(self).spec_is_write_through() == old(self).spec_is_write_through(),
            final(self).spec_is_user() == old(self).spec_is_user(),
            final(self).spec_is_read_write() == old(self).spec_is_read_write(),
            final(self).spec_is_present() == old(self).spec_is_present(),
    {
        proof {
            lemma_address_update(self.inner, address);
        }
        self.inner = (self.inner & !0xFFFF_F000) | (address & 0xFFFF_F000);
    }
    pub fn is_global(&self) -> (r: bool)
        ensures
            r == self.spec_is_global(),
    {
        (self.inner & (1u32 << 8)) != 0
    }

    pub fn set_global(&mut self, is_global: bool)
        ensures
            final(self).spec_is_global() == is_global,
            final(self).spec_address() == old(self).spec_address(),
            final(self).spec_is_4m() == old(self).spec_is_4m(),
            final(self).spec_is_dirty() == old(self).spec_is_dirty(),
            final(self).spec_was_accessed() == old(self).spec_was_accessed(),
            final(self).spec_cache_disabled() == old(self).spec_cache_disabled(),
            final(self).spec_is_write_through() == old(self).spec_is_write_through(),
            final(self).spec_is_user() == old(self).spec_is_user(),
            final(self).spec_is_read_write() == old(self).spec_is_read_write(),
            final(self).spec_is_present() == old(self).spec_is_present(),
    {
        proof {
            lemma_flag_update(self.inner, 8, is_global);
        }
        self.inner = (self.inner & !(1u32 << 8)) | ((if is_global {
            1u32
        } else {
            0u32
        }) << 8);
    }
    pub fn is_4m(&self) -> (r: bool)
        ensures
            r == self.spec_is_4m(),
    {
        (self.inner & (1u32 << 7)) != 0
    }

    pub fn set_4m(&mut self, is_4m: bool)
        ensures
            final(self).spec_is_4m() == is_4m,
            final(self).spec_address() == old(self).spec_address(),
            final(self).spec_is_global() == old(self).spec_is_global(),
            final(self).spec_is_dirty() == old(self).spec_is_dirty(),
            final(self).spec_was_accessed() == old(self).spec_was_accessed(),
            final(self).spec_cache_disabled() == old(self).spec_cache_disabled(),
            final(self).spec_is_write_through() == old(self).spec_is_write_through(),
            final(self).spec_is_user() == old(self).spec_is_user(),
            final(self).spec_is_read_write() == old(self).spec_is_read_write(),
            final(self).spec_is_present() == old(self).spec_is_present(),
    {
        proof {
            lemma_flag_update(self.inner, 7, is_4m);
        }
        self.inner = (self.inner & !(1u32 << 7)) | ((if is_4m {
            1u32
        } else {
            0u32
        }) << 7);
    }
    pub fn is_dirty(&self) -> (r: bool)
        ensures
            r == self.spec_is_dirty(),
    {
        (self.inner & (1u32 << 6)) != 0
    }

    pub fn set_dirty(&mut self, is_dirty: bool)
        ensures
            final(self).spec_is_dirty() == is_dirty,
            final(self).spec_address() == old(self).spec_address(),
            final(self).spec_is_global() == old(self).spec_is_global(),
            final(self).spec_is_4m() == old(self).spec_is_4m(),
            final(self).spec_was_accessed() == old(self).spec_was_accessed(),
            final(self).spec_cache_disabled() == old(self).spec_cache_disabled(),
            final(self).spec_is_write_through() == old(self).spec_is_write_through(),
            final(self).spec_is_user() == old(self).spec_is_user(),
            final(self).spec_is_read_write() == old(self).spec_is_read_write(),
            final(self).spec_is_present() == old(self).spec_is_present(),
    {
        proof {
            lemma_flag_update(self.inner, 6, is_dirty);
        }
        self.inner = (self.inner & !(1u32 << 6)) | ((if is_dirty {
            1u32
        } else {
            0u32
        }) << 6);
    }
    pub fn was_accessed(&self) -> (r: bool)
        ensures
            r == self.spec_was_accessed(),
    {
        (self.inner & (1u32 << 5)) != 0
    }

    pub fn set_was_accessed(&mut self, was_accessed: bool)
        ensures
            final(self).spec_was_accessed() == was_accessed,
            final(self).spec_address() == old(self).spec_address(),
            final(self).spec_is_global() == old(self).spec_is_global(),
            final(self).spec_is_4m() == old(self).spec_is_4m(),
            final(self).spec_is_dirty() == old(self).spec_is_dirty(),
            final(self).spec_cache_disabled() == old(self).spec_cache_disabled(),
            final(self).spec_is_write_through() == old(self).spec_is_write_through(),
            final(self).spec_is_user() == old(self).spec_is_user(),
            final(self).spec_is_read_write() == old(self).spec_is_read_write(),
            final(self).spec_is_present() == old(self).spec_is_present(),
    {
        proof {
            lemma_flag_update(self.inner, 5, was_accessed);
        }
        self.inner = (self.inner & !(1u32 << 5)) | ((if was_accessed {
            1u32
        } else {
            0u32
        }) << 5);
    }
    pub fn cache_disabled(&self) -> (r: bool)
        ensures
            r == self.spec_cache_disabled(),
    {
        (self.inner & (1u32 << 4)) != 0
    }

    pub fn set_cache_disabled(&mut self, cache_disabled: bool)
        ensures
            final(self).spec_cache_disabled() == cache_disabled,
            final(self).spec_address() == old(self).spec_address(),
            final(self).spec_is_global() == old(self).spec_is_global(),
            final(self).spec_is_4m() == old(self).spec_is_4m(),
            final(self).spec_is_dirty() == old(self).spec_is_dirty(),
            final(self).spec_was_accessed() == old(self).spec_was_accessed(),
            final(self).spec_is_write_through() == old(self).spec_is_write_through(),
            final(self).spec_is_user() == old(self).spec_is_user(),
            final(self).spec_is_read_write() == old(self).spec_is_read_write(),
            final(self).spec_is_present() == old(self).spec_is_present(),
    {
        proof {
            lemma_flag_update(self.inner, 4, cache_disabled);
        }
        self.inner = (self.inner & !(1u32 << 4)) | ((if cache_disabled {
            1u32
        } else {
            0u32
        }) << 4);
    }
    pub fn is_write_through(&self) -> (r: bool)
        ensures
            r == self.spec_is_write_through(),
    {
        (self.inner & (1u32 << 3)) != 0
    }

    pub fn set_write_through(&mut self, is_write_through: bool)
        ensures
            final(self).spec_is_write_through() == is_write_through,
            final(self).spec_address() == old(self).spec_address(),
            final(self).spec_is_global() == old(self).spec_is_global(),
            final(self).spec_is_4m() == old(self).spec_is_4m(),
            final(self).spec_is_dirty() == old(self).spec_is_dirty(),
            final(self).spec_was_accessed() == old(self).spec_was_accessed(),
            final(self).spec_cache_disabled() == old(self).spec_cache_disabled(),
            final(self).spec_is_user() == old(self).spec_is_user(),
            final(self).spec_is_read_write() == old(self).spec_is_read_write(),
            final(self).spec_is_present() == old(self).spec_is_present(),
    {
        proof {
            lemma_flag_update(self.inner, 3, is_write_through);
        }
        self.inner = (self.inner & !(1u32 << 3)) | ((if is_write_through {
            1u32
        } else {
            0u32
        }) << 3);
    }
    pub fn is_user(&self) -> (r: bool)
        ensures
            r == self.spec_is_user(),
    {
        (self.inner & (1u32 << 2)) != 0
    }

    pub fn set_user(&mut self, is_user: bool)
        ensures
            final(self).spec_is_user() == is_user,
            final(self).spec_address() == old(self).spec_address(),
            final(self).spec_is_global() == old(self).spec_is_global(),
            final(self).spec_is_4m() == old(self).spec_is_4m(),
            final(self).spec_is_dirty() == old(self).spec_is_dirty(),
            final(self).spec_was_accessed() == old(self).spec_was_accessed(),
            final(self).spec_cache_disabled() == old(self).spec_cache_disabled(),
            final(self).spec_is_write_through() == old(self).spec_is_write_through(),
            final(self).spec_is_read_write() == old(self).spec_is_read_write(),
            final(self).spec_is_present() == old(self).spec_is_present(),
    {
        proof {
            lemma_flag_update(self.inner, 2, is_user);
        }
        self.inner = (self.inner & !(1u32 << 2)) | ((if is_user {
            1u32
        } else {
            0u32
        }) << 2);
    }
    pub fn is_read_write(&self) -> (r: bool)
        ensures
            r == self.spec_is_read_write(),
    {
        (self.inner & (1u32 << 1)) != 0
    }

    pub fn set_read_write(&mut self, is_read_write: bool)
        ensures
            final(self).spec_is_read_write() == is_read_write,
            final(self).spec_address() == old(self).spec_address(),
            final(self).spec_is_global() == old(self).spec_is_global(),
            final(self).spec_is_4m() == old(self).spec_is_4m(),
            final(self).spec_is_dirty() == old(self).spec_is_dirty(),
            final(self).spec_was_accessed() == old(self).spec_was_accessed(),
            final(self).spec_cache_disabled() == old(self).spec_cache_disabled(),
            final(self).spec_is_write_through() == old(self).spec_is_write_through(),
            final(self).spec_is_user() == old(self).spec_is_user(),
            final(self).spec_is_present() == old(self).spec_is_present(),
    {
        proof {
            lemma_flag_update(self.inner, 1, is_read_write);
        }
        self.inner = (self.inner & !(1u32 << 1)) | ((if is_read_write {
            1u32
        } else {
            0u32
        }) << 1);
    }
    pub fn is_present(&self) -> (r: bool)
        ensures
            r == self.spec_is_present(),
    {
        (self.inner & (1u32 << 0)) != 0
    }

    pub fn set_present(&mut self, is_present: bool)
        ensures
            final(self).spec_is_present() == is_present,
            final(self).spec_address() == old(self).spec_address(),
            final(self).spec_is_global() == old(self).spec_is_global(),
            final(self).spec_is_4m() == old(self).spec_is_4m(),
            final(self).spec_is_dirty() == old(self).spec_is_dirty(),
            final(self).spec_was_accessed() == old(self).spec_was_accessed(),
            final(self).spec_cache_disabled() == old(self).spec_cache_disabled(),
            final(self).spec_is_write_through() == old(self).spec_is_write_through(),
            final(self).spec_is_user() == old(self).spec_is_user(),
            final(self).spec_is_read_write() == old(self).spec_is_read_write(),
    {
        proof {
            lemma_flag_update(self.inner, 0, is_present);
        }
        self.inner = (self.inner & !(1u32 << 0)) | ((if is_present {
            1u32
        } else {
            0u32
        }) << 0);
    }
}

/// Owns one 1024-entry page directory placed at a page-aligned physical
/// address, modelled as a bounds-checked view over that fixed-size table.
/// Loading the directory into the hardware register is the caller's
/// irreversible step and lies outside this type.
pub struct PagingController {
    pub base: usize,
    pub directory: Vec<PageDirectoryEntry>,
}

impl PagingController {
    /// The directory base is page-aligned and the table has exactly 1024
    /// entries.
    pub open spec fn wf(self) -> bool {
        &&& self.base as int % PAGE_SIZE as int == 0
        &&& self.directory@.len() == 1024
    }

    /// Take ownership of the page-aligned physical range at `address` as the
    /// 1024-entry directory and zero-fill it, so every entry starts with all
    /// bits clear, in particular not present.
    pub fn initialize_at(address: usize) -> (r: Self)
        requires
            address % PAGE_SIZE == 0,
        ensures
            r.wf(),
            r.base == address,
            forall|i: int| 0 <= i < 1024 ==> (#[trigger] r.directory@[i]).inner == 0,
            forall|i: int| 0 <= i < 1024 ==> !(#[trigger] r.directory@[i]).spec_is_present(),
    {
        let mut directory: Vec<PageDirectoryEntry> = Vec::new();
        let mut i: usize = 0;
        while i < 1024
            invariant
                i <= 1024,
                directory@.len() == i,
                forall|j: int| 0 <= j < i ==> (#[trigger] directory@[j]).inner == 0,
            decreases 1024 - i,
        {
            directory.push(PageDirectoryEntry { inner: 0 });
            i += 1;
        }
        proof {
            assert(0u32 & (1u32 << 0) == 0) by (bit_vector);
        }
        PagingController { base: address, directory }
    }

    /// Read the directory entry at `index`.
    pub fn entry(&self, index: usize) -> (r: PageDirectoryEntry)
        requires
            self.wf(),
            index < 1024,
        ensures
            r == self.directory@[index as int],
    {
        self.directory[index]
    }

    /// Stage the directory entry at `index`, leaving every other entry as it
    /// was.
    pub fn set_entry(&mut self, index: usize, entry: PageDirectoryEntry)
        requires
            old(self).wf(),
            index < 1024,
        ensures
            final(self).wf(),
            final(self).base == old(self).base,
            final(self).directory@ == old(self).directory@.update(index as int, entry),
    {
        self.directory.set(index, entry);
    }

    /// The physical address of the directory: what the hardware page-table
    /// base register must be loaded with.
    pub fn directory_base(&self) -> (r: usize)
        ensures
            r == self.base,
    {
        self.base
    }
}

} // verus!
