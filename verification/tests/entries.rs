use bootcore::mem::paging::{PageDirectoryEntry, PageTableEntry};

#[test]
fn directory_entry_construction_packs_the_word() {
    let e = PageDirectoryEntry::new(0x12345000, true, true, true);
    assert_eq!(e.address(), 0x12345000);
    assert!(e.is_user());
    assert!(e.is_read_write());
    assert!(e.is_present());
    assert!(!e.is_4m());
    assert!(!e.was_accessed());
    assert!(!e.cache_disabled());
    assert!(!e.is_write_through());
    assert_eq!(e.inner, 0x12345000 | 0b111);
}

#[test]
fn directory_entry_checked_construction_rejects_misaligned() {
    assert!(PageDirectoryEntry::new_checked(0x12345001, false, false, false).is_none());
    assert!(PageDirectoryEntry::new_checked(0x12345800, false, false, false).is_none());
    let e = PageDirectoryEntry::new_checked(0x12345000, false, true, false).unwrap();
    // The address is stored exactly, never silently masked.
    assert_eq!(e.address(), 0x12345000);
    assert!(e.is_read_write());
    assert!(!e.is_present());
}

#[test]
fn table_entry_checked_construction_rejects_misaligned() {
    assert!(PageTableEntry::new_checked(0xFFF, true, true, true).is_none());
    let e = PageTableEntry::new_checked(0xABCDE000, true, false, true).unwrap();
    assert_eq!(e.address(), 0xABCDE000);
    assert!(e.is_user());
    assert!(!e.is_read_write());
    assert!(e.is_present());
}

#[test]
fn table_entry_construction_packs_the_word() {
    let e = PageTableEntry::new(0x7000, false, true, true);
    assert_eq!(e.address(), 0x7000);
    assert!(!e.is_user());
    assert!(e.is_read_write());
    assert!(e.is_present());
    assert!(!e.is_global());
    assert!(!e.is_4m());
    assert!(!e.is_dirty());
    assert!(!e.was_accessed());
    assert!(!e.cache_disabled());
    assert!(!e.is_write_through());
    assert_eq!(e.inner, 0x7000 | 0b011);
}

#[test]
fn directory_flag_writes_never_touch_the_address() {
    let mut e = PageDirectoryEntry::new(0xFFFFF000, false, false, false);
    e.set_present(true);
    e.set_read_write(true);
    e.set_user(true);
    e.set_write_through(true);
    e.set_cache_disabled(true);
    e.set_was_accessed(true);
    e.set_4m(true);
    assert_eq!(e.address(), 0xFFFFF000);
    assert!(e.is_present());
    assert!(e.is_read_write());
    assert!(e.is_user());
    assert!(e.is_write_through());
    assert!(e.cache_disabled());
    assert!(e.was_accessed());
    assert!(e.is_4m());
}

#[test]
fn directory_address_write_never_touches_the_flags() {
    let mut e = PageDirectoryEntry::new(0x1000, true, true, true);
    e.set_4m(true);
    e.set_address(0xABCDE000);
    assert_eq!(e.address(), 0xABCDE000);
    assert!(e.is_user());
    assert!(e.is_read_write());
    assert!(e.is_present());
    assert!(e.is_4m());
}

#[test]
fn directory_flag_writes_are_independent() {
    let mut e = PageDirectoryEntry::new(0x2000, true, false, true);
    e.set_was_accessed(true);
    assert!(e.is_user());
    assert!(!e.is_read_write());
    assert!(e.is_present());
    e.set_was_accessed(false);
    assert!(!e.was_accessed());
    assert!(e.is_user());
    assert!(e.is_present());
    assert_eq!(e.address(), 0x2000);
}

#[test]
fn table_flag_writes_never_touch_the_address() {
    let mut e = PageTableEntry::new(0x3000, false, false, false);
    e.set_global(true);
    e.set_dirty(true);
    e.set_4m(true);
    e.set_was_accessed(true);
    e.set_cache_disabled(true);
    e.set_write_through(true);
    e.set_user(true);
    e.set_read_write(true);
    e.set_present(true);
    assert_eq!(e.address(), 0x3000);
    assert!(e.is_global());
    assert!(e.is_dirty());
    assert!(e.is_4m());
    assert!(e.was_accessed());
    assert!(e.cache_disabled());
    assert!(e.is_write_through());
    assert!(e.is_user());
    assert!(e.is_read_write());
    assert!(e.is_present());
}

#[test]
fn table_address_write_never_touches_the_flags() {
    let mut e = PageTableEntry::new(0x0, true, true, true);
    e.set_dirty(true);
    e.set_global(true);
    e.set_address(0x55555000);
    assert_eq!(e.address(), 0x55555000);
    assert!(e.is_user());
    assert!(e.is_read_write());
    assert!(e.is_present());
    assert!(e.is_dirty());
    assert!(e.is_global());
}

#[test]
fn set_address_keeps_only_the_address_bits_of_its_argument() {
    let mut e = PageDirectoryEntry::new(0x1000, false, false, true);
    e.set_address(0x12345678);
    assert_eq!(e.address(), 0x12345000);
    assert!(e.is_present());
}

#[test]
fn raw_word_is_adopted_unchanged() {
    let d = PageDirectoryEntry::new_raw(0xDEADB001);
    assert_eq!(d.inner, 0xDEADB001);
    assert!(d.is_present());
    assert_eq!(d.address(), 0xDEADB000);
    let t = PageTableEntry::new_raw(0xFEEDC102);
    assert_eq!(t.inner, 0xFEEDC102);
    assert!(!t.is_present());
    assert!(t.is_read_write());
    assert!(t.is_global());
    assert_eq!(t.address(), 0xFEEDC000);
}

#[test]
fn staged_entry_remains_readable_while_not_present() {
    let mut e = PageTableEntry::new(0x9000, true, true, false);
    assert!(!e.is_present());
    assert_eq!(e.address(), 0x9000);
    assert!(e.is_user());
    e.set_present(true);
    assert_eq!(e.address(), 0x9000);
    assert!(e.is_user());
}
