use bootcore::cpu::cpuid::{string_from_4_regs, string_from_regs, AnyCPUID, Basic, Extended};
use bootcore::cpu::{ECX_FPU, EDX_SVM};

fn regs(eax: u32, ebx: u32, ecx: u32, edx: u32) -> AnyCPUID {
    AnyCPUID { eax, ebx, ecx, edx }
}

#[test]
fn vendor_unpacking_blanks_from_the_first_nul() {
    // "AMD\0isnotreal" style data: everything from the NUL becomes a space.
    let chars = string_from_regs(0x0044_4D41, 0x42424242, 0x43434343);
    let s: String = chars.into_iter().collect();
    assert_eq!(s, "AMD         ");
}

#[test]
fn vendor_unpacking_without_nul_is_verbatim() {
    let chars = string_from_regs(0x756E6547, 0x49656E69, 0x6C65746E);
    let s: String = chars.into_iter().collect();
    assert_eq!(s, "GenuineIntel");
}

#[test]
fn basic_read_without_processor_info() {
    let b = Basic::read(regs(0, 0x756E6547, 0x6C65746E, 0x49656E69), None);
    assert_eq!(b.max_basic_fn, 0);
    assert!(b.basic_info.is_none());
    let s: String = b.manufacturer.0.into_iter().collect();
    assert_eq!(s, "GenuineIntel");
}

#[test]
fn basic_read_decodes_processor_info() {
    let b = Basic::read(
        regs(0xD, 0x756E6547, 0x6C65746E, 0x49656E69),
        Some(regs(0x000206A7, 0x56, 0, 0)),
    );
    let info = b.basic_info.unwrap();
    assert_eq!(info.stepping, 0x7);
    assert_eq!(info.model, 0xA);
    assert_eq!(info.family, 0x6);
    assert_eq!(info.type_, 0x0);
    assert_eq!(info.extended_model, 0x2);
    assert_eq!(info.extended_family, 0x0);
    assert_eq!(info.brand_idx, 0x56);
}

#[test]
fn extended_read_below_every_threshold() {
    let e = Extended::read(regs(0x7FFF_FFFF, 0, 0, 0), None, None, None);
    assert_eq!(e.max_extended_fn, 0x7FFF_FFFF);
    assert!(e.vendor.is_none());
    assert!(e.info_and_bits.is_none());
    assert!(e.brand.is_none());
    assert!(e.svm_revision.is_none());
}

#[test]
fn extended_read_decodes_everything_advertised() {
    let id0 = regs(0x8000000A, 0x756E6547, 0x6C65746E, 0x49656E69);
    let id1 = regs(0, 0, ECX_FPU, EDX_SVM);
    let b2 = regs(0x41414141, 0x42424242, 0x43434343, 0x44444444);
    let b3 = regs(0x45454545, 0x46464646, 0x47474747, 0x48484848);
    let b4 = regs(0x49494949, 0x4A4A4A4A, 0x4B4B4B4B, 0x4C4C4C4C);
    let id_svm = regs(0x0000_0107, 0, 0, 0);
    let e = Extended::read(id0, Some(id1), Some((b2, b3, b4)), Some(id_svm));
    assert_eq!(e.max_extended_fn, 0x8000000A);
    let vendor: String = e.vendor.unwrap().0.into_iter().collect();
    assert_eq!(vendor, "GenuineIntel");
    let bits = e.info_and_bits.unwrap();
    assert_eq!(bits.ecx.bits, ECX_FPU);
    assert_eq!(bits.edx.bits, EDX_SVM);
    let brand: String = e.brand.unwrap().0.into_iter().collect();
    assert_eq!(brand, "AAAABBBBCCCCDDDDEEEEFFFFGGGGHHHHIIIJJJJKKKKLLLLL");
    assert_eq!(e.svm_revision, Some(0x07));
}

#[test]
fn brand_unpacking_has_its_two_peculiar_positions() {
    // Registers hold one letter each, four copies: the first eight registers
    // contribute four characters each, the ninth only three, the last five.
    let brand = string_from_4_regs(
        0x41414141, 0x42424242, 0x43434343, 0x44444444, 0x45454545, 0x46464646, 0x47474747,
        0x48484848, 0x49494949, 0x4A4A4A4A, 0x4B4B4B4B, 0x4C4C4C4C,
    );
    assert_eq!(brand.len(), 48);
    let s: String = brand.into_iter().collect();
    assert_eq!(s, "AAAABBBBCCCCDDDDEEEEFFFFGGGGHHHHIIIJJJJKKKKLLLLL");
}

#[test]
fn brand_unpacking_blanks_from_the_first_nul() {
    let brand = string_from_4_regs(
        0x41414141, 0x00424242, 0x43434343, 0x44444444, 0x45454545, 0x46464646, 0x47474747,
        0x48484848, 0x49494949, 0x4A4A4A4A, 0x4B4B4B4B, 0x4C4C4C4C,
    );
    let s: String = brand.into_iter().collect();
    assert_eq!(s, format!("AAAABBB{}", " ".repeat(41)));
}
