use bootcore::cpu::{
    advanced_cpuid, string_from_regs, AnyCPUID, BasicCPUIDInfo, ExtendedCPUIDInfo, ECX_FLAGS_ALL,
    ECX_FPU, ECX_LM, EDX_FLAGS_ALL, EDX_SVM,
};

fn regs(eax: u32, ebx: u32, ecx: u32, edx: u32) -> AnyCPUID {
    AnyCPUID { eax, ebx, ecx, edx }
}

#[test]
fn vendor_string_unpacks_little_endian() {
    // "GenuineIntel" packed as EBX, EDX, ECX.
    let chars = string_from_regs(0x756E6547, 0x49656E69, 0x6C65746E);
    let s: String = chars.into_iter().collect();
    assert_eq!(s, "GenuineIntel");
}

#[test]
fn plain_unpacking_keeps_nul_bytes() {
    // This module's unpacking does not blank anything.
    let chars = string_from_regs(0x00414141, 0x42424242, 0x43434343);
    assert_eq!(chars[3], '\0');
    assert_eq!(chars[0], 'A');
    assert_eq!(chars[4], 'B');
}

#[test]
fn basic_read_decodes_vendor_and_limit() {
    let info = BasicCPUIDInfo::read(regs(0xD, 0x756E6547, 0x6C65746E, 0x49656E69));
    assert_eq!(info.max_basic_fn, 0xD);
    let s: String = info.manufacturer.0.into_iter().collect();
    assert_eq!(s, "GenuineIntel");
}

#[test]
fn extended_read_decodes_what_is_advertised() {
    let id0 = regs(0x8000000A, 0, 0, 0);
    let id1 = regs(0, 0, ECX_FPU | ECX_LM | (1 << 10), EDX_SVM);
    let id_svm = regs(0x0000_0141, 0, 0, 0);
    let info = ExtendedCPUIDInfo::read(id0, Some(id1), Some(id_svm));
    assert_eq!(info.max_extended_fn, 0x8000000A);
    let bits = info.info_and_bits.unwrap();
    // Bit 10 is not an architectural flag and is dropped.
    assert_eq!(bits.ecx.bits, ECX_FPU | ECX_LM);
    assert_eq!(bits.edx.bits, EDX_SVM);
    // The revision is the low byte of EAX.
    assert_eq!(info.svm_revision, Some(0x41));
}

#[test]
fn extended_read_reports_nothing_below_the_thresholds() {
    let id0 = regs(0x80000000, 0, 0, 0);
    let info = ExtendedCPUIDInfo::read(id0, None, None);
    assert_eq!(info.max_extended_fn, 0x80000000);
    assert!(info.info_and_bits.is_none());
    assert!(info.svm_revision.is_none());
}

#[test]
fn flag_truncation_keeps_only_defined_bits() {
    let id = regs(0, 0, 0xFFFF_FFFF, 0xFFFF_FFFF);
    let bits = ExtendedCPUIDInfo::read_info_and_bits(id);
    assert_eq!(bits.ecx.bits, ECX_FLAGS_ALL);
    assert_eq!(bits.edx.bits, EDX_FLAGS_ALL);
    assert!(bits.ecx.contains(ECX_FPU));
    assert!(bits.edx.contains(EDX_SVM));
}

#[test]
fn advanced_cpuid_unpacks_the_fields() {
    let info = advanced_cpuid(regs(0x000206A7, 0x0000_1234, 0, 0));
    assert_eq!(info.stepping, 0x7);
    assert_eq!(info.model, 0xA);
    assert_eq!(info.family, 0x6);
    assert_eq!(info.type_, 0x0);
    assert_eq!(info.extended_model, 0x2);
    assert_eq!(info.extended_family, 0x0);
    assert_eq!(info.brand_idx, 0x34);
}

#[test]
fn svm_revision_is_the_low_byte() {
    assert_eq!(ExtendedCPUIDInfo::read_svm_revision(regs(0xABCD_EF12, 0, 0, 0)), 0x12);
}
