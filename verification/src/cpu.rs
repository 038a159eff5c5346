//! Decoding of CPU identification register data.
//!
//! The privileged instruction that fills an [`AnyCPUID`] runs outside this
//! library; everything here is the pure bit-field decode of what it returned.

use vstd::prelude::*;

pub mod cpuid;

verus! {

/// The four registers one CPU identification query returns.
#[derive(Clone, Copy, Debug, PartialEq, Eq, Structural)]
pub struct AnyCPUID {
    pub eax: u32,
    pub ebx: u32,
    pub ecx: u32,
    pub edx: u32,
}

/// Byte `sh/8` of a register, read as one character.
pub open spec fn reg_byte_char(m: u32, sh: u32) -> char {
    (((m >> sh) & 0xFF) as u8) as char
}

/// The four characters packed little-endian into one register.
pub open spec fn reg_chars(m: u32) -> Seq<char> {
    seq![
        reg_byte_char(m, 0),
        reg_byte_char(m, 8),
        reg_byte_char(m, 16),
        reg_byte_char(m, 24),
    ]
}

/// The vendor string identifying the CPU manufacturer, twelve characters
/// packed into three registers.
#[derive(Debug)]
pub struct CPUManufacturer(pub Vec<char>);

/// The answer to the basic identification query.
pub struct BasicCPUIDInfo {
    pub max_basic_fn: u32,
    pub manufacturer: CPUManufacturer,
}

impl BasicCPUIDInfo {
    /// Decode the basic query: the highest supported basic function and the
    /// manufacturer string packed into EBX, EDX, ECX (in that order).
    pub fn read(id: AnyCPUID) -> (r: BasicCPUIDInfo)
        ensures
            r.max_basic_fn == id.eax,
            r.manufacturer.0@ == reg_chars(id.ebx) + reg_chars(id.edx) + reg_chars(id.ecx),
    {
        let manufacturer = string_from_regs(id.ebx, id.edx, id.ecx);
        BasicCPUIDInfo { max_basic_fn: id.eax, manufacturer: CPUManufacturer(manufacturer) }
    }
}

/// The answer to the extended identification queries.
pub struct ExtendedCPUIDInfo {
    pub max_extended_fn: u32,
    pub info_and_bits: Option<ExtendedInfoAndBits>,
    pub svm_revision: Option<u8>,
}

impl ExtendedCPUIDInfo {
    /// Decode the extended queries.  `id0` answers the highest-function
    /// query; `id1` and `id_svm` answer the feature-bit and SVM-revision
    /// queries, which the caller issues exactly when `id0.eax` advertises
    /// them.
    pub fn read(id0: AnyCPUID, id1: Option<AnyCPUID>, id_svm: Option<AnyCPUID>) -> (r:
        ExtendedCPUIDInfo)
        requires
            id0.eax >= 0x80000001 ==> id1 is Some,
            id0.eax >= 0x8000000A ==> id_svm is Some,
        ensures
            r.max_extended_fn == id0.eax,
            (match r.info_and_bits {
                None => id0.eax < 0x80000001,
                Some(ib) => id0.eax >= 0x80000001 && (id1 matches Some(i1) && ib.ecx.bits == (
                i1.ecx & ECX_FLAGS_ALL) && ib.edx.bits == (i1.edx & EDX_FLAGS_ALL)),
            }),
            (match r.svm_revision {
                None => id0.eax < 0x8000000A,
                Some(rev) => id0.eax >= 0x8000000A && (id_svm matches Some(s) && rev == (s.eax
                    & 0xFF) as u8),
            }),
    {
        let info_and_bits = if id0.eax < 0x80000001 {
            None
        } else {
            Some(ExtendedCPUIDInfo::read_info_and_bits(id1.unwrap()))
        };

        let svm_revision = if id0.eax < 0x8000000A {
            None
        } else {
            Some(ExtendedCPUIDInfo::read_svm_revision(id_svm.unwrap()))
        };

        ExtendedCPUIDInfo { max_extended_fn: id0.eax, info_and_bits, svm_revision }
    }

    /// Decode the SVM revision: the low byte of EAX.
    pub fn read_svm_revision(id: AnyCPUID) -> (r: u8)
        ensures
            r == (id.eax & 0xFF) as u8,
    {
        (id.eax & 0xFF) as u8
    }

    /// Decode the extended feature bits, keeping only the architecturally
    /// defined flags.
    pub fn read_info_and_bits(id: AnyCPUID) -> (r: ExtendedInfoAndBits)
        ensures
            r.ecx.bits == (id.ecx & ECX_FLAGS_ALL),
            r.edx.bits == (id.edx & EDX_FLAGS_ALL),
    {
        ExtendedInfoAndBits {
            ecx: ExtendedInfoAndBitsECX::from_bits_truncate(id.ecx),
            edx: ExtendedInfoAndBitsEDX::from_bits_truncate(id.edx),
        }
    }
}

/// The extended feature bits of both registers.
#[derive(Debug)]
pub struct ExtendedInfoAndBits {
    pub ecx: ExtendedInfoAndBitsECX,
    pub edx: ExtendedInfoAndBitsEDX,
}

pub const ECX_FPU: u32 = 1 << 0;
pub const ECX_VME: u32 = 1 << 1;
pub const ECX_DE: u32 = 1 << 2;
pub const ECX_PSE: u32 = 1 << 3;
pub const ECX_TSC: u32 = 1 << 4;
pub const ECX_MSR: u32 = 1 << 5;
pub const ECX_PAE: u32 = 1 << 6;
pub const ECX_MCE: u32 = 1 << 7;
pub const ECX_CX8: u32 = 1 << 8;
pub const ECX_APIC: u32 = 1 << 9;
pub const ECX_SYSCALL: u32 = 1 << 11;
pub const ECX_MTRR: u32 = 1 << 12;
pub const ECX_MCA: u32 = 1 << 13;
pub const ECX_CMOV: u32 = 1 << 14;
pub const ECX_PAT: u32 = 1 << 15;
pub const ECX_PSE36: u32 = 1 << 16;
pub const ECX_MP: u32 = 1 << 17;
pub const ECX_NX: u32 = 1 << 19;
pub const ECX_MMXEXT: u32 = 1 << 20;
pub const ECX_MMX: u32 = 1 << 22;
pub const ECX_FXSR: u32 = 1 << 23;
pub const ECX_FXSR_OPT: u32 = 1 << 24;
pub const ECX_PDPE1GB: u32 = 1 << 25;
pub const ECX_RDTSCP: u32 = 1 << 26;
pub const ECX_LM: u32 = 1 << 27;
pub const ECX_3DNOWEXT: u32 = 1 << 29;
pub const ECX_3DNOW: u32 = 1 << 30;

/// Every architecturally defined flag of the ECX register.
pub const ECX_FLAGS_ALL: u32 = ECX_FPU | ECX_VME | ECX_DE | ECX_PSE | ECX_TSC | ECX_MSR | ECX_PAE
    | ECX_MCE | ECX_CX8 | ECX_APIC | ECX_SYSCALL | ECX_MTRR | ECX_MCA | ECX_CMOV | ECX_PAT
    | ECX_PSE36 | ECX_MP | ECX_NX | ECX_MMXEXT | ECX_MMX | ECX_FXSR | ECX_FXSR_OPT | ECX_PDPE1GB
    | ECX_RDTSCP | ECX_LM | ECX_3DNOWEXT | ECX_3DNOW;

pub const EDX_LAHF_LM: u32 = 1 << 30;
pub const EDX_CMP_LEGACY: u32 = 1 << 1;
pub const EDX_SVM: u32 = 1 << 2;
pub const EDX_EXTAPIC: u32 = 1 << 3;
pub const EDX_CR8_LEGACY: u32 = 1 << 3;
pub const EDX_ABM: u32 = 1 << 5;
pub const EDX_SSE4A: u32 = 1 << 6;
pub const EDX_MISALIGNSSE: u32 = 1 << 7;
pub const EDX_3DNOWPREFETCH: u32 = 1 << 8;
pub const EDX_OSVW: u32 = 1 << 9;
pub const EDX_IBS: u32 = 1 << 10;
pub const EDX_XOP: u32 = 1 << 11;
pub const EDX_SKINIT: u32 = 1 << 12;
pub const EDX_WDT: u32 = 1 << 13;
pub const EDX_LWP: u32 = 1 << 14;
pub const EDX_FMA4: u32 = 1 << 16;
pub const EDX_TCE: u32 = 1 << 17;
pub const EDX_NODEID_MSR: u32 = 1 << 18;
pub const EDX_TBM: u32 = 1 << 20;
pub const EDX_TOPOEXT: u32 = 1 << 22;
pub const EDX_PERFCTR_CORE: u32 = 1 << 23;
pub const EDX_PERFCTR_NB: u32 = 1 << 24;
pub const EDX_DBX: u32 = 1 << 26;
pub const EDX_PERFTSC: u32 = 1 << 27;
pub const EDX_PCX_L2I: u32 = 1 << 28;
pub const EDX_MONITORX: u32 = 1 << 29;
pub const EDX_ADDR_MASK_EXT: u32 = 1 << 30;

/// Every architecturally defined flag of the EDX register.
pub const EDX_FLAGS_ALL: u32 = EDX_LAHF_LM | EDX_CMP_LEGACY | EDX_SVM | EDX_EXTAPIC
    | EDX_CR8_LEGACY | EDX_ABM | EDX_SSE4A | EDX_MISALIGNSSE | EDX_3DNOWPREFETCH | EDX_OSVW
    | EDX_IBS | EDX_XOP | EDX_SKINIT | EDX_WDT | EDX_LWP | EDX_FMA4 | EDX_TCE | EDX_NODEID_MSR
    | EDX_TBM | EDX_TOPOEXT | EDX_PERFCTR_CORE | EDX_PERFCTR_NB | EDX_DBX | EDX_PERFTSC
    | EDX_PCX_L2I | EDX_MONITORX | EDX_ADDR_MASK_EXT;

/// Extended feature bits reported in the first of the two registers.
#[derive(Debug, Clone, Copy, PartialEq, Eq, Structural)]
pub struct ExtendedInfoAndBitsECX {
    pub bits: u32,
}

impl ExtendedInfoAndBitsECX {
    /// Keep only the architecturally defined flags of the raw register.
    pub fn from_bits_truncate(bits: u32) -> (r: Self)
        ensures
            r.bits == bits & ECX_FLAGS_ALL,
    {
        Self { bits: bits & ECX_FLAGS_ALL }
    }

    /// All of the given flags are set.
    pub fn contains(&self, flags: u32) -> (r: bool)
        ensures
            r == (self.bits & flags == flags),
    {
        self.bits & flags == flags
    }
}

/// Extended feature bits reported in the second of the two registers.
#[derive(Debug, Clone, Copy, PartialEq, Eq, Structural)]
pub struct ExtendedInfoAndBitsEDX {
    pub bits: u32,
}

impl ExtendedInfoAndBitsEDX {
    /// Keep only the architecturally defined flags of the raw register.
    pub fn from_bits_truncate(bits: u32) -> (r: Self)
        ensures
            r.bits == bits & EDX_FLAGS_ALL,
    {
        Self { bits: bits & EDX_FLAGS_ALL }
    }

    /// All of the given flags are set.
    pub fn contains(&self, flags: u32) -> (r: bool)
        ensures
            r == (self.bits & flags == flags),
    {
        self.bits & flags == flags
    }
}

/// The model, family and stepping fields decoded from the processor-info
/// query.
#[derive(Debug, Clone, Copy, PartialEq, Eq, Structural)]
pub struct AdvancedCPUIDInfo {
    pub brand_idx: u8,
    pub extended_family: u8,
    pub extended_model: u8,
    pub type_: u8,
    pub family: u8,
    pub model: u8,
    pub stepping: u8,
}

/// What `advanced_cpuid` decodes from the processor-info registers.
pub open spec fn advanced_info_of(id: AnyCPUID) -> AdvancedCPUIDInfo {
    AdvancedCPUIDInfo {
        brand_idx: (id.ebx & 0xFF) as u8,
        extended_family: ((id.eax >> 20) & 0xFF) as u8,
        extended_model: ((id.eax >> 16) & 0xF) as u8,
        type_: ((id.eax >> 12) & 0x3) as u8,
        family: ((id.eax >> 8) & 0xF) as u8,
        model: ((id.eax >> 4) & 0xF) as u8,
        stepping: (id.eax & 0xF) as u8,
    }
}

/// Decode the processor-info query: brand index and the packed family,
/// model and stepping fields.
pub fn advanced_cpuid(id: AnyCPUID) -> (r: AdvancedCPUIDInfo)
    ensures
        r == advanced_info_of(id),
{
    AdvancedCPUIDInfo {
        brand_idx: (id.ebx & 0xFF) as u8,
        extended_family: ((id.eax >> 20) & 0xFF) as u8,
        extended_model: ((id.eax >> 16) & 0xF) as u8,
        type_: ((id.eax >> 12) & 0x3) as u8,
        family: ((id.eax >> 8) & 0xF) as u8,
        model: ((id.eax >> 4) & 0xF) as u8,
        stepping: (id.eax & 0xF) as u8,
    }
}

/// Unpack the twelve characters a vendor string occupies across three
/// registers, low byte first.
pub fn string_from_regs(m0: u32, m1: u32, m2: u32) -> (r: Vec<char>)
    ensures
        r@ == reg_chars(m0) + reg_chars(m1) + reg_chars(m2),
{
    let mut data: Vec<char> = Vec::new();
    data.push((((m0 >> 0) & 0xFF) as u8) as char);
    data.push((((m0 >> 8) & 0xFF) as u8) as char);
    data.push((((m0 >> 16) & 0xFF) as u8) as char);
    data.push((((m0 >> 24) & 0xFF) as u8) as char);
    data.push((((m1 >> 0) & 0xFF) as u8) as char);
    data.push((((m1 >> 8) & 0xFF) as u8) as char);
    data.push((((m1 >> 16) & 0xFF) as u8) as char);
    data.push((((m1 >> 24) & 0xFF) as u8) as char);
    data.push((((m2 >> 0) & 0xFF) as u8) as char);
    data.push((((m2 >> 8) & 0xFF) as u8) as char);
    data.push((((m2 >> 16) & 0xFF) as u8) as char);
    data.push((((m2 >> 24) & 0xFF) as u8) as char);
    proof {
        assert(data@ =~= reg_chars(m0) + reg_chars(m1) + reg_chars(m2));
    }
    data
}

} // verus!
