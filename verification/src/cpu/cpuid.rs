//! Decoding of CPU identification register data, grouped by query family:
//! the basic queries (vendor, family/model/stepping) and the extended queries
//! (feature bits, brand string, SVM revision).

use vstd::prelude::*;

use super::{reg_byte_char, reg_chars, ECX_FLAGS_ALL, EDX_FLAGS_ALL};
use crate::misc::cstring::{blank_from_first_nul, fix_zeroterminated_string};

verus! {

/// The four registers one CPU identification query returns.
#[derive(Clone, Copy, Debug, PartialEq, Eq, Structural)]
pub struct AnyCPUID {
    pub eax: u32,
    pub ebx: u32,
    pub ecx: u32,
    pub edx: u32,
}

/// The vendor string identifying the CPU manufacturer, twelve characters
/// packed into three registers.
#[derive(Debug)]
pub struct Manufacturer(pub Vec<char>);

/// The marketed brand string, forty-eight characters packed into twelve
/// registers.
#[derive(Debug)]
pub struct Brand(pub Vec<char>);

/// The answer to the basic identification queries.
pub struct Basic {
    pub max_basic_fn: u32,
    pub manufacturer: Manufacturer,
    pub basic_info: Option<BasicInfo>,
}

/// The model, family and stepping fields decoded from the processor-info
/// query.
#[derive(Debug, Clone, Copy, PartialEq, Eq, Structural)]
pub struct BasicInfo {
    pub brand_idx: u8,
    pub extended_family: u8,
    pub extended_model: u8,
    pub type_: u8,
    pub family: u8,
    pub model: u8,
    pub stepping: u8,
}

/// What `read_basic_info` decodes from the processor-info registers.
pub open spec fn basic_info_of(id: AnyCPUID) -> BasicInfo {
    BasicInfo {
        brand_idx: (id.ebx & 0xFF) as u8,
        extended_family: ((id.eax >> 20) & 0xFF) as u8,
        extended_model: ((id.eax >> 16) & 0xF) as u8,
        type_: ((id.eax >> 12) & 0x3) as u8,
        family: ((id.eax >> 8) & 0xF) as u8,
        model: ((id.eax >> 4) & 0xF) as u8,
        stepping: (id.eax & 0xF) as u8,
    }
}

impl Basic {
    /// Decode the basic queries.  `id0` answers the vendor query; `id1`
    /// answers the processor-info query, which the caller issues exactly when
    /// `id0.eax` advertises it.
    pub fn read(id0: AnyCPUID, id1: Option<AnyCPUID>) -> (r: Basic)
        requires
            id0.eax >= 1 ==> id1 is Some,
        ensures
            r.max_basic_fn == id0.eax,
            r.manufacturer.0@ == blank_from_first_nul(
                reg_chars(id0.ebx) + reg_chars(id0.edx) + reg_chars(id0.ecx),
            ),
            (match r.basic_info {
                None => id0.eax < 1,
                Some(bi) => id0.eax >= 1 && (id1 matches Some(i1) && bi == basic_info_of(i1)),
            }),
    {
        let manufacturer = string_from_regs(id0.ebx, id0.edx, id0.ecx);
        Basic {
            max_basic_fn: id0.eax,
            manufacturer: Manufacturer(manufacturer),
            basic_info: if id0.eax < 1 {
                None
            } else {
                Some(Basic::read_basic_info(id1.unwrap()))
            },
        }
    }

    /// Decode the processor-info query: brand index and the packed family,
    /// model and stepping fields.
    pub fn read_basic_info(id: AnyCPUID) -> (r: BasicInfo)
        ensures
            r == basic_info_of(id),
    {
        BasicInfo {
            brand_idx: (id.ebx & 0xFF) as u8,
            extended_family: ((id.eax >> 20) & 0xFF) as u8,
            extended_model: ((id.eax >> 16) & 0xF) as u8,
            type_: ((id.eax >> 12) & 0x3) as u8,
            family: ((id.eax >> 8) & 0xF) as u8,
            model: ((id.eax >> 4) & 0xF) as u8,
            stepping: (id.eax & 0xF) as u8,
        }
    }
}

/// The answer to the extended identification queries.
pub struct Extended {
    pub max_extended_fn: u32,
    pub vendor: Option<Manufacturer>,
    pub info_and_bits: Option<ExtendedInfoAndBits>,
    pub brand: Option<Brand>,
    pub svm_revision: Option<u8>,
}

impl Extended {
    /// Decode the extended queries.  `id0` answers the highest-function
    /// query; the other arguments answer the feature-bit, brand and
    /// SVM-revision queries, which the caller issues exactly when `id0.eax`
    /// advertises them.
    pub fn read(
        id0: AnyCPUID,
        id1: Option<AnyCPUID>,
        id_brand: Option<(AnyCPUID, AnyCPUID, AnyCPUID)>,
        id_svm: Option<AnyCPUID>,
    ) -> (r: Extended)
        requires
            id0.eax >= 0x80000001 ==> id1 is Some,
            id0.eax >= 0x80000004 ==> id_brand is Some,
            id0.eax >= 0x8000000A ==> id_svm is Some,
        ensures
            r.max_extended_fn == id0.eax,
            (match r.vendor {
                None => id0.eax < 0x80000000,
                Some(v) => id0.eax >= 0x80000000 && v.0@ == blank_from_first_nul(
                    reg_chars(id0.ebx) + reg_chars(id0.edx) + reg_chars(id0.ecx),
                ),
            }),
            (match r.info_and_bits {
                None => id0.eax < 0x80000001,
                Some(ib) => id0.eax >= 0x80000001 && (id1 matches Some(i1) && ib.ecx.bits == (
                i1.ecx & ECX_FLAGS_ALL) && ib.edx.bits == (i1.edx & EDX_FLAGS_ALL)),
            }),
            (match r.brand {
                None => id0.eax < 0x80000004,
                Some(b) => id0.eax >= 0x80000004 && (id_brand matches Some((b2, b3, b4))
                    && b.0@ == blank_from_first_nul(
                    brand_chars(
                        b2.eax,
                        b2.ebx,
                        b2.ecx,
                        b2.edx,
                        b3.eax,
                        b3.ebx,
                        b3.ecx,
                        b3.edx,
                        b4.eax,
                        b4.ebx,
                        b4.ecx,
                        b4.edx,
                    ),
                )),
            }),
            (match r.svm_revision {
                None => id0.eax < 0x8000000A,
                Some(rev) => id0.eax >= 0x8000000A && (id_svm matches Some(s) && rev == (s.eax
                    & 0xFF) as u8),
            }),
    {
        Extended {
            max_extended_fn: id0.eax,
            vendor: if id0.eax < 0x80000000 {
                None
            } else {
                Some(Manufacturer(string_from_regs(id0.ebx, id0.edx, id0.ecx)))
            },
            info_and_bits: if id0.eax < 0x80000001 {
                None
            } else {
                Some(Extended::read_info_and_bits(id1.unwrap()))
            },
            brand: if id0.eax < 0x80000004 {
                None
            } else {
                let (b2, b3, b4) = id_brand.unwrap();
                Some(Extended::read_brand(b2, b3, b4))
            },
            svm_revision: if id0.eax < 0x8000000A {
                None
            } else {
                Some(Extended::read_svm_revision(id_svm.unwrap()))
            },
        }
    }

    /// Decode the SVM revision: the low byte of EAX.
    pub fn read_svm_revision(id: AnyCPUID) -> (r: u8)
        ensures
            r == (id.eax & 0xFF) as u8,
    {
        (id.eax & 0xFF) as u8
    }

    /// Decode the extended feature bits, keeping only the architecturally
    /// defined flags.
    pub fn read_info_and_bits(id: AnyCPUID) -> (r: ExtendedInfoAndBits)
        ensures
            r.ecx.bits == (id.ecx & ECX_FLAGS_ALL),
            r.edx.bits == (id.edx & EDX_FLAGS_ALL),
    {
        ExtendedInfoAndBits {
            ecx: ExtendedInfoAndBitsECX::from_bits_truncate(id.ecx),
            edx: ExtendedInfoAndBitsEDX::from_bits_truncate(id.edx),
        }
    }

    /// Decode the brand string from the three brand queries.
    pub fn read_brand(id2: AnyCPUID, id3: AnyCPUID, id4: AnyCPUID) -> (r: Brand)
        ensures
            r.0@ == blank_from_first_nul(
                brand_chars(
                    id2.eax,
                    id2.ebx,
                    id2.ecx,
                    id2.edx,
                    id3.eax,
                    id3.ebx,
                    id3.ecx,
                    id3.edx,
                    id4.eax,
                    id4.ebx,
                    id4.ecx,
                    id4.edx,
                ),
            ),
    {
        Brand(
            string_from_4_regs(
                id2.eax,
                id2.ebx,
                id2.ecx,
                id2.edx,
                id3.eax,
                id3.ebx,
                id3.ecx,
                id3.edx,
                id4.eax,
                id4.ebx,
                id4.ecx,
                id4.edx,
            ),
        )
    }
}

/// The extended feature bits of both registers.
#[derive(Debug)]
pub struct ExtendedInfoAndBits {
    pub ecx: ExtendedInfoAndBitsECX,
    pub edx: ExtendedInfoAndBitsEDX,
}

/// Extended feature bits reported in the first of the two registers.
#[derive(Debug, Clone, Copy, PartialEq, Eq, Structural)]
pub struct ExtendedInfoAndBitsECX {
    pub bits: u32,
}

impl ExtendedInfoAndBitsECX {
    /// Keep only the architecturally defined flags of the raw register.
    pub fn from_bits_truncate(bits: u32) -> (r: Self)
        ensures
            r.bits == bits & ECX_FLAGS_ALL,
    {
        Self { bits: bits & ECX_FLAGS_ALL }
    }

    /// All of the given flags are set.
    pub fn contains(&self, flags: u32) -> (r: bool)
        ensures
            r == (self.bits & flags == flags),
    {
        self.bits & flags == flags
    }
}

/// Extended feature bits reported in the second of the two registers.
#[derive(Debug, Clone, Copy, PartialEq, Eq, Structural)]
pub struct ExtendedInfoAndBitsEDX {
    pub bits: u32,
}

impl ExtendedInfoAndBitsEDX {
    /// Keep only the architecturally defined flags of the raw register.
    pub fn from_bits_truncate(bits: u32) -> (r: Self)
        ensures
            r.bits == bits & EDX_FLAGS_ALL,
    {
        Self { bits: bits & EDX_FLAGS_ALL }
    }

    /// All of the given flags are set.
    pub fn contains(&self, flags: u32) -> (r: bool)
        ensures
            r == (self.bits & flags == flags),
    {
        self.bits & flags == flags
    }
}

/// Unpack the twelve characters of a vendor string from three registers, low
/// byte first, and blank everything from the first NUL onward.
pub fn string_from_regs(m0: u32, m1: u32, m2: u32) -> (r: Vec<char>)
    ensures
        r@ == blank_from_first_nul(reg_chars(m0) + reg_chars(m1) + reg_chars(m2)),
{
    let mut data: Vec<char> = Vec::new();
    data.push((((m0 >> 0) & 0xFF) as u8) as char);
    data.push((((m0 >> 8) & 0xFF) as u8) as char);
    data.push((((m0 >> 16) & 0xFF) as u8) as char);
    data.push((((m0 >> 24) & 0xFF) as u8) as char);
    data.push((((m1 >> 0) & 0xFF) as u8) as char);
    data.push((((m1 >> 8) & 0xFF) as u8) as char);
    data.push((((m1 >> 16) & 0xFF) as u8) as char);
    data.push((((m1 >> 24) & 0xFF) as u8) as char);
    data.push((((m2 >> 0) & 0xFF) as u8) as char);
    data.push((((m2 >> 8) & 0xFF) as u8) as char);
    data.push((((m2 >> 16) & 0xFF) as u8) as char);
    data.push((((m2 >> 24) & 0xFF) as u8) as char);
    proof {
        assert(data@ =~= reg_chars(m0) + reg_chars(m1) + reg_chars(m2));
    }
    fix_zeroterminated_string(&mut data);
    data
}

/// The forty-eight characters of the brand string, as they are unpacked from
/// its twelve registers.  Two positions are peculiarities of the unpacking
/// and not of the hardware layout: the top byte of the ninth register is
/// never emitted, and the top byte of the last register is emitted twice.
pub open spec fn brand_chars(
    m01: u32,
    m11: u32,
    m21: u32,
    m31: u32,
    m02: u32,
    m12: u32,
    m22: u32,
    m32: u32,
    m03: u32,
    m13: u32,
    m23: u32,
    m33: u32,
) -> Seq<char> {
    reg_chars(m01) + reg_chars(m11) + reg_chars(m21) + reg_chars(m31) + reg_chars(m02) + reg_chars(
        m12,
    ) + reg_chars(m22) + reg_chars(m32) + reg_chars(m03).take(3) + reg_chars(m13) + reg_chars(m23)
        + reg_chars(m33) + seq![reg_byte_char(m33, 24)]
}

/// Unpack the brand string from its twelve registers, low byte first, and
/// blank everything from the first NUL onward.
#[verifier::rlimit(50)]
pub fn string_from_4_regs(
    m01: u32,
    m11: u32,
    m21: u32,
    m31: u32,
    m02: u32,
    m12: u32,
    m22: u32,
    m32: u32,
    m03: u32,
    m13: u32,
    m23: u32,
    m33: u32,
) -> (r: Vec<char>)
    ensures
        r@ == blank_from_first_nul(
            brand_chars(m01, m11, m21, m31, m02, m12, m22, m32, m03, m13, m23, m33),
        ),
{
    let mut data: Vec<char> = Vec::new();
    data.push((((m01 >> 0) & 0xFF) as u8) as char);
    data.push((((m01 >> 8) & 0xFF) as u8) as char);
    data.push((((m01 >> 16) & 0xFF) as u8) as char);
    data.push((((m01 >> 24) & 0xFF) as u8) as char);
    data.push((((m11 >> 0) & 0xFF) as u8) as char);
    data.push((((m11 >> 8) & 0xFF) as u8) as char);
    data.push((((m11 >> 16) & 0xFF) as u8) as char);
    data.push((((m11 >> 24) & 0xFF) as u8) as char);
    data.push((((m21 >> 0) & 0xFF) as u8) as char);
    data.push((((m21 >> 8) & 0xFF) as u8) as char);
    data.push((((m21 >> 16) & 0xFF) as u8) as char);
    data.push((((m21 >> 24) & 0xFF) as u8) as char);
    data.push((((m31 >> 0) & 0xFF) as u8) as char);
    data.push((((m31 >> 8) & 0xFF) as u8) as char);
    data.push((((m31 >> 16) & 0xFF) as u8) as char);
    data.push((((m31 >> 24) & 0xFF) as u8) as char);
    data.push((((m02 >> 0) & 0xFF) as u8) as char);
    data.push((((m02 >> 8) & 0xFF) as u8) as char);
    data.push((((m02 >> 16) & 0xFF) as u8) as char);
    data.push((((m02 >> 24) & 0xFF) as u8) as char);
    data.push((((m12 >> 0) & 0xFF) as u8) as char);
    data.push((((m12 >> 8) & 0xFF) as u8) as char);
    data.push((((m12 >> 16) & 0xFF) as u8) as char);
    data.push((((m12 >> 24) & 0xFF) as u8) as char);
    data.push((((m22 >> 0) & 0xFF) as u8) as char);
    data.push((((m22 >> 8) & 0xFF) as u8) as char);
    data.push((((m22 >> 16) & 0xFF) as u8) as char);
    data.push((((m22 >> 24) & 0xFF) as u8) as char);
    data.push((((m32 >> 0) & 0xFF) as u8) as char);
    data.push((((m32 >> 8) & 0xFF) as u8) as char);
    data.push((((m32 >> 16) & 0xFF) as u8) as char);
    data.push((((m32 >> 24) & 0xFF) as u8) as char);
    data.push((((m03 >> 0) & 0xFF) as u8) as char);
    data.push((((m03 >> 8) & 0xFF) as u8) as char);
    data.push((((m03 >> 16) & 0xFF) as u8) as char);
    data.push((((m13 >> 0) & 0xFF) as u8) as char);
    data.push((((m13 >> 8) & 0xFF) as u8) as char);
    data.push((((m13 >> 16) & 0xFF) as u8) as char);
    data.push((((m13 >> 24) & 0xFF) as u8) as char);
    data.push((((m23 >> 0) & 0xFF) as u8) as char);
    data.push((((m23 >> 8) & 0xFF) as u8) as char);
    data.push((((m23 >> 16) & 0xFF) as u8) as char);
    data.push((((m23 >> 24) & 0xFF) as u8) as char);
    data.push((((m33 >> 0) & 0xFF) as u8) as char);
    data.push((((m33 >> 8) & 0xFF) as u8) as char);
    data.push((((m33 >> 16) & 0xFF) as u8) as char);
    data.push((((m33 >> 24) & 0xFF) as u8) as char);
    data.push((((m33 >> 24) & 0xFF) as u8) as char);
    proof {
        assert(data@ =~= brand_chars(m01, m11, m21, m31, m02, m12, m22, m32, m03, m13, m23, m33));
    }
    fix_zeroterminated_string(&mut data);
    data
}

} // verus!
