//! What the kernel asks of the CPU before it touches paging or interrupts,
//! and the control-register values that switch the features on.

use vstd::prelude::*;
use crate::command::same_text;
use x86::controlregs::Cr0;
use x86::controlregs::Cr4;

verus! {

/// CR4 bit that enables the physical address extension.
pub const CR4_ENABLE_PAE: usize = 0x20;

/// The CR0 bits that activate paging: coprocessor emulation (bit 2), write
/// protection in ring 0 (bit 16) and paging itself (bit 31).
pub const CR0_PAGING_BITS: usize = 0x8001_0004;

/// Bit of the extended-feature-enable register that enables the no-execute
/// bit of page-table entries.
pub const EFER_NO_EXECUTE_ENABLE: u64 = 0x800;

/// Why the kernel cannot run on this CPU. The checks are made in the order
/// of the variants, and the first that fails is reported.
#[derive(Clone, Copy, Debug, PartialEq, Eq, Structural)]
pub enum CpuFeatureError {
    /// The CPU does not tell its vendor.
    VendorQueryFailed,
    /// The vendor is neither of the two that the kernel knows.
    UnknownVendor,
    /// The CPU does not answer the query for extended functions.
    ExtendedFunctionQueryFailed,
    /// The CPU has no no-execute bit.
    NoExecuteUnsupported,
    /// The CPU does not answer the query for features.
    FeatureQueryFailed,
    /// The CPU has no physical address extension.
    PaeUnsupported,
}

/// Whether `vendor` is one of the two vendor strings that the kernel knows.
pub open spec fn is_known_vendor(vendor: Seq<char>) -> bool {
    vendor == "AuthenticAMD"@ || vendor == "GenuineIntel"@
}

/// The verdict on a CPU that reports `vendor`, and whether it has the
/// no-execute bit and the physical address extension. `None` stands for a
/// query that the CPU did not answer.
pub open spec fn cpu_verdict(
    vendor: Option<Seq<char>>,
    execute_disable: Option<bool>,
    pae: Option<bool>,
) -> Result<(), CpuFeatureError> {
    if vendor is None {
        Err(CpuFeatureError::VendorQueryFailed)
    } else if !is_known_vendor(vendor.unwrap()) {
        Err(CpuFeatureError::UnknownVendor)
    } else if execute_disable is None {
        Err(CpuFeatureError::ExtendedFunctionQueryFailed)
    } else if !execute_disable.unwrap() {
        Err(CpuFeatureError::NoExecuteUnsupported)
    } else if pae is None {
        Err(CpuFeatureError::FeatureQueryFailed)
    } else if !pae.unwrap() {
        Err(CpuFeatureError::PaeUnsupported)
    } else {
        Ok(())
    }
}

/// Decides whether the kernel can run on the CPU, from what the CPU reports
/// of itself: the vendor must be known, and the no-execute bit and the
/// physical address extension must be there.
pub fn check_cpu_features(
    vendor: Option<&str>,
    execute_disable: Option<bool>,
    pae: Option<bool>,
) -> (verdict: Result<(), CpuFeatureError>)
    ensures
        verdict == cpu_verdict(
            match vendor {
                Some(name) => Some(name@),
                None => None,
            },
            execute_disable,
            pae,
        ),
{
    match vendor {
        Some(name) => {
            if !same_text(name, "AuthenticAMD") && !same_text(name, "GenuineIntel") {
                return Err(CpuFeatureError::UnknownVendor);
            }
        },
        None => {
            return Err(CpuFeatureError::VendorQueryFailed);
        },
    }
    match execute_disable {
        Some(supported) => {
            if !supported {
                return Err(CpuFeatureError::NoExecuteUnsupported);
            }
        },
        None => {
            return Err(CpuFeatureError::ExtendedFunctionQueryFailed);
        },
    }
    match pae {
        Some(supported) => {
            if !supported {
                Err(CpuFeatureError::PaeUnsupported)
            } else {
                Ok(())
            }
        },
        None => Err(CpuFeatureError::FeatureQueryFailed),
    }
}

/// The bits of `x86::controlregs::Cr4::CR4_ENABLE_PAE`: bit 5.
#[verifier::external_body]
pub(crate) fn cr4_pae_bits() -> (bits: usize)
    ensures
        bits == CR4_ENABLE_PAE,
{
    Cr4::CR4_ENABLE_PAE.bits()
}

/// The bits of the three `x86::controlregs::Cr0` flags
/// `CR0_EMULATE_COPROCESSOR`, `CR0_WRITE_PROTECT` and `CR0_ENABLE_PAGING`
/// together: bits 2, 16 and 31.
#[verifier::external_body]
pub(crate) fn cr0_paging_bits() -> (bits: usize)
    ensures
        bits == CR0_PAGING_BITS,
{
    (Cr0::CR0_EMULATE_COPROCESSOR | Cr0::CR0_WRITE_PROTECT | Cr0::CR0_ENABLE_PAGING).bits()
}

/// The value to write to CR4 to enable the physical address extension, for
/// the value `cr4` read from it: bit 5 set, every other bit as it was.
pub fn cr4_with_pae(cr4: usize) -> (enabled: usize)
    ensures
        enabled == cr4 | CR4_ENABLE_PAE,
        enabled & CR4_ENABLE_PAE == CR4_ENABLE_PAE,
        enabled & !CR4_ENABLE_PAE == cr4 & !CR4_ENABLE_PAE,
{
    let bits = cr4_pae_bits();
    assert((cr4 | bits) & bits == bits && (cr4 | bits) & !bits == cr4 & !bits) by (bit_vector);
    cr4 | bits
}

/// The value to write to the extended-feature-enable register to enable the
/// no-execute bit, for the value `efer` read from it: bit 11 set, every
/// other bit as it was.
pub fn efer_with_no_execute(efer: u64) -> (enabled: u64)
    ensures
        enabled == efer | EFER_NO_EXECUTE_ENABLE,
        enabled & EFER_NO_EXECUTE_ENABLE == EFER_NO_EXECUTE_ENABLE,
        enabled & !EFER_NO_EXECUTE_ENABLE == efer & !EFER_NO_EXECUTE_ENABLE,
{
    let bits = EFER_NO_EXECUTE_ENABLE;
    assert((efer | bits) & bits == bits && (efer | bits) & !bits == efer & !bits) by (bit_vector);
    efer | bits
}

/// The value to write to CR0 to activate paging and write protection in one
/// step, for the value `cr0` read from it: bits 2, 16 and 31 set, every
/// other bit as it was.
pub fn cr0_with_paging(cr0: usize) -> (enabled: usize)
    ensures
        enabled == cr0 | CR0_PAGING_BITS,
        enabled & CR0_PAGING_BITS == CR0_PAGING_BITS,
        enabled & !CR0_PAGING_BITS == cr0 & !CR0_PAGING_BITS,
{
    let bits = cr0_paging_bits();
    assert((cr0 | bits) & bits == bits && (cr0 | bits) & !bits == cr0 & !bits) by (bit_vector);
    cr0 | bits
}

} // verus!
