//! Status codes returned by every operation of the module, and the packing
//! scheme that builds a status value from a severity, a facility and a code.

use vstd::prelude::*;

verus! {

/// A 32-bit status value: non-negative means success, negative means failure.
pub type HRESULT = i32;

/// Generic success.
pub const S_OK: HRESULT = 0;
/// A supplied descriptor's declared size does not match the expected size.
pub const E_INVALIDARG: HRESULT = 0x80070057u32 as i32;
/// An interface identifier is not supported by the object it was queried on.
pub const E_NOINTERFACE: HRESULT = 0x80004002u32 as i32;
/// A class identifier names no class this module can construct.
pub const CLASS_E_CLASSNOTAVAILABLE: HRESULT = 0x80040111u32 as i32;
/// Registration or unregistration of the module's classes failed.
pub const SELFREG_E_CLASS: HRESULT = 0x80040201u32 as i32;

/// The facility value under which this module's own failure codes live.
pub const FACDPV: u32 = 0x15;

/// Success for voice operations; identical to the generic success code.
pub const DV_OK: HRESULT = S_OK;
/// Success code reporting that the audio setup is full-duplex capable.
pub const DV_FULLDUPLEX: HRESULT = 0x00150005;
/// A descriptor's declared size is wrong for the record version expected.
pub const DVERR_INVALIDPARAM: HRESULT = E_INVALIDARG;
/// A server session descriptor was queried before any session was started.
pub const DVERR_NOTHOSTING: HRESULT = 0x8015017Bu32 as i32;
/// An enumeration buffer is too small; the required size is reported back.
pub const DVERR_BUFFERTOOSMALL: HRESULT = 0x8015001Eu32 as i32;
/// A client configuration was queried before any connection stored one.
pub const DVERR_NOTCONNECTED: HRESULT = 0x8015016Bu32 as i32;
/// Positional-audio buffer creation is never available on this module.
pub const DVERR_ALREADYBUFFERED: HRESULT = 0x80150178u32 as i32;

/// How a status value is packed: a severity bit on top, a facility in the
/// middle 16..=26 bits, and a 16-bit code at the bottom.
pub open spec fn spec_make_hresult(sev: u32, fac: u32, code: u32) -> HRESULT {
    ((sev << 31) | (fac << 16) | code) as i32
}

/// A failure status of this module's own facility.
pub open spec fn spec_make_dv_hresult(code: u32) -> HRESULT {
    spec_make_hresult(1, FACDPV, code)
}

/// Packs a status value from a severity, a facility and a code.
pub fn make_hresult(sev: u32, fac: u32, code: u32) -> (r: HRESULT)
    ensures
        r == spec_make_hresult(sev, fac, code),
{
    ((sev << 31) | (fac << 16) | code) as i32
}

/// Packs a failure status of this module's own facility.
pub fn make_dv_hresult(code: u32) -> (r: HRESULT)
    ensures
        r == spec_make_dv_hresult(code),
{
    make_hresult(1, FACDPV, code)
}

/// The module's failure constants are exactly the packed forms of their codes,
/// and every packed failure status is negative.
pub proof fn lemma_dv_codes()
    ensures
        DVERR_NOTHOSTING == spec_make_dv_hresult(0x017B),
        DVERR_BUFFERTOOSMALL == spec_make_dv_hresult(0x001E),
        DVERR_NOTCONNECTED == spec_make_dv_hresult(0x016B),
        DVERR_ALREADYBUFFERED == spec_make_dv_hresult(0x0178),
        DV_FULLDUPLEX == spec_make_hresult(0, FACDPV, 0x0005),
        forall|code: u32| spec_make_dv_hresult(code) < 0,
{
    assert forall|code: u32| spec_make_dv_hresult(code) < 0 by {
        assert((((1u32 << 31) | (0x15u32 << 16) | code) as i32) < 0) by(bit_vector);
    }
    assert((((1u32 << 31) | (0x15u32 << 16) | 0x017Bu32) as i32) == (0x8015017Bu32 as i32)) by(bit_vector);
    assert((((1u32 << 31) | (0x15u32 << 16) | 0x001Eu32) as i32) == (0x8015001Eu32 as i32))
        by(bit_vector);
    assert((((1u32 << 31) | (0x15u32 << 16) | 0x016Bu32) as i32) == (0x8015016Bu32 as i32))
        by(bit_vector);
    assert((((1u32 << 31) | (0x15u32 << 16) | 0x0178u32) as i32) == (0x80150178u32 as i32))
        by(bit_vector);
    assert((((0u32 << 31) | (0x15u32 << 16) | 0x0005u32) as i32) == (0x00150005u32 as i32))
        by(bit_vector);
}

} // verus!
