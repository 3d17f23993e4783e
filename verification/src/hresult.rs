//! Result codes of the base protocol, as the foreign side reads them.

use vstd::prelude::*;

verus! {

/// The 32-bit result code that every protocol operation reports.
pub type HResult = i32;

/// The operation succeeded.
pub const S_OK: HResult = 0;

/// A required pointer argument was null.
pub const E_INVALIDARG: HResult = -2147024809;

/// The object does not implement the requested interface.
pub const E_NOINTERFACE: HResult = -2147467262;

/// Whether a result code reports success.
pub open spec fn is_success(code: HResult) -> bool {
    code == S_OK
}

/// Tells whether a result code reports success.
pub fn succeeded(code: HResult) -> (ok: bool)
    ensures
        ok == is_success(code),
{
    code == S_OK
}

/// The three codes are pairwise distinct. The two error codes have the bit
/// patterns `0x80070057` and `0x80004002`: both are below zero, so a caller
/// that tests for failure by the sign sees an error.
pub proof fn lemma_result_codes()
    ensures
        S_OK != E_INVALIDARG,
        S_OK != E_NOINTERFACE,
        E_INVALIDARG != E_NOINTERFACE,
        E_INVALIDARG as u32 == 0x80070057u32,
        E_NOINTERFACE as u32 == 0x80004002u32,
        E_INVALIDARG < 0,
        E_NOINTERFACE < 0,
        !is_success(E_INVALIDARG),
        !is_success(E_NOINTERFACE),
{
    assert(E_INVALIDARG as u32 == 0x80070057u32) by (bit_vector);
    assert(E_NOINTERFACE as u32 == 0x80004002u32) by (bit_vector);
}

} // verus!
