//! NetworkDirect status codes and the success test on them.

use vstd::prelude::*;

verus! {

/// `ND_SUCCESS`: the request completed.
pub const ND_SUCCESS: i32 = 0;

/// `ND_PENDING` (`STATUS_PENDING`): the request was queued and completes
/// through its overlapped structure.
pub const ND_PENDING: i32 = 0x103;

/// `ND_BUFFER_OVERFLOW` (`STATUS_BUFFER_OVERFLOW`, 0x80000005): the output
/// buffer is too small; the required size has been written back.
pub const ND_BUFFER_OVERFLOW: i32 = -2147483643;

/// `STATUS_BUFFER_TOO_SMALL` (0xC0000023).
pub const STATUS_BUFFER_TOO_SMALL: i32 = -1073741789;

/// `E_NOTIMPL` (0x80004001): reported for an address of an unknown family.
pub const E_NOTIMPL: i32 = -2147467263;

/// A failed NetworkDirect or COM call, carrying its HRESULT.
#[derive(Debug, Clone, Copy, PartialEq, Eq, Structural)]
pub struct NdError {
    pub code: i32,
}

/// The outcome an HRESULT stands for: success exactly when it is not negative.
pub open spec fn hresult_result(code: i32) -> Result<(), NdError> {
    if code >= 0 {
        Ok(())
    } else {
        Err(NdError { code })
    }
}

/// `windows_core::HRESULT::ok` (re-exported as `windows::core::HRESULT::ok`): the source returns `Ok(())` when the code is
/// not negative, and otherwise an `Error` built by `From<HRESULT>`, whose
/// `code()` gives the same HRESULT back (a negative code is never zero, nor
/// the positive placeholder kept for an empty error). The error is handed on
/// as that code.
#[verifier::external_body]
fn hresult_ok(code: i32) -> (r: Result<(), i32>)
    ensures
        (r is Ok) <==> code >= 0,
        r matches Err(c) ==> c == code,
{
    match windows_core::HRESULT(code).ok() {
        Ok(()) => Ok(()),
        Err(e) => Err(e.code().0),
    }
}

/// Turns an HRESULT into the library's result.
pub fn check_hresult(code: i32) -> (r: Result<(), NdError>)
    ensures
        r == hresult_result(code),
        (r is Ok) <==> code >= 0,
        code < 0 ==> (r == Err::<(), NdError>(NdError { code })),
{
    match hresult_ok(code) {
        Ok(()) => Ok(()),
        Err(c) => Err(NdError { code: c }),
    }
}

/// The success test is the sign test: every code that is not negative is a
/// success, and every negative code (`ND_BUFFER_OVERFLOW`,
/// `STATUS_BUFFER_TOO_SMALL`, `E_NOTIMPL` among them) is a failure that
/// carries exactly that code.
pub proof fn lemma_hresult_is_sign_test(code: i32)
    ensures
        (hresult_result(code) is Ok) <==> code >= 0,
        code < 0 ==> (hresult_result(code) == Err::<(), NdError>(NdError { code })),
        hresult_result(ND_BUFFER_OVERFLOW) == Err::<(), NdError>(NdError { code: ND_BUFFER_OVERFLOW }),
        hresult_result(STATUS_BUFFER_TOO_SMALL) == Err::<(), NdError>(
            NdError { code: STATUS_BUFFER_TOO_SMALL },
        ),
        hresult_result(E_NOTIMPL) == Err::<(), NdError>(NdError { code: E_NOTIMPL }),
        hresult_result(ND_SUCCESS) == Ok::<(), NdError>(()),
        hresult_result(ND_PENDING) == Ok::<(), NdError>(()),
{
}

} // verus!
