//! Conversion of interface names to NUL-terminated C-string bytes, as
//! the OS request structures expect them.

use vstd::prelude::*;
use vstd::string::StrSliceExecFns;
use vstd::string::StringSliceAdditionalSpecFns;
use crate::error::CursedError;
use crate::error::CursedErrorHandle;

verus! {

/// Whether a byte sequence holds no NUL byte, so that it can form the
/// contents of a C string.
pub open spec fn nul_free(b: Seq<u8>) -> bool {
    forall|i: int| 0 <= i < b.len() ==> b[i] != 0
}

/// Converts text to NUL-terminated C-string bytes: the UTF-8 bytes of
/// the text followed by a single NUL.  Fails with a parse error if and
/// only if the text itself contains a NUL byte.
pub fn to_c_bytes(s: &str) -> (r: Result<Vec<u8>, CursedErrorHandle>)
    ensures
        r matches Ok(v) ==> nul_free(s.spec_bytes()) && v@ == s.spec_bytes() + seq![0u8],
        r matches Err(e) ==> !nul_free(s.spec_bytes()) && e.kind == CursedError::Parse
            && e.reason@ == s@ + " is not a valid c string"@,
{
    let bytes = s.as_bytes_vec();
    let mut i: usize = 0;
    while i < bytes.len()
        invariant
            bytes@ == s.spec_bytes(),
            i <= bytes@.len(),
            forall|j: int| 0 <= j < i ==> bytes@[j] != 0,
        decreases bytes@.len() - i,
    {
        if bytes[i] == 0 {
            let mut reason = s.to_owned();
            reason.append(" is not a valid c string");
            return Err(CursedErrorHandle::new(CursedError::Parse, reason));
        }
        i += 1;
    }
    let mut out = bytes;
    out.push(0);
    Ok(out)
}

} // verus!
