//! What the native library says of itself.

use vstd::prelude::*;
use crate::error::CpdbError;
use crate::util::{bytes_view, cstr_to_string, decoded, text_view};

verus! {

/// The version of the native library, from the string that it handed back.
pub fn version(reply: Option<&[u8]>) -> (r: Result<String, CpdbError>)
    ensures
        text_view(r) == decoded(bytes_view(reply)),
{
    cstr_to_string(reply)
}

} // verus!
