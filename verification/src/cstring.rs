//! What the native bridge accepts as a string: NUL-terminated C text, so no
//! interior NUL.

use vstd::prelude::*;

use crate::error::{PluginError, PluginErrorView};

verus! {

/// The error for a string that cannot be handed to the native bridge.
pub open spec fn nul_error() -> PluginErrorView {
    PluginErrorView::InvalidInput("string contains NUL"@)
}

/// Checks that `s` can become a C string: it holds no NUL character.
pub fn check_c_string(s: &str) -> (r: Result<(), PluginError>)
    ensures
        r is Ok <==> !s@.contains('\0'),
        r matches Err(e) ==> e@ == nul_error(),
{
    let mut found = false;
    for c in it: s.chars()
        invariant
            it.seq() == s@,
            found <==> exists|j: int| 0 <= j < it.index() && s@[j] == '\0',
    {
        if c == '\0' {
            found = true;
        }
    }
    if found {
        Err(PluginError::InvalidInput(String::from_str("string contains NUL")))
    } else {
        Ok(())
    }
}

} // verus!
