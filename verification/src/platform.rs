//! The one platform on which the desktop shell runs.

use vstd::prelude::*;
use crate::error::{SupervisorError, SupervisorErrorView};

verus! {

/// Accepts a macOS system on Apple Silicon and refuses every other machine.
pub fn ensure_apple_silicon(is_macos: bool, is_aarch64: bool) -> (result: Result<
    (),
    SupervisorError,
>)
    ensures
        result is Ok <==> is_macos && is_aarch64,
        result matches Err(error) ==> error@ == SupervisorErrorView::UnsupportedPlatform,
{
    if is_macos && is_aarch64 {
        return Ok(());
    }
    Err(SupervisorError::UnsupportedPlatform)
}

} // verus!
