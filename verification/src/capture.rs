//! The capture side of a cycle. The external screenshot tool itself runs
//! outside this crate; here stands what the pipeline decides about it: the
//! stable file name a capture is written under, and how the tool's exit
//! status turns into an image path or a capture error.

use vstd::prelude::*;

verus! {

/// Why a capture produced no image: the external screenshot tool could not
/// be started, or it ran and exited unsuccessfully.
#[derive(Clone, Copy, Debug, PartialEq, Eq, Structural)]
pub enum CaptureError {
    SpawnFailed,
    ToolFailed,
}

/// The stable file name a capture is written under inside the output
/// directory; only the latest capture is ever needed, so one name suffices.
pub fn screenshot_file_name() -> (r: &'static str)
    ensures
        r@ == "screenshot.jpg"@,
{
    "screenshot.jpg"
}

/// A capture succeeds exactly when the external tool exited with status
/// zero: then the written path is the result, otherwise the cycle gets a
/// tool-failure error.
pub fn capture_outcome(tool_exited_ok: bool, output_path: String) -> (r: Result<
    String,
    CaptureError,
>)
    ensures
        r is Ok <==> tool_exited_ok,
        tool_exited_ok ==> r->Ok_0@ == output_path@,
        !tool_exited_ok ==> r->Err_0 == CaptureError::ToolFailed,
{
    if tool_exited_ok {
        Ok(output_path)
    } else {
        Err(CaptureError::ToolFailed)
    }
}

} // verus!
