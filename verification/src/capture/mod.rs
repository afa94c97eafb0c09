//! Screen capture: choosing the focused monitor and the selectable windows from the
//! compositor's status, reading a selected region, and the capture flows that a backend
//! carries out.

pub mod flow;
pub mod hyprland;
pub mod selection;

pub use flow::{
    capture_full_with, capture_region_with, capture_window_with,
    cleanup_temp_capture_file_with, CaptureArtifact, CaptureBackend, RemoveFileError,
    TempCaptureCleanupOutcome,
};
pub use hyprland::{
    format_window_selection_regions, select_focused_monitor, selectable_windows,
    FocusedMonitor, MonitorStatus, WindowClientStatus, WindowSelectionCandidate,
    WorkspaceStatus,
};
pub use selection::{parse_region_selection, CaptureSelection};

use vstd::prelude::*;

use crate::chars::{append_chars, chars_of, string_from_chars};

verus! {

/// Why a capture failed.
#[derive(Debug, Clone)]
pub enum CaptureError {
    CommandFailed { command: String, message: String },
    CommandIo { command: String, message: String },
    NoFocusedMonitor,
    InvalidMonitorMetadata { message: String },
    InvalidWindowMetadata { message: String },
    InvalidCaptureArtifact { message: String },
    InvalidSelection { message: String },
    ImageReadFailed { message: String },
}

fn prefixed(prefix: &str, rest: &String) -> (s: String)
    ensures
        s@ == prefix@ + rest@,
{
    let mut v = chars_of(prefix);
    append_chars(&mut v, &chars_of(rest.as_str()));
    string_from_chars(&v)
}

impl CaptureError {
    /// The error as shown to the user.
    pub fn describe(&self) -> (s: String)
        ensures
            s@ == match self {
                CaptureError::CommandFailed { command, .. } => "command failed: "@ + command@,
                CaptureError::CommandIo { command, .. } => "command io error: "@ + command@,
                CaptureError::NoFocusedMonitor => "no focused monitor found"@,
                CaptureError::InvalidMonitorMetadata { message } => "invalid monitor metadata: "@
                    + message@,
                CaptureError::InvalidWindowMetadata { message } => "invalid window metadata: "@
                    + message@,
                CaptureError::InvalidCaptureArtifact { message } => "invalid capture artifact: "@
                    + message@,
                CaptureError::InvalidSelection { message } => "invalid capture selection: "@
                    + message@,
                CaptureError::ImageReadFailed { message } =>
                    "failed to read captured image dimensions: "@ + message@,
            },
    {
        match self {
            CaptureError::CommandFailed { command, .. } => prefixed("command failed: ", command),
            CaptureError::CommandIo { command, .. } => prefixed("command io error: ", command),
            CaptureError::NoFocusedMonitor => string_from_chars(&chars_of("no focused monitor found")),
            CaptureError::InvalidMonitorMetadata { message } => prefixed(
                "invalid monitor metadata: ",
                message,
            ),
            CaptureError::InvalidWindowMetadata { message } => prefixed(
                "invalid window metadata: ",
                message,
            ),
            CaptureError::InvalidCaptureArtifact { message } => prefixed(
                "invalid capture artifact: ",
                message,
            ),
            CaptureError::InvalidSelection { message } => prefixed(
                "invalid capture selection: ",
                message,
            ),
            CaptureError::ImageReadFailed { message } => prefixed(
                "failed to read captured image dimensions: ",
                message,
            ),
        }
    }
}

/// What a finished command that was to print something comes to: a failed exit is
/// `CommandFailed` with the exit status and what it wrote to stderr, empty output is
/// `CommandFailed` too, and otherwise its output.
pub open spec fn spec_command_output(
    command: Seq<char>,
    success: bool,
    status: Seq<char>,
    stdout: Seq<char>,
    stderr: Seq<char>,
    r: Result<String, CaptureError>,
) -> bool {
    if !success {
        r matches Err(CaptureError::CommandFailed { command: c, message }) && c@ == command && message@
            == "exit status: "@ + status + "; stderr: "@ + stderr
    } else if stdout.len() == 0 {
        r matches Err(CaptureError::CommandFailed { command: c, message }) && c@ == command && message@
            == "command produced no stdout output"@
    } else {
        r matches Ok(out) && out@ == stdout
    }
}

pub fn command_output_outcome(command: &str, success: bool, status: &str, stdout: String, stderr: &str) -> (r:
    Result<String, CaptureError>)
    ensures
        spec_command_output(command@, success, status@, stdout@, stderr@, r),
{
    if !success {
        let mut m = chars_of("exit status: ");
        append_chars(&mut m, &chars_of(status));
        append_chars(&mut m, &chars_of("; stderr: "));
        append_chars(&mut m, &chars_of(stderr));
        return Err(
            CaptureError::CommandFailed {
                command: string_from_chars(&chars_of(command)),
                message: string_from_chars(&m),
            },
        );
    }
    if stdout.unicode_len() == 0 {
        return Err(
            CaptureError::CommandFailed {
                command: string_from_chars(&chars_of(command)),
                message: string_from_chars(&chars_of("command produced no stdout output")),
            },
        );
    }
    Ok(stdout)
}

/// What a finished command that writes a file comes to: its exit, or `CommandFailed` with
/// the exit status.
pub fn command_status_outcome(command: &str, success: bool, status: &str) -> (r: Result<(), CaptureError>)
    ensures
        success ==> r is Ok,
        !success ==> (r matches Err(CaptureError::CommandFailed { command: c, message }) && c@ == command@
            && message@ == "command exited with status: "@ + status@),
{
    if success {
        Ok(())
    } else {
        let mut m = chars_of("command exited with status: ");
        append_chars(&mut m, &chars_of(status));
        Err(
            CaptureError::CommandFailed {
                command: string_from_chars(&chars_of(command)),
                message: string_from_chars(&m),
            },
        )
    }
}

} // verus!
