//! Copying a capture to the clipboard: the backend interface, the errors a backend reports,
//! and the payloads offered for a copied file.

use vstd::prelude::*;

use crate::chars::{append_chars, chars_of, copy_text, string_from_chars};
use crate::text::{ascii_lower, spec_ascii_lower};

verus! {

/// Why a clipboard copy failed; paths and causes are carried as text.
#[derive(Debug, Clone)]
pub enum ClipboardError {
    OpenFile { path: String, message: String },
    CommandIo { command: String, message: String },
    PathToUri { path: String, message: String },
    ReadFile { path: String, message: String },
    DisplayUnavailable,
    SetContent { message: String },
    CommandFailed { status: String },
}

/// Something that can put a file on the clipboard. Implementations talk to the desktop,
/// so nothing is promised of what they return. Each method's result is tied to the path it
/// was handed by a relation that an implementation may define (left undefined, it holds of
/// every result), so that a caller can state which file it asked to copy.
pub trait ClipboardBackend {
    /// `r` is what copying the PNG file at `path` came to.
    closed spec fn spec_copied_png(&self, path: Seq<char>, r: Result<(), ClipboardError>) -> bool {
        true
    }

    /// `r` is what copying the file at `path` came to.
    closed spec fn spec_copied(&self, path: Seq<char>, r: Result<(), ClipboardError>) -> bool {
        true
    }

    /// Copies the bytes of a PNG file.
    fn copy_png_file(&self, path: &str) -> (r: Result<(), ClipboardError>)
        ensures
            self.spec_copied_png(path@, r),
    ;

    /// Copies a file as a file reference, with its path as text.
    fn copy(&self, path: &str) -> (r: Result<(), ClipboardError>)
        ensures
            self.spec_copied(path@, r),
    ;
}

pub open spec fn spec_clipboard_error_text(e: ClipboardError) -> Seq<char> {
    match e {
        ClipboardError::OpenFile { path, message } => "failed to open file "@ + path@ + ": "@ + message@,
        ClipboardError::CommandIo { command, .. } => "failed to run wl-copy command: "@ + command@,
        ClipboardError::PathToUri { path, message } => "failed to convert path to file URI "@ + path@
            + ": "@ + message@,
        ClipboardError::ReadFile { path, message } => "failed to read image file "@ + path@ + ": "@
            + message@,
        ClipboardError::DisplayUnavailable => "failed to access default display for clipboard operations"@,
        ClipboardError::SetContent { message } => "failed to set clipboard content: "@ + message@,
        ClipboardError::CommandFailed { status } => "wl-copy exited with non-zero status: "@ + status@,
    }
}

fn joined(a: &str, b: &str) -> (s: String)
    ensures
        s@ == a@ + b@,
{
    let mut v = chars_of(a);
    append_chars(&mut v, &chars_of(b));
    string_from_chars(&v)
}

fn joined3(a: &str, b: &str, c: &str) -> (s: String)
    ensures
        s@ == a@ + b@ + c@,
{
    let mut v = chars_of(a);
    append_chars(&mut v, &chars_of(b));
    append_chars(&mut v, &chars_of(c));
    string_from_chars(&v)
}

impl ClipboardError {
    /// The error as shown to the user.
    pub fn describe(&self) -> (s: String)
        ensures
            s@ == spec_clipboard_error_text(*self),
    {
        match self {
            ClipboardError::OpenFile { path, message } => {
                let head = joined3("failed to open file ", path.as_str(), ": ");
                joined(head.as_str(), message.as_str())
            },
            ClipboardError::CommandIo { command, .. } => joined("failed to run wl-copy command: ", command.as_str()),
            ClipboardError::PathToUri { path, message } => {
                let head = joined3("failed to convert path to file URI ", path.as_str(), ": ");
                joined(head.as_str(), message.as_str())
            },
            ClipboardError::ReadFile { path, message } => {
                let head = joined3("failed to read image file ", path.as_str(), ": ");
                joined(head.as_str(), message.as_str())
            },
            ClipboardError::DisplayUnavailable => copy_text("failed to access default display for clipboard operations"),
            ClipboardError::SetContent { message } => joined("failed to set clipboard content: ", message.as_str()),
            ClipboardError::CommandFailed { status } => joined("wl-copy exited with non-zero status: ", status.as_str()),
        }
    }
}

/// The `text/uri-list` payload for a file URI: the URI and a CRLF.
pub fn uri_list_payload(uri: &str) -> (s: String)
    ensures
        s@ == uri@ + "\r\n"@,
{
    joined(uri, "\r\n")
}

/// The GNOME copied-files payload for a file URI: `copy`, a newline, the URI.
pub fn gnome_copied_files_payload(uri: &str) -> (s: String)
    ensures
        s@ == "copy\n"@ + uri@,
{
    joined("copy\n", uri)
}

/// What a file copy offers, MIME type and payload, in order: the GNOME copied-files list,
/// the URI list, and the absolute path as UTF-8 and as plain text. The PNG bytes of a PNG
/// file are offered after these by the backend that reads them.
pub fn clipboard_text_offers(uri: &str, absolute_path: &str) -> (offers: Vec<(&'static str, String)>)
    ensures
        offers@.len() == 4,
        offers@[0].0@ == "x-special/gnome-copied-files"@,
        offers@[0].1@ == "copy\n"@ + uri@,
        offers@[1].0@ == "text/uri-list"@,
        offers@[1].1@ == uri@ + "\r\n"@,
        offers@[2].0@ == "text/plain;charset=utf-8"@,
        offers@[2].1@ == absolute_path@,
        offers@[3].0@ == "text/plain"@,
        offers@[3].1@ == absolute_path@,
{
    let mut offers: Vec<(&'static str, String)> = Vec::new();
    offers.push(("x-special/gnome-copied-files", gnome_copied_files_payload(uri)));
    offers.push(("text/uri-list", uri_list_payload(uri)));
    offers.push(("text/plain;charset=utf-8", copy_text(absolute_path)));
    offers.push(("text/plain", copy_text(absolute_path)));
    offers
}

/// Whether a file name has the extension `png`, in any ASCII case, as `Path::extension`
/// reads it: the text after the last dot, where something comes before that dot.
pub open spec fn spec_is_png_file_name(name: Seq<char>) -> bool {
    let n = name.len();
    &&& n >= 5
    &&& name[n - 4] == '.'
    &&& spec_ascii_lower(name[n - 3]) == 'p'
    &&& spec_ascii_lower(name[n - 2]) == 'n'
    &&& spec_ascii_lower(name[n - 1]) == 'g'
}

/// Whether a copied file is offered as PNG bytes too: its file name ends in `.png`, in any
/// ASCII case.
pub fn is_png_file_name(name: &str) -> (b: bool)
    ensures
        b == spec_is_png_file_name(name@),
{
    let v = chars_of(name);
    let n = v.len();
    if n < 5 {
        return false;
    }
    v[n - 4] == '.' && ascii_lower(v[n - 3]) == 'p' && ascii_lower(v[n - 2]) == 'n' && ascii_lower(v[n - 1])
        == 'g'
}

} // verus!
