//! Classification of clipboard reads.
use vstd::prelude::*;

verus! {

/// Message of the clipboard binding when the pasteboard holds nothing.
pub const PASTEBOARD_NULL_MESSAGE: &'static str = "NSPasteboard#stringForType returned null";

/// Message of the clipboard binding when the pasteboard holds no text (an image, say).
pub const PASTEBOARD_NON_STRING_MESSAGE: &'static str =
    "NSPasteboard#types doesn't contain NSPasteboardTypeString";

/// What one attempt to read the clipboard produced.
pub enum ClipboardRead {
    /// The clipboard holds this text.
    Text(String),
    /// The clipboard is empty or holds something other than text: not a fault.
    EmptyOrNonText,
    /// The clipboard could not be read; the message describes why.
    Fatal(String),
}

/// Whether a read failure with this message only means "no text on the clipboard".
pub open spec fn is_empty_or_non_text_message(message: Seq<char>) -> bool {
    message == PASTEBOARD_NULL_MESSAGE@ || message == PASTEBOARD_NON_STRING_MESSAGE@
}

/// Classifies a failed clipboard read by the message it came with: the two
/// messages that signal an empty or non-text clipboard are recoverable, every
/// other failure is fatal and keeps its message.
pub fn classify_read_failure(message: String) -> (r: ClipboardRead)
    ensures
        is_empty_or_non_text_message(message@) ==> r is EmptyOrNonText,
        !is_empty_or_non_text_message(message@) ==> (r matches ClipboardRead::Fatal(m)
            && m@ == message@),
{
    let null_message = String::from_str(PASTEBOARD_NULL_MESSAGE);
    let non_string_message = String::from_str(PASTEBOARD_NON_STRING_MESSAGE);
    if message == null_message || message == non_string_message {
        ClipboardRead::EmptyOrNonText
    } else {
        ClipboardRead::Fatal(message)
    }
}

} // verus!
