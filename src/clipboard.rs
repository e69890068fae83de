use vstd::prelude::*;
use vstd::string::StringExecFns;

verus! {

#[verifier::external_type_specification]
#[verifier::external_body]
pub struct ExClipboard(arboard::Clipboard);

#[verifier::external_type_specification]
#[verifier::external_body]
pub struct ExClipboardFault(arboard::Error);

/// A reportable failure of the clipboard.
#[derive(Debug, PartialEq, Eq)]
pub enum ClipboardError {
    /// No clipboard handle could be had, so nothing can be written.
    Unavailable,
    /// The platform refused a write; the platform's own description.
    WriteFailure(String),
}

/// The message shown for a clipboard failure.
pub open spec fn error_message(e: ClipboardError) -> Seq<char> {
    match e {
        ClipboardError::Unavailable => "Clipboard unavailable"@,
        ClipboardError::WriteFailure(m) => m@,
    }
}

impl ClipboardError {
    /// The message shown for this failure.
    pub fn message(&self) -> (r: String)
        ensures
            r@ == error_message(*self),
    {
        match self {
            ClipboardError::Unavailable => String::from_str("Clipboard unavailable"),
            ClipboardError::WriteFailure(m) => m.clone(),
        }
    }
}

/// Relies on `arboard::Clipboard::new`: a handle to the system clipboard, or
/// the reason none can be had.
#[verifier::external_body]
pub(crate) fn open_system_clipboard() -> (r: Result<arboard::Clipboard, arboard::Error>) {
    arboard::Clipboard::new()
}

/// Relies on `arboard::Clipboard::get_text`: the clipboard's UTF-8 text, or an
/// error when it is empty or holds no text.
#[verifier::external_body]
fn clipboard_get_text(cb: &mut arboard::Clipboard) -> (r: Result<String, arboard::Error>) {
    cb.get_text()
}

/// Relies on `arboard::Clipboard::set_text`: places the text on the
/// clipboard, or tells why it could not.
#[verifier::external_body]
fn clipboard_set_text(cb: &mut arboard::Clipboard, text: String) -> (r: Result<(), arboard::Error>) {
    cb.set_text(text)
}

/// Relies on the `Display` impl of `arboard::Error`: a short description of
/// the failure.
#[verifier::external_body]
fn fault_description(e: &arboard::Error) -> (r: String) {
    e.to_string()
}

/// Reads the clipboard's text. A missing handle, an empty clipboard and
/// content that is not text all come back as `None`: a read never reports.
pub(crate) fn read_text(handle: &mut Option<arboard::Clipboard>) -> (r: Option<String>)
    ensures
        final(handle).is_some() == old(handle).is_some(),
        old(handle).is_none() ==> r.is_none(),
{
    match handle.take() {
        Some(mut cb) => {
            let got = clipboard_get_text(&mut cb);
            *handle = Some(cb);
            match got {
                Ok(t) => Some(t),
                Err(_) => None,
            }
        },
        None => None,
    }
}

/// The library's account of how a write to an existing handle went: `Ok`
/// exactly when the platform accepted it, else a `WriteFailure` with the
/// platform's description.
pub(crate) fn write_outcome(res: Result<(), arboard::Error>) -> (r: Result<(), ClipboardError>)
    ensures
        r is Ok <==> res is Ok,
        r is Err ==> r->Err_0 is WriteFailure,
{
    match res {
        Ok(()) => Ok(()),
        Err(e) => Err(ClipboardError::WriteFailure(fault_description(&e))),
    }
}

/// Writes `text` to the clipboard through the handle. Without a handle this
/// fails with `Unavailable`; with one, the result is `write_outcome` of what
/// `set_text` returned, so it is never `Unavailable`.
pub(crate) fn write_text(handle: &mut Option<arboard::Clipboard>, text: String) -> (r: Result<(), ClipboardError>)
    ensures
        final(handle).is_some() == old(handle).is_some(),
        old(handle).is_none() ==> r == Err::<(), ClipboardError>(ClipboardError::Unavailable),
        old(handle).is_some() ==> !(r matches Err(ClipboardError::Unavailable)),
{
    match handle.take() {
        Some(mut cb) => {
            let res = clipboard_set_text(&mut cb, text);
            *handle = Some(cb);
            write_outcome(res)
        },
        None => Err(ClipboardError::Unavailable),
    }
}

} // verus!
