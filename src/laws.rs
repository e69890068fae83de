use vstd::prelude::*;
use crate::action::{resolve_spec, Action};
use crate::clipboard::{error_message, ClipboardError};
use crate::keys::KeyPress;
use crate::state::{next, stamped, AppView};

verus! {

/// Clearing leaves the text empty, whatever it held before, whatever error
/// was pending and whatever the clipboard answers.
pub proof fn lemma_clear_empties_text(
    s: AppView,
    key: KeyPress,
    read: Option<Seq<char>>,
    write: Result<(), ClipboardError>,
    stamp: Seq<char>,
)
    requires
        !s.exit,
        resolve_spec(key) == Some(Action::ClearText),
    ensures
        next(s, key, read, write, stamp).text == Seq::<char>::empty(),
        next(s, key, read, write, stamp).last_error == s.last_error,
{
}

/// The exit key ends the run, and an ended run takes no further step: every
/// later key press leaves the whole state as it is.
pub proof fn lemma_exit_is_final(
    s: AppView,
    key: KeyPress,
    read: Option<Seq<char>>,
    write: Result<(), ClipboardError>,
    stamp: Seq<char>,
    later: KeyPress,
    read2: Option<Seq<char>>,
    write2: Result<(), ClipboardError>,
    stamp2: Seq<char>,
)
    requires
        resolve_spec(key) == Some(Action::Exit),
    ensures
        next(s, key, read, write, stamp).exit,
        next(next(s, key, read, write, stamp), later, read2, write2, stamp2) == next(
            s,
            key,
            read,
            write,
            stamp,
        ),
{
}

/// A key press bound to no action changes neither the text, nor the last
/// action, nor the last error; it is still recorded as the last key.
pub proof fn lemma_unbound_key_only_recorded(
    s: AppView,
    key: KeyPress,
    read: Option<Seq<char>>,
    write: Result<(), ClipboardError>,
    stamp: Seq<char>,
)
    requires
        !s.exit,
        resolve_spec(key).is_none(),
    ensures
        next(s, key, read, write, stamp) == (AppView { last_key: Some(key), ..s }),
{
}

/// Copying without a clipboard handle keeps the text, records the copy as the
/// last action and stores the stamped "unavailable" message as the last error.
pub proof fn lemma_copy_without_clipboard(
    s: AppView,
    key: KeyPress,
    read: Option<Seq<char>>,
    stamp: Seq<char>,
)
    requires
        !s.exit,
        resolve_spec(key) == Some(Action::CopyToClipboard),
    ensures
        next(s, key, read, Err(ClipboardError::Unavailable), stamp).text == s.text,
        next(s, key, read, Err(ClipboardError::Unavailable), stamp).last_action == Some(
            Action::CopyToClipboard,
        ),
        next(s, key, read, Err(ClipboardError::Unavailable), stamp).last_error == Some(
            stamp + ": "@ + "Clipboard unavailable"@,
        ),
{
    assert(error_message(ClipboardError::Unavailable) == "Clipboard unavailable"@);
    assert(stamped(stamp, ClipboardError::Unavailable) == stamp + ": "@ + "Clipboard unavailable"@);
}

} // verus!
