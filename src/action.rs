use vstd::prelude::*;
use crate::keys::{KeyCode, KeyPress};

verus! {

/// What a key press asks of the application.
#[derive(Clone, Copy, PartialEq, Eq, Debug, Structural)]
pub enum Action {
    PasteFromClipboard,
    RemoveExtraSpaces,
    CopyToClipboard,
    ClearText,
    /// Paste, then remove extra spaces, then copy, in that order.
    QuickFix,
    Exit,
}

/// The label shown for an action.
pub open spec fn action_text(a: Action) -> Seq<char> {
    match a {
        Action::PasteFromClipboard => "Pasted text from clipboard"@,
        Action::RemoveExtraSpaces => "Removed extra spaces"@,
        Action::CopyToClipboard => "Copied text to clipboard"@,
        Action::ClearText => "Cleared text"@,
        Action::QuickFix => "Quick fix applied. Your clipboard was updated."@,
        Action::Exit => "Exiting application"@,
    }
}

/// Whether the action reads the clipboard.
pub open spec fn reads_clipboard(a: Action) -> bool {
    a == Action::PasteFromClipboard || a == Action::QuickFix
}

/// Whether the action writes the clipboard.
pub open spec fn writes_clipboard(a: Action) -> bool {
    a == Action::CopyToClipboard || a == Action::QuickFix
}

/// Whether the action collapses the whitespace of the text.
pub open spec fn normalizes_text(a: Action) -> bool {
    a == Action::RemoveExtraSpaces || a == Action::QuickFix
}

/// The key bindings: F1 quick fix, F2 paste, F3 remove extra spaces, F4 copy,
/// F5 clear, each without modifiers, and Control+c (Control alone) to exit.
/// Every other key press resolves to no action.
pub open spec fn resolve_spec(key: KeyPress) -> Option<Action> {
    match key.code {
        KeyCode::F(n) => {
            if !key.modifiers.is_empty_spec() {
                None
            } else if n == 1 {
                Some(Action::QuickFix)
            } else if n == 2 {
                Some(Action::PasteFromClipboard)
            } else if n == 3 {
                Some(Action::RemoveExtraSpaces)
            } else if n == 4 {
                Some(Action::CopyToClipboard)
            } else if n == 5 {
                Some(Action::ClearText)
            } else {
                None
            }
        },
        KeyCode::Char(c) => {
            if c == 'c' && key.modifiers.is_control_only_spec() {
                Some(Action::Exit)
            } else {
                None
            }
        },
        _ => None,
    }
}

impl Action {
    /// The label shown for this action.
    pub fn as_str(&self) -> (r: &'static str)
        ensures
            r@ == action_text(*self),
    {
        match self {
            Action::PasteFromClipboard => "Pasted text from clipboard",
            Action::RemoveExtraSpaces => "Removed extra spaces",
            Action::CopyToClipboard => "Copied text to clipboard",
            Action::ClearText => "Cleared text",
            Action::QuickFix => "Quick fix applied. Your clipboard was updated.",
            Action::Exit => "Exiting application",
        }
    }

    pub fn reads_clipboard(&self) -> (r: bool)
        ensures
            r == reads_clipboard(*self),
    {
        matches!(self, Action::PasteFromClipboard | Action::QuickFix)
    }

    pub fn writes_clipboard(&self) -> (r: bool)
        ensures
            r == writes_clipboard(*self),
    {
        matches!(self, Action::CopyToClipboard | Action::QuickFix)
    }
}

/// The action that a key press asks for, if any.
pub fn resolve(key: &KeyPress) -> (r: Option<Action>)
    ensures
        r == resolve_spec(*key),
{
    match key.code {
        KeyCode::F(n) => {
            if !key.modifiers.is_empty() {
                None
            } else if n == 1 {
                Some(Action::QuickFix)
            } else if n == 2 {
                Some(Action::PasteFromClipboard)
            } else if n == 3 {
                Some(Action::RemoveExtraSpaces)
            } else if n == 4 {
                Some(Action::CopyToClipboard)
            } else if n == 5 {
                Some(Action::ClearText)
            } else {
                None
            }
        },
        KeyCode::Char(c) => {
            if c == 'c' && key.modifiers.is_control_only() {
                Some(Action::Exit)
            } else {
                None
            }
        },
        _ => None,
    }
}

} // verus!
