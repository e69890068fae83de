//! A small clipboard text fixer: a key-driven state machine that pastes text
//! from the system clipboard, collapses its whitespace and copies it back,
//! recording the last key, the last action and the last error.
mod action;
mod clipboard;
mod keys;
mod laws;
mod state;
mod text;

pub use action::{
    action_text, normalizes_text, reads_clipboard, resolve, resolve_spec, writes_clipboard, Action,
};
pub use clipboard::{error_message, ClipboardError};
pub use keys::{
    code_label, decimal, digit, join_plus, key_label, media_label, modifier_key_label, modifier_names,
    KeyCode, KeyPress, MediaKey, ModifierKey, Modifiers,
};
pub use laws::{
    lemma_clear_empties_text, lemma_copy_without_clipboard, lemma_exit_is_final,
    lemma_unbound_key_only_recorded,
};
pub use state::{begin_next, finish_next, next, opt_str_view, stamped, step_writes, App, AppView};
pub use text::{
    collapse, collapse_from, is_whitespace, lemma_normalize_idempotent, lemma_normalize_no_whitespace,
    normalize_whitespace,
};
