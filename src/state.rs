use vstd::prelude::*;
use vstd::string::StringExecFns;
use crate::action::{normalizes_text, reads_clipboard, resolve, resolve_spec, writes_clipboard, Action};
use crate::clipboard::{error_message, open_system_clipboard, read_text, write_text, ClipboardError};
use crate::keys::KeyPress;
use crate::text::{collapse, normalize_whitespace};

verus! {

/// What the application shows and decides on, without the clipboard handle.
pub struct AppView {
    pub text: Seq<char>,
    pub last_key: Option<KeyPress>,
    pub last_action: Option<Action>,
    pub last_error: Option<Seq<char>>,
    pub exit: bool,
}

pub open spec fn opt_str_view(o: Option<String>) -> Option<Seq<char>> {
    match o {
        Some(s) => Some(s@),
        None => None,
    }
}

/// The message stored for a failure that happened at time `stamp`.
pub open spec fn stamped(stamp: Seq<char>, e: ClipboardError) -> Seq<char> {
    stamp + ": "@ + error_message(e)
}

/// The first part of a step on a key press, given what a read of the
/// clipboard gave (`None` for a miss). Once exited, nothing changes.
/// Otherwise the key is recorded; a key press that resolves to an action
/// records that action and applies it: a paste takes the text read (a miss
/// leaves the text), a whitespace removal collapses the text, a clear empties
/// it and an exit ends the run. A quick fix pastes, then collapses.
pub open spec fn begin_next(s: AppView, key: KeyPress, read: Option<Seq<char>>) -> AppView {
    if s.exit {
        s
    } else {
        match resolve_spec(key) {
            None => AppView { last_key: Some(key), ..s },
            Some(a) => {
                let pasted = if reads_clipboard(a) && read is Some {
                    read->0
                } else {
                    s.text
                };
                let text = if normalizes_text(a) {
                    collapse(pasted)
                } else if a == Action::ClearText {
                    Seq::<char>::empty()
                } else {
                    pasted
                };
                AppView {
                    text,
                    last_key: Some(key),
                    last_action: Some(a),
                    last_error: s.last_error,
                    exit: a == Action::Exit,
                }
            },
        }
    }
}

/// Whether a step on `key` from a state that is still running writes the
/// clipboard.
pub open spec fn step_writes(running: bool, key: KeyPress) -> bool {
    running && resolve_spec(key) is Some && writes_clipboard(resolve_spec(key)->0)
}

/// The last part of a step, after `begin_next`: where the step writes the
/// clipboard and the write failed at time `stamp`, the stamped message
/// replaces the last error; otherwise nothing changes.
pub open spec fn finish_next(
    s: AppView,
    key: KeyPress,
    write: Result<(), ClipboardError>,
    stamp: Seq<char>,
) -> AppView {
    if step_writes(!s.exit, key) && write is Err {
        AppView { last_error: Some(stamped(stamp, write->Err_0)), ..s }
    } else {
        s
    }
}

/// One whole step on a key press: `begin_next`, then the write of the text
/// to the clipboard where the action copies, then `finish_next`. The last
/// error is kept until a later failure replaces it.
pub open spec fn next(
    s: AppView,
    key: KeyPress,
    read: Option<Seq<char>>,
    write: Result<(), ClipboardError>,
    stamp: Seq<char>,
) -> AppView {
    finish_next(begin_next(s, key, read), key, write, stamp)
}

/// The application: the text buffer, what happened last, whether the run has
/// ended, and the clipboard handle acquired at start, if any.
pub struct App {
    exit: bool,
    clipboard: Option<arboard::Clipboard>,
    text: String,
    last_pressed_key: Option<KeyPress>,
    last_error: Option<String>,
    last_action: Option<Action>,
}

impl View for App {
    type V = AppView;

    closed spec fn view(&self) -> AppView {
        AppView {
            text: self.text@,
            last_key: self.last_pressed_key,
            last_action: self.last_action,
            last_error: opt_str_view(self.last_error),
            exit: self.exit,
        }
    }
}

/// Relies on `chrono::Local::now` and `DateTime::format`: the local time now,
/// written as `YYYY-MM-DD hh:mm:ss`.
#[verifier::external_body]
fn local_timestamp() -> (r: String) {
    chrono::Local::now().format("%Y-%m-%d %H:%M:%S").to_string()
}

impl App {
    /// Whether the application holds a clipboard handle.
    pub closed spec fn has_clipboard_spec(&self) -> bool {
        self.clipboard.is_some()
    }

    /// Empty text, nothing recorded yet, still running.
    pub open spec fn is_initial(&self) -> bool {
        &&& self@.text == Seq::<char>::empty()
        &&& self@.last_key.is_none()
        &&& self@.last_action.is_none()
        &&& self@.last_error.is_none()
        &&& !self@.exit
    }

    /// A fresh application with no clipboard handle: reads miss and writes
    /// fail as unavailable.
    pub fn without_clipboard() -> (r: App)
        ensures
            r.is_initial(),
            !r.has_clipboard_spec(),
    {
        App {
            exit: false,
            clipboard: None,
            text: String::new(),
            last_pressed_key: None,
            last_error: None,
            last_action: None,
        }
    }

    /// A fresh application holding a handle to the system clipboard if one
    /// can be had now; if not, it goes without for the whole run.
    pub fn with_system_clipboard() -> (r: App)
        ensures
            r.is_initial(),
    {
        let clipboard = match open_system_clipboard() {
            Ok(cb) => Some(cb),
            Err(_) => None,
        };
        App {
            exit: false,
            clipboard,
            text: String::new(),
            last_pressed_key: None,
            last_error: None,
            last_action: None,
        }
    }

    /// Whether a clipboard handle was acquired.
    pub fn has_clipboard(&self) -> (r: bool)
        ensures
            r == self.has_clipboard_spec(),
    {
        self.clipboard.is_some()
    }

    /// The text buffer.
    pub fn text(&self) -> (r: &str)
        ensures
            r@ == self@.text,
    {
        self.text.as_str()
    }

    /// The most recent key press.
    pub fn last_pressed_key(&self) -> (r: Option<KeyPress>)
        ensures
            r == self@.last_key,
    {
        self.last_pressed_key
    }

    /// The most recently dispatched action.
    pub fn last_action(&self) -> (r: Option<Action>)
        ensures
            r == self@.last_action,
    {
        self.last_action
    }

    /// The most recent reportable failure, stamped with its time.
    pub fn last_error(&self) -> (r: Option<&str>)
        ensures
            r is Some == self@.last_error is Some,
            r matches Some(e) ==> self@.last_error == Some(e@),
    {
        match &self.last_error {
            Some(e) => Some(e.as_str()),
            None => None,
        }
    }

    /// Replaces the text buffer, as typing or loading would.
    pub fn set_text(&mut self, text: String)
        ensures
            final(self)@ == (AppView { text: text@, ..old(self)@ }),
            final(self).has_clipboard_spec() == old(self).has_clipboard_spec(),
    {
        self.text = text;
    }

    /// Whether the run has ended.
    pub fn exit_requested(&self) -> (r: bool)
        ensures
            r == self@.exit,
    {
        self.exit
    }

    /// Collapses every run of whitespace in the text to one space.
    pub fn remove_extra_spaces(&mut self)
        ensures
            final(self)@ == (AppView { text: collapse(old(self)@.text), ..old(self)@ }),
            final(self).has_clipboard_spec() == old(self).has_clipboard_spec(),
    {
        self.text = normalize_whitespace(self.text.as_str());
    }

    /// Empties the text.
    pub fn clear_text(&mut self)
        ensures
            final(self)@ == (AppView { text: Seq::<char>::empty(), ..old(self)@ }),
            final(self).has_clipboard_spec() == old(self).has_clipboard_spec(),
    {
        self.text = String::new();
    }

    fn request_exit(&mut self)
        ensures
            final(self)@ == (AppView { exit: true, ..old(self)@ }),
            final(self).has_clipboard_spec() == old(self).has_clipboard_spec(),
    {
        self.exit = true;
    }

    /// Stores the message of `e`, stamped with `stamp`, as the last error.
    fn record_error(&mut self, e: &ClipboardError, stamp: &str)
        ensures
            final(self)@ == (AppView { last_error: Some(stamped(stamp@, *e)), ..old(self)@ }),
            final(self).has_clipboard_spec() == old(self).has_clipboard_spec(),
    {
        let msg = String::from_str(stamp).concat(": ").concat(e.message().as_str());
        self.last_error = Some(msg);
    }
    /// Applies what `a` does to the text and the run, past any paste:
    /// collapsing, clearing or exiting.
    fn apply_local_effect(&mut self, a: Action)
        ensures
            final(self)@ == (AppView {
                text: if normalizes_text(a) {
                    collapse(old(self)@.text)
                } else if a == Action::ClearText {
                    Seq::<char>::empty()
                } else {
                    old(self)@.text
                },
                exit: old(self)@.exit || a == Action::Exit,
                ..old(self)@
            }),
            final(self).has_clipboard_spec() == old(self).has_clipboard_spec(),
    {
        match a {
            Action::RemoveExtraSpaces | Action::QuickFix => self.remove_extra_spaces(),
            Action::ClearText => self.clear_text(),
            Action::Exit => self.request_exit(),
            Action::PasteFromClipboard | Action::CopyToClipboard => {},
        }
    }

    /// The first part of a step on a key press, with `read` what a read of
    /// the clipboard gave. Returns the text to hand to the clipboard where
    /// the step writes it.
    pub fn begin_step(&mut self, key: KeyPress, read: Option<String>) -> (sent: Option<String>)
        ensures
            final(self)@ == begin_next(old(self)@, key, opt_str_view(read)),
            final(self).has_clipboard_spec() == old(self).has_clipboard_spec(),
            sent is Some <==> step_writes(!old(self)@.exit, key),
            sent matches Some(t) ==> t@ == final(self)@.text,
    {
        if self.exit {
            return None;
        }
        self.last_pressed_key = Some(key);
        match resolve(&key) {
            None => None,
            Some(a) => {
                self.last_action = Some(a);
                if a.reads_clipboard() {
                    match read {
                        Some(t) => self.text = t,
                        None => {},
                    }
                }
                self.apply_local_effect(a);
                if a.writes_clipboard() {
                    Some(self.text.clone())
                } else {
                    None
                }
            },
        }
    }

    /// The last part of a step on `key`, with `write` how the write to the
    /// clipboard went and `stamp` the time of a failure.
    pub fn finish_step(&mut self, key: KeyPress, write: Result<(), ClipboardError>, stamp: &str)
        ensures
            final(self)@ == finish_next(old(self)@, key, write, stamp@),
            final(self).has_clipboard_spec() == old(self).has_clipboard_spec(),
    {
        if !self.exit {
            if let Some(a) = resolve(&key) {
                if a.writes_clipboard() {
                    match write {
                        Ok(()) => {},
                        Err(e) => self.record_error(&e, stamp),
                    }
                }
            }
        }
    }

    /// One step on a key press, with the clipboard's answers given rather
    /// than asked for: `read` is what a read of it gives (`None` for a miss),
    /// `write` how a write to it goes, and `stamp` the time of a failure.
    /// Returns the text that the step hands to the clipboard, if it writes.
    pub fn step_with(
        &mut self,
        key: KeyPress,
        read: Option<String>,
        write: Result<(), ClipboardError>,
        stamp: &str,
    ) -> (sent: Option<String>)
        ensures
            final(self)@ == next(old(self)@, key, opt_str_view(read), write, stamp@),
            final(self).has_clipboard_spec() == old(self).has_clipboard_spec(),
            sent is Some <==> step_writes(!old(self)@.exit, key),
            sent matches Some(t) ==> t@ == final(self)@.text,
    {
        let sent = self.begin_step(key, read);
        self.finish_step(key, write, stamp);
        sent
    }

    /// One step on a key press, asking the clipboard and the clock where the
    /// action needs them: what `read_text` gives goes to `begin_step`, the
    /// text that it returns goes to `write_text`, and how that went goes to
    /// `finish_step`. So the step is `next` for the clipboard's answers:
    /// without a handle every read misses and every write fails as
    /// unavailable; with one, a write never fails as unavailable.
    pub fn on_key_pressed(&mut self, key: KeyPress)
        ensures
            final(self).has_clipboard_spec() == old(self).has_clipboard_spec(),
            exists|read: Option<Seq<char>>, write: Result<(), ClipboardError>, stamp: Seq<char>|
                {
                    &&& #[trigger] next(old(self)@, key, read, write, stamp) == final(self)@
                    &&& !old(self).has_clipboard_spec() ==> read is None && write == Err::<
                        (),
                        ClipboardError,
                    >(ClipboardError::Unavailable)
                    &&& old(self).has_clipboard_spec() ==> !(write matches Err(
                        ClipboardError::Unavailable,
                    ))
                },
            old(self)@.exit ==> final(self)@ == old(self)@,
            !old(self)@.exit ==> final(self)@.last_key == Some(key),
            !old(self)@.exit && resolve_spec(key) is None ==> final(self)@ == (AppView {
                last_key: Some(key),
                ..old(self)@
            }),
            !old(self)@.exit && resolve_spec(key) == Some(Action::ClearText) ==> {
                &&& final(self)@.text == Seq::<char>::empty()
                &&& final(self)@.last_action == Some(Action::ClearText)
                &&& final(self)@.last_error == old(self)@.last_error
                &&& !final(self)@.exit
            },
            resolve_spec(key) == Some(Action::Exit) ==> final(self)@.exit,
            !old(self)@.exit && resolve_spec(key) == Some(Action::CopyToClipboard)
                && !old(self).has_clipboard_spec() ==> {
                &&& final(self)@.text == old(self)@.text
                &&& final(self)@.last_action == Some(Action::CopyToClipboard)
                &&& exists|stamp: Seq<char>|
                    final(self)@.last_error == Some(#[trigger] stamped(stamp, ClipboardError::Unavailable))
            },
    {
        let ghost s0 = self@;
        let ghost had_handle = self.clipboard.is_some();
        let ghost mut write_w: Result<(), ClipboardError> = if had_handle {
            Ok(())
        } else {
            Err(ClipboardError::Unavailable)
        };
        let ghost mut stamp_w: Seq<char> = Seq::empty();
        let mut read: Option<String> = None;
        if !self.exit {
            if let Some(a) = resolve(&key) {
                if a.reads_clipboard() {
                    read = read_text(&mut self.clipboard);
                }
            }
        }
        let ghost read_w = opt_str_view(read);
        let ghost s1 = begin_next(s0, key, read_w);
        let sent = self.begin_step(key, read);
        match sent {
            Some(t) => {
                let res = write_text(&mut self.clipboard, t);
                match res {
                    Ok(()) => {
                        self.finish_step(key, Ok(()), "");
                        proof {
                            write_w = Ok(());
                        }
                    },
                    Err(e) => {
                        let stamp = local_timestamp();
                        proof {
                            write_w = Err(e);
                            stamp_w = stamp@;
                        }
                        self.finish_step(key, Err(e), stamp.as_str());
                    },
                }
            },
            None => {},
        }
        assert(next(s0, key, read_w, write_w, stamp_w) == self@);
        proof {
            if !s0.exit && resolve_spec(key) == Some(Action::CopyToClipboard) && !had_handle {
                assert(self@.last_error == Some(stamped(stamp_w, ClipboardError::Unavailable)));
            }
        }
    }
}

} // verus!
