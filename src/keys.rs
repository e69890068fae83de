use vstd::prelude::*;
use vstd::string::StringExecFns;

verus! {

/// The key of a key press, as far as this library tells keys apart.
#[derive(Clone, Copy, PartialEq, Eq, Debug, Structural)]
pub enum KeyCode {
    Backspace,
    Enter,
    Left,
    Right,
    Up,
    Down,
    Home,
    End,
    PageUp,
    PageDown,
    Tab,
    BackTab,
    Delete,
    Insert,
    /// A function key, `F(1)` for F1.
    F(u8),
    Char(char),
    Null,
    Esc,
    CapsLock,
    ScrollLock,
    NumLock,
    PrintScreen,
    Pause,
    Menu,
    /// The keypad's middle key, "5" without Num Lock.
    KeypadBegin,
    Media(MediaKey),
    /// A modifier key pressed on its own.
    Modifier(ModifierKey),
}

/// A media key.
#[derive(Clone, Copy, PartialEq, Eq, Debug, Structural)]
pub enum MediaKey {
    Play,
    Pause,
    PlayPause,
    Reverse,
    Stop,
    FastForward,
    Rewind,
    TrackNext,
    TrackPrevious,
    Record,
    LowerVolume,
    RaiseVolume,
    MuteVolume,
}

/// A modifier key, told apart by side.
#[derive(Clone, Copy, PartialEq, Eq, Debug, Structural)]
pub enum ModifierKey {
    LeftShift,
    LeftControl,
    LeftAlt,
    LeftSuper,
    LeftHyper,
    LeftMeta,
    RightShift,
    RightControl,
    RightAlt,
    RightSuper,
    RightHyper,
    RightMeta,
    IsoLevel3Shift,
    IsoLevel5Shift,
}

/// The modifier keys held during a key press.
#[derive(Clone, Copy, PartialEq, Eq, Debug, Structural)]
pub struct Modifiers {
    pub shift: bool,
    pub control: bool,
    pub alt: bool,
    pub super_key: bool,
    pub hyper: bool,
    pub meta: bool,
}

impl Modifiers {
    /// No modifier held.
    pub fn none() -> (r: Modifiers)
        ensures
            r.is_empty_spec(),
    {
        Modifiers { shift: false, control: false, alt: false, super_key: false, hyper: false, meta: false }
    }

    /// Control held, and nothing else.
    pub fn control_only() -> (r: Modifiers)
        ensures
            r.is_control_only_spec(),
    {
        Modifiers { shift: false, control: true, alt: false, super_key: false, hyper: false, meta: false }
    }

    pub open spec fn is_empty_spec(&self) -> bool {
        !self.shift && !self.control && !self.alt && !self.super_key && !self.hyper && !self.meta
    }

    pub open spec fn is_control_only_spec(&self) -> bool {
        !self.shift && self.control && !self.alt && !self.super_key && !self.hyper && !self.meta
    }

    /// Whether no modifier is held.
    pub fn is_empty(&self) -> (r: bool)
        ensures
            r == self.is_empty_spec(),
    {
        !self.shift && !self.control && !self.alt && !self.super_key && !self.hyper && !self.meta
    }

    /// Whether Control is held and no other modifier.
    pub fn is_control_only(&self) -> (r: bool)
        ensures
            r == self.is_control_only_spec(),
    {
        !self.shift && self.control && !self.alt && !self.super_key && !self.hyper && !self.meta
    }
}

/// One key press: the key and the modifiers held with it.
#[derive(Clone, Copy, PartialEq, Eq, Debug, Structural)]
pub struct KeyPress {
    pub code: KeyCode,
    pub modifiers: Modifiers,
}

impl KeyPress {
    pub fn new(code: KeyCode, modifiers: Modifiers) -> (r: KeyPress)
        ensures
            r.code == code,
            r.modifiers == modifiers,
    {
        KeyPress { code, modifiers }
    }
}

/// The decimal digit for `d`, which is below ten.
pub open spec fn digit(d: nat) -> char {
    if d == 0 {
        '0'
    } else if d == 1 {
        '1'
    } else if d == 2 {
        '2'
    } else if d == 3 {
        '3'
    } else if d == 4 {
        '4'
    } else if d == 5 {
        '5'
    } else if d == 6 {
        '6'
    } else if d == 7 {
        '7'
    } else if d == 8 {
        '8'
    } else {
        '9'
    }
}

/// `n` written in decimal, without leading zeros.
pub open spec fn decimal(n: nat) -> Seq<char>
    decreases n,
{
    if n < 10 {
        seq![digit(n)]
    } else {
        decimal(n / 10).push(digit(n % 10))
    }
}

/// The label of a media key.
pub open spec fn media_label(k: MediaKey) -> Seq<char> {
    match k {
        MediaKey::Play => "Play"@,
        MediaKey::Pause => "Pause"@,
        MediaKey::PlayPause => "Play/Pause"@,
        MediaKey::Reverse => "Reverse"@,
        MediaKey::Stop => "Stop"@,
        MediaKey::FastForward => "Fast Forward"@,
        MediaKey::Rewind => "Rewind"@,
        MediaKey::TrackNext => "Next Track"@,
        MediaKey::TrackPrevious => "Previous Track"@,
        MediaKey::Record => "Record"@,
        MediaKey::LowerVolume => "Lower Volume"@,
        MediaKey::RaiseVolume => "Raise Volume"@,
        MediaKey::MuteVolume => "Mute Volume"@,
    }
}

/// The label of a modifier key.
pub open spec fn modifier_key_label(k: ModifierKey) -> Seq<char> {
    match k {
        ModifierKey::LeftShift => "Left Shift"@,
        ModifierKey::LeftControl => "Left Ctrl"@,
        ModifierKey::LeftAlt => "Left Alt"@,
        ModifierKey::LeftSuper => "Left Super"@,
        ModifierKey::LeftHyper => "Left Hyper"@,
        ModifierKey::LeftMeta => "Left Meta"@,
        ModifierKey::RightShift => "Right Shift"@,
        ModifierKey::RightControl => "Right Ctrl"@,
        ModifierKey::RightAlt => "Right Alt"@,
        ModifierKey::RightSuper => "Right Super"@,
        ModifierKey::RightHyper => "Right Hyper"@,
        ModifierKey::RightMeta => "Right Meta"@,
        ModifierKey::IsoLevel3Shift => "Iso Level 3 Shift"@,
        ModifierKey::IsoLevel5Shift => "Iso Level 5 Shift"@,
    }
}

/// The label of a key, without its modifiers.
pub open spec fn code_label(code: KeyCode) -> Seq<char> {
    match code {
        KeyCode::Backspace => "Backspace"@,
        KeyCode::Enter => "Enter"@,
        KeyCode::Left => "Left"@,
        KeyCode::Right => "Right"@,
        KeyCode::Up => "Up"@,
        KeyCode::Down => "Down"@,
        KeyCode::Home => "Home"@,
        KeyCode::End => "End"@,
        KeyCode::PageUp => "Page Up"@,
        KeyCode::PageDown => "Page Down"@,
        KeyCode::Tab => "Tab"@,
        KeyCode::BackTab => "Back Tab"@,
        KeyCode::Delete => "Del"@,
        KeyCode::Insert => "Insert"@,
        KeyCode::F(n) => "F"@ + decimal(n as nat),
        KeyCode::Char(c) => if c == ' ' {
            "Space"@
        } else {
            seq![c]
        },
        KeyCode::Null => "Null"@,
        KeyCode::Esc => "Esc"@,
        KeyCode::CapsLock => "Caps Lock"@,
        KeyCode::ScrollLock => "Scroll Lock"@,
        KeyCode::NumLock => "Num Lock"@,
        KeyCode::PrintScreen => "Print Screen"@,
        KeyCode::Pause => "Pause"@,
        KeyCode::Menu => "Menu"@,
        KeyCode::KeypadBegin => "Begin"@,
        KeyCode::Media(m) => media_label(m),
        KeyCode::Modifier(m) => modifier_key_label(m),
    }
}

/// The names of the modifiers held, in a fixed order.
pub open spec fn modifier_names(m: Modifiers) -> Seq<Seq<char>> {
    (if m.shift { seq!["Shift"@] } else { seq![] }) + (if m.control { seq!["Control"@] } else { seq![] })
        + (if m.alt { seq!["Alt"@] } else { seq![] }) + (if m.super_key { seq!["Super"@] } else { seq![] })
        + (if m.hyper { seq!["Hyper"@] } else { seq![] }) + (if m.meta { seq!["Meta"@] } else { seq![] })
}

/// The parts joined by `+`.
pub open spec fn join_plus(parts: Seq<Seq<char>>) -> Seq<char>
    decreases parts.len(),
{
    if parts.len() == 0 {
        Seq::empty()
    } else if parts.len() == 1 {
        parts[0]
    } else {
        join_plus(parts.drop_last()) + "+"@ + parts.last()
    }
}

/// The label of a key press: the key's label alone, or the modifiers'
/// names joined by `+`, then ` + ` and the key's label. The names are the
/// library's own and the same on every platform; they follow those that
/// crossterm shows on Linux, but several modifiers are always joined by `+`.
pub open spec fn key_label(k: KeyPress) -> Seq<char> {
    if k.modifiers.is_empty_spec() {
        code_label(k.code)
    } else {
        join_plus(modifier_names(k.modifiers)) + " + "@ + code_label(k.code)
    }
}

/// Relies on `String::push`: appends one character.
#[verifier::external_body]
fn push_char(s: &mut String, c: char)
    ensures
        final(s)@ == old(s)@.push(c),
{
    s.push(c)
}

fn digit_char(d: u8) -> (c: char)
    requires
        d < 10,
    ensures
        c == digit(d as nat),
{
    if d == 0 {
        '0'
    } else if d == 1 {
        '1'
    } else if d == 2 {
        '2'
    } else if d == 3 {
        '3'
    } else if d == 4 {
        '4'
    } else if d == 5 {
        '5'
    } else if d == 6 {
        '6'
    } else if d == 7 {
        '7'
    } else if d == 8 {
        '8'
    } else {
        '9'
    }
}

fn push_decimal(s: &mut String, n: u8)
    ensures
        final(s)@ == old(s)@ + decimal(n as nat),
{
    let ghost s0 = s@;
    reveal_with_fuel(decimal, 3);
    if n >= 100 {
        push_char(s, digit_char(n / 100));
    }
    if n >= 10 {
        push_char(s, digit_char((n / 10) % 10));
    }
    push_char(s, digit_char(n % 10));
    proof {
        let m = n as nat;
        if m >= 100 {
            assert(decimal(m / 100) == seq![digit(m / 100)]);
            assert((m / 10) / 10 == m / 100);
            assert(decimal(m / 10) == decimal(m / 100).push(digit((m / 10) % 10)));
            assert(s@ =~= s0 + decimal(m));
        } else if m >= 10 {
            assert(s@ =~= s0 + decimal(m));
        } else {
            assert(s@ =~= s0 + decimal(m));
        }
    }
}

/// Appends `name` to the parts joined so far.
fn push_part(out: &mut String, count: usize, name: &str, Ghost(parts): Ghost<Seq<Seq<char>>>)
    requires
        old(out)@ == join_plus(parts),
        count == parts.len(),
    ensures
        final(out)@ == join_plus(parts.push(name@)),
{
    if count > 0 {
        out.append("+");
    }
    out.append(name);
    assert(parts.push(name@).drop_last() =~= parts);
}

/// Appends `name` to the joined parts if `flag` holds; returns the new count.
fn push_flagged(out: &mut String, count: usize, flag: bool, name: &str, Ghost(parts): Ghost<Seq<Seq<char>>>) -> (c: usize)
    requires
        old(out)@ == join_plus(parts),
        count == parts.len(),
        count < 6,
    ensures
        final(out)@ == join_plus(parts + (if flag { seq![name@] } else { seq![] })),
        c == (parts + (if flag { seq![name@] } else { seq![] })).len(),
{
    if flag {
        push_part(out, count, name, Ghost(parts));
        assert(parts.push(name@) =~= parts + seq![name@]);
        count + 1
    } else {
        assert(parts + seq![] =~= parts);
        count
    }
}

fn modifiers_label(m: Modifiers) -> (r: String)
    ensures
        r@ == join_plus(modifier_names(m)),
{
    let mut out = String::new();
    let ghost p0: Seq<Seq<char>> = Seq::empty();
    let c = push_flagged(&mut out, 0, m.shift, "Shift", Ghost(p0));
    let ghost p1 = if m.shift { seq!["Shift"@] } else { seq![] };
    assert(p0 + p1 =~= p1);
    let c = push_flagged(&mut out, c, m.control, "Control", Ghost(p1));
    let ghost p2 = p1 + (if m.control { seq!["Control"@] } else { seq![] });
    let c = push_flagged(&mut out, c, m.alt, "Alt", Ghost(p2));
    let ghost p3 = p2 + (if m.alt { seq!["Alt"@] } else { seq![] });
    let c = push_flagged(&mut out, c, m.super_key, "Super", Ghost(p3));
    let ghost p4 = p3 + (if m.super_key { seq!["Super"@] } else { seq![] });
    let c = push_flagged(&mut out, c, m.hyper, "Hyper", Ghost(p4));
    let ghost p5 = p4 + (if m.hyper { seq!["Hyper"@] } else { seq![] });
    let _ = push_flagged(&mut out, c, m.meta, "Meta", Ghost(p5));
    out
}

fn media_str(k: MediaKey) -> (r: &'static str)
    ensures
        r@ == media_label(k),
{
    match k {
        MediaKey::Play => "Play",
        MediaKey::Pause => "Pause",
        MediaKey::PlayPause => "Play/Pause",
        MediaKey::Reverse => "Reverse",
        MediaKey::Stop => "Stop",
        MediaKey::FastForward => "Fast Forward",
        MediaKey::Rewind => "Rewind",
        MediaKey::TrackNext => "Next Track",
        MediaKey::TrackPrevious => "Previous Track",
        MediaKey::Record => "Record",
        MediaKey::LowerVolume => "Lower Volume",
        MediaKey::RaiseVolume => "Raise Volume",
        MediaKey::MuteVolume => "Mute Volume",
    }
}

fn modifier_key_str(k: ModifierKey) -> (r: &'static str)
    ensures
        r@ == modifier_key_label(k),
{
    match k {
        ModifierKey::LeftShift => "Left Shift",
        ModifierKey::LeftControl => "Left Ctrl",
        ModifierKey::LeftAlt => "Left Alt",
        ModifierKey::LeftSuper => "Left Super",
        ModifierKey::LeftHyper => "Left Hyper",
        ModifierKey::LeftMeta => "Left Meta",
        ModifierKey::RightShift => "Right Shift",
        ModifierKey::RightControl => "Right Ctrl",
        ModifierKey::RightAlt => "Right Alt",
        ModifierKey::RightSuper => "Right Super",
        ModifierKey::RightHyper => "Right Hyper",
        ModifierKey::RightMeta => "Right Meta",
        ModifierKey::IsoLevel3Shift => "Iso Level 3 Shift",
        ModifierKey::IsoLevel5Shift => "Iso Level 5 Shift",
    }
}

fn push_code_label(out: &mut String, code: KeyCode)
    ensures
        final(out)@ == old(out)@ + code_label(code),
{
    match code {
        KeyCode::Backspace => out.append("Backspace"),
        KeyCode::Enter => out.append("Enter"),
        KeyCode::Left => out.append("Left"),
        KeyCode::Right => out.append("Right"),
        KeyCode::Up => out.append("Up"),
        KeyCode::Down => out.append("Down"),
        KeyCode::Home => out.append("Home"),
        KeyCode::End => out.append("End"),
        KeyCode::PageUp => out.append("Page Up"),
        KeyCode::PageDown => out.append("Page Down"),
        KeyCode::Tab => out.append("Tab"),
        KeyCode::BackTab => out.append("Back Tab"),
        KeyCode::Delete => out.append("Del"),
        KeyCode::Insert => out.append("Insert"),
        KeyCode::F(n) => {
            let ghost before = out@;
            out.append("F");
            push_decimal(out, n);
            assert(out@ =~= before + ("F"@ + decimal(n as nat)));
        },
        KeyCode::Char(c) => {
            if c == ' ' {
                out.append("Space");
            } else {
                push_char(out, c);
                assert(out@ =~= old(out)@ + seq![c]);
            }
        },
        KeyCode::Null => out.append("Null"),
        KeyCode::Esc => out.append("Esc"),
        KeyCode::CapsLock => out.append("Caps Lock"),
        KeyCode::ScrollLock => out.append("Scroll Lock"),
        KeyCode::NumLock => out.append("Num Lock"),
        KeyCode::PrintScreen => out.append("Print Screen"),
        KeyCode::Pause => out.append("Pause"),
        KeyCode::Menu => out.append("Menu"),
        KeyCode::KeypadBegin => out.append("Begin"),
        KeyCode::Media(m) => out.append(media_str(m)),
        KeyCode::Modifier(m) => out.append(modifier_key_str(m)),
    }
}

impl KeyPress {
    /// A readable label for this key press, such as `F2` or
    /// `Control + c`.
    pub fn label(&self) -> (r: String)
        ensures
            r@ == key_label(*self),
    {
        if self.modifiers.is_empty() {
            let mut out = String::new();
            push_code_label(&mut out, self.code);
            assert(out@ =~= key_label(*self));
            out
        } else {
            let mut out = modifiers_label(self.modifiers);
            out.append(" + ");
            push_code_label(&mut out, self.code);
            assert(out@ =~= key_label(*self));
            out
        }
    }
}

} // verus!
