use vstd::prelude::*;

verus! {

/// The logical identity of a key: every key that never produces text and has a
/// name in the keybinding notation, and `Other` for all the rest (printable keys,
/// dead keys, modifiers and named keys without a notation of their own).
#[derive(Clone, Copy, PartialEq, Eq, Structural, Debug)]
pub enum LogicalKey {
    Backspace,
    Escape,
    Delete,
    ArrowUp,
    ArrowDown,
    ArrowLeft,
    ArrowRight,
    F1,
    F2,
    F3,
    F4,
    F5,
    F6,
    F7,
    F8,
    F9,
    F10,
    F11,
    F12,
    Insert,
    Home,
    End,
    PageUp,
    PageDown,
    Other,
}

/// The notation token of a key that never produces text, if it has one.
pub open spec fn control_name(key: LogicalKey) -> Option<Seq<char>> {
    match key {
        LogicalKey::Backspace => Some("BS"@),
        LogicalKey::Escape => Some("Esc"@),
        LogicalKey::Delete => Some("Del"@),
        LogicalKey::ArrowUp => Some("Up"@),
        LogicalKey::ArrowDown => Some("Down"@),
        LogicalKey::ArrowLeft => Some("Left"@),
        LogicalKey::ArrowRight => Some("Right"@),
        LogicalKey::F1 => Some("F1"@),
        LogicalKey::F2 => Some("F2"@),
        LogicalKey::F3 => Some("F3"@),
        LogicalKey::F4 => Some("F4"@),
        LogicalKey::F5 => Some("F5"@),
        LogicalKey::F6 => Some("F6"@),
        LogicalKey::F7 => Some("F7"@),
        LogicalKey::F8 => Some("F8"@),
        LogicalKey::F9 => Some("F9"@),
        LogicalKey::F10 => Some("F10"@),
        LogicalKey::F11 => Some("F11"@),
        LogicalKey::F12 => Some("F12"@),
        LogicalKey::Insert => Some("Insert"@),
        LogicalKey::Home => Some("Home"@),
        LogicalKey::End => Some("End"@),
        LogicalKey::PageUp => Some("PageUp"@),
        LogicalKey::PageDown => Some("PageDown"@),
        LogicalKey::Other => None,
    }
}

/// Looks a key up in the table of keys that never produce text.
pub fn is_control_key(key: LogicalKey) -> (r: Option<&'static str>)
    ensures
        r is Some <==> control_name(key) is Some,
        r is Some ==> r->0@ == control_name(key)->0,
{
    match key {
        LogicalKey::Backspace => Some("BS"),
        LogicalKey::Escape => Some("Esc"),
        LogicalKey::Delete => Some("Del"),
        LogicalKey::ArrowUp => Some("Up"),
        LogicalKey::ArrowDown => Some("Down"),
        LogicalKey::ArrowLeft => Some("Left"),
        LogicalKey::ArrowRight => Some("Right"),
        LogicalKey::F1 => Some("F1"),
        LogicalKey::F2 => Some("F2"),
        LogicalKey::F3 => Some("F3"),
        LogicalKey::F4 => Some("F4"),
        LogicalKey::F5 => Some("F5"),
        LogicalKey::F6 => Some("F6"),
        LogicalKey::F7 => Some("F7"),
        LogicalKey::F8 => Some("F8"),
        LogicalKey::F9 => Some("F9"),
        LogicalKey::F10 => Some("F10"),
        LogicalKey::F11 => Some("F11"),
        LogicalKey::F12 => Some("F12"),
        LogicalKey::Insert => Some("Insert"),
        LogicalKey::Home => Some("Home"),
        LogicalKey::End => Some("End"),
        LogicalKey::PageUp => Some("PageUp"),
        LogicalKey::PageDown => Some("PageDown"),
        LogicalKey::Other => None,
    }
}

/// The notation token that replaces a resolved text which cannot stand for
/// itself in the notation, if the text is one of those.
pub open spec fn special_name(text: Seq<char>) -> Option<Seq<char>> {
    if text == seq![' '] {
        Some("Space"@)
    } else if text == seq!['<'] {
        Some("lt"@)
    } else if text == seq!['\\'] {
        Some("Bslash"@)
    } else if text == seq!['|'] {
        Some("Bar"@)
    } else if text == seq!['\t'] {
        Some("Tab"@)
    } else if text == seq!['\n'] {
        Some("CR"@)
    } else {
        None
    }
}

/// Looks a resolved text up in the table of texts that are written by name.
pub fn is_special(text: &str) -> (r: Option<&'static str>)
    ensures
        r is Some <==> special_name(text@) is Some,
        r is Some ==> r->0@ == special_name(text@)->0,
{
    if text.unicode_len() != 1 {
        return None;
    }
    let c = text.get_char(0);
    assert(text@ =~= seq![c]);
    if c == ' ' {
        Some("Space")
    } else if c == '<' {
        Some("lt")
    } else if c == '\\' {
        Some("Bslash")
    } else if c == '|' {
        Some("Bar")
    } else if c == '\t' {
        Some("Tab")
    } else if c == '\n' {
        Some("CR")
    } else {
        None
    }
}

/// Whether a key went down or came up.
#[derive(Clone, Copy, PartialEq, Eq, Structural, Debug)]
pub enum ElementState {
    Pressed,
    Released,
}

/// A key press or release as the window layer reports it: the key's logical
/// identity, whether it went down, and the text it produces under all the
/// modifiers held (`None` for a dead key or a modifier alone).
#[derive(Debug)]
pub struct KeyEvent {
    pub logical_key: LogicalKey,
    pub state: ElementState,
    pub text: Option<String>,
}

/// What a key event holds, with its text as characters.
pub struct KeyEventView {
    pub logical_key: LogicalKey,
    pub state: ElementState,
    pub text: Option<Seq<char>>,
}

impl View for KeyEvent {
    type V = KeyEventView;

    open spec fn view(&self) -> KeyEventView {
        KeyEventView {
            logical_key: self.logical_key,
            state: self.state,
            text: match self.text {
                Some(t) => Some(t@),
                None => None,
            },
        }
    }
}

impl KeyEvent {
    /// A copy of the event, kept after the event it was taken from is gone.
    pub fn duplicate(&self) -> (r: KeyEvent)
        ensures
            r@ == self@,
    {
        let text = match &self.text {
            Some(t) => Some(t.clone()),
            None => None,
        };
        KeyEvent { logical_key: self.logical_key, state: self.state, text }
    }
}

} // verus!
