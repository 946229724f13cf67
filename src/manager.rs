use vstd::prelude::*;
use crate::keys::{
    control_name, is_control_key, is_special, special_name, ElementState, KeyEvent,
    KeyEventView,
};
use crate::notation::{keybinding, or_empty, use_logo};

verus! {

/// The held state of the three modifiers that the notation writes.
#[derive(Clone, Copy, PartialEq, Eq, Structural, Debug)]
pub struct Modifiers {
    pub ctrl: bool,
    pub alt: bool,
    pub logo: bool,
}

/// An event of the window layer, as far as the keyboard manager reads it.
#[derive(Debug)]
pub enum InputEvent {
    /// The window gained (`true`) or lost (`false`) focus.
    Focused(bool),
    /// A key went down or came up.
    KeyboardInput(KeyEvent),
    /// The held modifiers changed to the given snapshot.
    ModifiersChanged(Modifiers),
    /// All the events of the current frame have been delivered.
    MainEventsCleared,
    /// Any other event, which the keyboard manager ignores.
    Other,
}

/// The state of a keyboard manager: held modifiers, the platform's logo policy, whether
/// the current frame's input is dropped, and the key events of the frame so far.
pub struct ManagerView {
    pub modifiers: Modifiers,
    pub logo_modifier_enabled: bool,
    pub ignore_input_this_frame: bool,
    pub queued: Seq<KeyEventView>,
}

/// The notation that one buffered key event yields under the given state, or
/// `None` where it yields nothing (a release, or a key without text or name).
pub open spec fn key_binding(
    k: KeyEventView,
    modifiers: Modifiers,
    logo_modifier_enabled: bool,
) -> Option<Seq<char>> {
    let bind = |special: bool, text: Seq<char>|
        keybinding(
            special,
            text,
            modifiers.ctrl,
            modifiers.alt,
            modifiers.logo,
            logo_modifier_enabled,
        );
    if k.state != ElementState::Pressed {
        None
    } else if control_name(k.logical_key) is Some {
        Some(bind(true, control_name(k.logical_key)->0))
    } else {
        match k.text {
            None => None,
            Some(t) => match special_name(t) {
                Some(name) => Some(bind(true, name)),
                None => Some(bind(false, t)),
            },
        }
    }
}

/// The notations that a frame's buffered key events yield, in arrival order.
pub open spec fn emissions(
    queued: Seq<KeyEventView>,
    modifiers: Modifiers,
    logo_modifier_enabled: bool,
) -> Seq<Seq<char>>
    decreases queued.len(),
{
    if queued.len() == 0 {
        Seq::empty()
    } else {
        let rest = emissions(queued.drop_last(), modifiers, logo_modifier_enabled);
        match key_binding(queued.last(), modifiers, logo_modifier_enabled) {
            Some(b) => rest.push(b),
            None => rest,
        }
    }
}

/// One step of the keyboard manager: the state after an event, and the keybinding
/// strings that the event sends out, in order.
pub open spec fn step(s: ManagerView, event: InputEvent) -> (ManagerView, Seq<Seq<char>>) {
    match event {
        InputEvent::Focused(focused) => (
            ManagerView { ignore_input_this_frame: focused, ..s },
            Seq::empty(),
        ),
        InputEvent::KeyboardInput(k) => (
            ManagerView { queued: s.queued.push(k@), ..s },
            Seq::empty(),
        ),
        InputEvent::ModifiersChanged(m) => (ManagerView { modifiers: m, ..s }, Seq::empty()),
        InputEvent::MainEventsCleared => (
            ManagerView { ignore_input_this_frame: false, queued: Seq::empty(), ..s },
            if s.ignore_input_this_frame {
                Seq::empty()
            } else {
                emissions(s.queued, s.modifiers, s.logo_modifier_enabled)
            },
        ),
        InputEvent::Other => (s, Seq::empty()),
    }
}

/// Turns window events into keybinding strings. Key events are buffered
/// until the end of the frame and formatted then, under the modifiers held at
/// that moment; a frame in which the window gained focus sends nothing.
pub struct KeyboardManager {
    ctrl: bool,
    alt: bool,
    logo: bool,
    logo_modifier_enabled: bool,
    ignore_input_this_frame: bool,
    queued_key_events: Vec<KeyEvent>,
}

impl View for KeyboardManager {
    type V = ManagerView;

    closed spec fn view(&self) -> ManagerView {
        ManagerView {
            modifiers: Modifiers { ctrl: self.ctrl, alt: self.alt, logo: self.logo },
            logo_modifier_enabled: self.logo_modifier_enabled,
            ignore_input_this_frame: self.ignore_input_this_frame,
            queued: self.queued_key_events@.map_values(|e: KeyEvent| e@),
        }
    }
}

impl KeyboardManager {
    /// A keyboard manager with no modifier held, nothing buffered and input accepted.
    /// `logo_modifier_enabled` is false on a platform that keeps the logo key for
    /// its own shortcuts: the logo modifier is then never written.
    pub fn new(logo_modifier_enabled: bool) -> (r: KeyboardManager)
        ensures
            r@ == (ManagerView {
                modifiers: Modifiers { ctrl: false, alt: false, logo: false },
                logo_modifier_enabled,
                ignore_input_this_frame: false,
                queued: Seq::empty(),
            }),
    {
        let r = KeyboardManager {
            ctrl: false,
            alt: false,
            logo: false,
            logo_modifier_enabled,
            ignore_input_this_frame: false,
            queued_key_events: Vec::new(),
        };
        assert(r@.queued =~= Seq::<KeyEventView>::empty());
        r
    }

    /// The notation of `text` under the modifiers held now.
    pub fn format_keybinding_string(&self, special: bool, text: &str) -> (r: String)
        ensures
            r@ == keybinding(
                special,
                text@,
                self@.modifiers.ctrl,
                self@.modifiers.alt,
                self@.modifiers.logo,
                self@.logo_modifier_enabled,
            ),
    {
        let special = special || self.ctrl || self.alt || self.logo;
        proof {
            reveal_strlit("<");
            reveal_strlit("C-");
            reveal_strlit("M-");
            reveal_strlit("D-");
            reveal_strlit(">");
        }
        let mut r = String::new();
        r.append(or_empty(special, "<"));
        r.append(or_empty(self.ctrl, "C-"));
        r.append(or_empty(self.alt, "M-"));
        r.append(or_empty(use_logo(self.logo, self.logo_modifier_enabled), "D-"));
        r.append(text);
        r.append(or_empty(special, ">"));
        r
    }

    /// Handles one window event and returns the keybinding strings it sends out,
    /// in order: only the end of a frame sends any.
    pub fn handle_event(&mut self, event: &InputEvent) -> (out: Vec<String>)
        ensures
            (final(self)@, out.deep_view()) == step(old(self)@, *event),
    {
        let mut out: Vec<String> = Vec::new();
        match event {
            InputEvent::Focused(focused) => {
                self.ignore_input_this_frame = *focused;
            },
            InputEvent::KeyboardInput(key_event) => {
                self.queued_key_events.push(key_event.duplicate());
                assert(self@.queued =~= old(self)@.queued.push(key_event@));
            },
            InputEvent::ModifiersChanged(modifiers) => {
                self.ctrl = modifiers.ctrl;
                self.alt = modifiers.alt;
                self.logo = modifiers.logo;
            },
            InputEvent::MainEventsCleared => {
                if !self.ignore_input_this_frame {
                    out = self.drain_queue();
                }
                self.ignore_input_this_frame = false;
                self.queued_key_events.clear();
                assert(self@.queued =~= Seq::<KeyEventView>::empty());
            },
            InputEvent::Other => {},
        }
        assert(out.deep_view() =~= step(old(self)@, *event).1);
        out
    }

    /// The modifiers held now.
    pub fn modifiers(&self) -> (r: Modifiers)
        ensures
            r == self@.modifiers,
    {
        Modifiers { ctrl: self.ctrl, alt: self.alt, logo: self.logo }
    }

    /// Whether the key events of the current frame will be dropped.
    pub fn ignores_input_this_frame(&self) -> (r: bool)
        ensures
            r == self@.ignore_input_this_frame,
    {
        self.ignore_input_this_frame
    }

    /// How many key events are buffered for the end of the frame.
    pub fn queued_len(&self) -> (r: usize)
        ensures
            r == self@.queued.len(),
    {
        self.queued_key_events.len()
    }

    /// The keybinding strings of the buffered key events, in arrival order.
    fn drain_queue(&self) -> (out: Vec<String>)
        ensures
            out.deep_view() == emissions(self@.queued, self@.modifiers, self@.logo_modifier_enabled),
    {
        let ghost queued = self@.queued;
        let mut out: Vec<String> = Vec::new();
        let n = self.queued_key_events.len();
        let mut i: usize = 0;
        while i < n
            invariant
                n == self.queued_key_events.len(),
                queued == self@.queued,
                i <= n,
                out.deep_view() == emissions(
                    queued.take(i as int),
                    self@.modifiers,
                    self@.logo_modifier_enabled,
                ),
            decreases n - i,
        {
            let key_event = &self.queued_key_events[i];
            assert(queued.take(i + 1).drop_last() =~= queued.take(i as int));
            assert(queued.take(i + 1).last() == key_event@);
            let ghost before = out.deep_view();
            if key_event.state == ElementState::Pressed {
                match is_control_key(key_event.logical_key) {
                    Some(key_text) => {
                        out.push(self.format_keybinding_string(true, key_text));
                    },
                    None => match &key_event.text {
                        Some(text) => {
                            let s = match is_special(text.as_str()) {
                                Some(escaped_text) => self.format_keybinding_string(
                                    true,
                                    escaped_text,
                                ),
                                None => self.format_keybinding_string(false, text.as_str()),
                            };
                            out.push(s);
                        },
                        None => {},
                    },
                }
            }
            assert(out.deep_view() =~= emissions(
                queued.take(i + 1),
                self@.modifiers,
                self@.logo_modifier_enabled,
            ));
            i += 1;
        }
        assert(queued.take(n as int) =~= queued);
        out
    }
}

} // verus!
