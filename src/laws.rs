use vstd::prelude::*;
use crate::keys::{control_name, special_name, ElementState, KeyEvent, KeyEventView};
use crate::manager::{emissions, key_binding, step, InputEvent, ManagerView, Modifiers};
use crate::notation::{keybinding, modifier_prefix};

verus! {

/// The state and the strings sent out after a sequence of events, in order.
pub open spec fn run(s: ManagerView, events: Seq<InputEvent>) -> (ManagerView, Seq<Seq<char>>)
    decreases events.len(),
{
    if events.len() == 0 {
        (s, Seq::empty())
    } else {
        let before = run(s, events.drop_last());
        let after = step(before.0, events.last());
        (after.0, before.1 + after.1)
    }
}

/// Whether a key event yields a keybinding once its frame ends: it is a press,
/// and its key has a name in the notation or produces text.
pub open spec fn emits(k: KeyEventView) -> bool {
    k.state == ElementState::Pressed && (control_name(k.logical_key) is Some || k.text is Some)
}

/// The buffered events that yield a keybinding, in arrival order.
pub open spec fn emitting(q: Seq<KeyEventView>) -> Seq<KeyEventView> {
    q.filter(|k: KeyEventView| emits(k))
}

/// A press of a key that never produces text is always written in angle
/// brackets, around the modifier prefixes and the key's name, whatever modifiers
/// are held.
pub proof fn control_key_always_wrapped(
    k: KeyEventView,
    modifiers: Modifiers,
    logo_modifier_enabled: bool,
)
    requires
        k.state == ElementState::Pressed,
        control_name(k.logical_key) is Some,
    ensures
        key_binding(k, modifiers, logo_modifier_enabled) == Some(
            seq!['<'] + modifier_prefix(
                modifiers.ctrl,
                modifiers.alt,
                modifiers.logo,
                logo_modifier_enabled,
            ) + control_name(k.logical_key)->0 + seq!['>'],
        ),
        key_binding(k, modifiers, logo_modifier_enabled)->0[0] == '<',
        key_binding(k, modifiers, logo_modifier_enabled)->0.last() == '>',
{
    let p = modifier_prefix(modifiers.ctrl, modifiers.alt, modifiers.logo, logo_modifier_enabled);
    let b = seq!['<'] + p + control_name(k.logical_key)->0 + seq!['>'];
    assert(b[0] == '<');
    assert(b.last() == '>');
}

/// The modifier prefixes stand in the order ctrl (`C-`), alt (`M-`), logo
/// (`D-`), two characters each, and a modifier that is not held (or, for the logo
/// modifier, not written on this platform) adds nothing.
pub proof fn modifier_prefix_order(ctrl: bool, alt: bool, logo: bool, logo_modifier_enabled: bool)
    ensures
        ({
            let p = modifier_prefix(ctrl, alt, logo, logo_modifier_enabled);
            let nc: int = if ctrl { 2 } else { 0 };
            let na: int = if alt { 2 } else { 0 };
            let nd: int = if logo && logo_modifier_enabled { 2 } else { 0 };
            &&& p.len() == nc + na + nd
            &&& ctrl ==> p.subrange(0, 2) == seq!['C', '-']
            &&& alt ==> p.subrange(nc, nc + 2) == seq!['M', '-']
            &&& logo && logo_modifier_enabled ==> p.subrange(nc + na, nc + na + 2) == seq!['D', '-']
            &&& !ctrl && !alt && !(logo && logo_modifier_enabled) ==> p.len() == 0
        }),
{
    let p = modifier_prefix(ctrl, alt, logo, logo_modifier_enabled);
    let c = if ctrl { seq!['C', '-'] } else { Seq::<char>::empty() };
    let a = if alt { seq!['M', '-'] } else { Seq::<char>::empty() };
    let d = if logo && logo_modifier_enabled { seq!['D', '-'] } else { Seq::<char>::empty() };
    assert(p == c + a + d);
    assert((c + a + d).subrange(0, c.len() as int) =~= c);
    assert((c + a + d).subrange(c.len() as int, (c.len() + a.len()) as int) =~= a);
    assert((c + a + d).subrange((c.len() + a.len()) as int, (c.len() + a.len() + d.len()) as int)
        =~= d);
}

/// Where the platform keeps the logo key for itself and only the logo modifier
/// is held, a printable key is written bare, without a `D-` prefix, yet still in
/// angle brackets: the brackets go by the modifiers held, the prefixes by those
/// written.
pub proof fn logo_alone_masked(k: KeyEventView, text: Seq<char>)
    requires
        k.state == ElementState::Pressed,
        control_name(k.logical_key) is None,
        k.text == Some(text),
        special_name(text) is None,
    ensures
        key_binding(k, Modifiers { ctrl: false, alt: false, logo: true }, false) == Some(
            seq!['<'] + text + seq!['>'],
        ),
{
    let m = Modifiers { ctrl: false, alt: false, logo: true };
    assert(modifier_prefix(false, false, true, false) =~= Seq::<char>::empty());
    assert(keybinding(false, text, false, false, true, false) =~= seq!['<'] + text + seq!['>']);
}

/// Key events that arrive after the window gained focus, up to the end of the
/// frame, send nothing, and the end of that frame leaves nothing buffered and
/// input accepted again.
pub proof fn focus_gained_frame_is_dropped(s: ManagerView, keys: Seq<KeyEvent>)
    ensures
        ({
            let events = seq![InputEvent::Focused(true)] + keys.map_values(
                |k: KeyEvent| InputEvent::KeyboardInput(k),
            ) + seq![InputEvent::MainEventsCleared];
            let r = run(s, events);
            &&& r.1.len() == 0
            &&& r.0.queued.len() == 0
            &&& !r.0.ignore_input_this_frame
            &&& r.0.modifiers == s.modifiers
        }),
{
    let key_events = keys.map_values(|k: KeyEvent| InputEvent::KeyboardInput(k));
    let events = seq![InputEvent::Focused(true)] + key_events + seq![InputEvent::MainEventsCleared];
    lemma_keys_keep_ignoring(s, keys);
    assert(events.drop_last() =~= seq![InputEvent::Focused(true)] + key_events);
    assert(events.last() == InputEvent::MainEventsCleared);
}

proof fn lemma_keys_keep_ignoring(s: ManagerView, keys: Seq<KeyEvent>)
    ensures
        ({
            let events = seq![InputEvent::Focused(true)] + keys.map_values(
                |k: KeyEvent| InputEvent::KeyboardInput(k),
            );
            let r = run(s, events);
            &&& r.1.len() == 0
            &&& r.0.ignore_input_this_frame
            &&& r.0.modifiers == s.modifiers
        }),
    decreases keys.len(),
{
    let events = seq![InputEvent::Focused(true)] + keys.map_values(
        |k: KeyEvent| InputEvent::KeyboardInput(k),
    );
    if keys.len() == 0 {
        assert(events =~= seq![InputEvent::Focused(true)]);
        assert(events.drop_last() =~= Seq::<InputEvent>::empty());
        assert(run(s, events.drop_last()) == (s, Seq::<Seq<char>>::empty()));
    } else {
        lemma_keys_keep_ignoring(s, keys.drop_last());
        assert(events.drop_last() =~= seq![InputEvent::Focused(true)] + keys.drop_last().map_values(
            |k: KeyEvent| InputEvent::KeyboardInput(k),
        ));
        assert(events.last() == InputEvent::KeyboardInput(keys.last()));
    }
}

/// The end of a frame always empties the buffer and accepts input again, also
/// when nothing was buffered; a second end of frame right after it changes
/// nothing and sends nothing.
pub proof fn frame_end_clears(s: ManagerView)
    ensures
        ({
            let (s1, _) = step(s, InputEvent::MainEventsCleared);
            &&& s1.queued.len() == 0
            &&& !s1.ignore_input_this_frame
            &&& s1.modifiers == s.modifiers
            &&& step(s1, InputEvent::MainEventsCleared) == (s1, Seq::<Seq<char>>::empty())
        }),
{
    let s1 = step(s, InputEvent::MainEventsCleared).0;
    assert(emissions(s1.queued, s1.modifiers, s1.logo_modifier_enabled) =~= Seq::<Seq<char>>::empty());
    assert(step(s1, InputEvent::MainEventsCleared).0 =~= s1);
}

/// A key event yields one keybinding exactly when it is a press whose key has a
/// name in the notation or produces text; a release, or a press without either,
/// yields none.
pub proof fn one_binding_per_resolvable_press(
    k: KeyEventView,
    modifiers: Modifiers,
    logo_modifier_enabled: bool,
)
    ensures
        key_binding(k, modifiers, logo_modifier_enabled) is Some <==> emits(k),
{
}

/// The end of a frame in which input is accepted sends one keybinding for each
/// buffered event that yields one, in arrival order, and nothing for the others.
pub proof fn frame_end_sends_one_per_resolvable_press(s: ManagerView)
    requires
        !s.ignore_input_this_frame,
    ensures
        step(s, InputEvent::MainEventsCleared).1.len() == emitting(s.queued).len(),
        forall|i: int|
            0 <= i < step(s, InputEvent::MainEventsCleared).1.len() ==> key_binding(
                #[trigger] emitting(s.queued)[i],
                s.modifiers,
                s.logo_modifier_enabled,
            ) == Some(step(s, InputEvent::MainEventsCleared).1[i]),
{
    lemma_emissions_follow_filter(s.queued, s.modifiers, s.logo_modifier_enabled);
}

proof fn lemma_emissions_follow_filter(
    q: Seq<KeyEventView>,
    modifiers: Modifiers,
    logo_modifier_enabled: bool,
)
    ensures
        emissions(q, modifiers, logo_modifier_enabled).len() == emitting(q).len(),
        forall|i: int|
            0 <= i < emissions(q, modifiers, logo_modifier_enabled).len() ==> key_binding(
                #[trigger] emitting(q)[i],
                modifiers,
                logo_modifier_enabled,
            ) == Some(emissions(q, modifiers, logo_modifier_enabled)[i]),
    decreases q.len(),
{
    reveal_with_fuel(Seq::filter, 1);
    if q.len() > 0 {
        lemma_emissions_follow_filter(q.drop_last(), modifiers, logo_modifier_enabled);
    }
}

} // verus!
