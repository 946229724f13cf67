use keyboard_manager::keys::{is_control_key, is_special};
use keyboard_manager::notation::{or_empty, use_logo};
use keyboard_manager::{ElementState, InputEvent, KeyEvent, KeyboardManager, LogicalKey, Modifiers};

const ALL_CONTROL_KEYS: [(LogicalKey, &str); 24] = [
    (LogicalKey::Backspace, "BS"),
    (LogicalKey::Escape, "Esc"),
    (LogicalKey::Delete, "Del"),
    (LogicalKey::ArrowUp, "Up"),
    (LogicalKey::ArrowDown, "Down"),
    (LogicalKey::ArrowLeft, "Left"),
    (LogicalKey::ArrowRight, "Right"),
    (LogicalKey::F1, "F1"),
    (LogicalKey::F2, "F2"),
    (LogicalKey::F3, "F3"),
    (LogicalKey::F4, "F4"),
    (LogicalKey::F5, "F5"),
    (LogicalKey::F6, "F6"),
    (LogicalKey::F7, "F7"),
    (LogicalKey::F8, "F8"),
    (LogicalKey::F9, "F9"),
    (LogicalKey::F10, "F10"),
    (LogicalKey::F11, "F11"),
    (LogicalKey::F12, "F12"),
    (LogicalKey::Insert, "Insert"),
    (LogicalKey::Home, "Home"),
    (LogicalKey::End, "End"),
    (LogicalKey::PageUp, "PageUp"),
    (LogicalKey::PageDown, "PageDown"),
];

fn press(key: LogicalKey, text: Option<&str>) -> InputEvent {
    InputEvent::KeyboardInput(KeyEvent {
        logical_key: key,
        state: ElementState::Pressed,
        text: text.map(|t| t.to_string()),
    })
}

fn release(key: LogicalKey, text: Option<&str>) -> InputEvent {
    InputEvent::KeyboardInput(KeyEvent {
        logical_key: key,
        state: ElementState::Released,
        text: text.map(|t| t.to_string()),
    })
}

fn mods(ctrl: bool, alt: bool, logo: bool) -> InputEvent {
    InputEvent::ModifiersChanged(Modifiers { ctrl, alt, logo })
}

/// Feeds the events, then ends the frame, and returns what the frame sent.
fn frame(manager: &mut KeyboardManager, events: Vec<InputEvent>) -> Vec<String> {
    for event in events.iter() {
        assert!(manager.handle_event(event).is_empty());
    }
    manager.handle_event(&InputEvent::MainEventsCleared)
}

#[test]
fn ctrl_a_is_wrapped() {
    let mut m = KeyboardManager::new(true);
    let out = frame(&mut m, vec![mods(true, false, false), press(LogicalKey::Other, Some("a"))]);
    assert_eq!(out, vec!["<C-a>".to_string()]);
}

#[test]
fn escape_without_modifiers() {
    let mut m = KeyboardManager::new(true);
    let out = frame(&mut m, vec![press(LogicalKey::Escape, None)]);
    assert_eq!(out, vec!["<Esc>".to_string()]);
}

#[test]
fn space_is_named() {
    let mut m = KeyboardManager::new(true);
    let out = frame(&mut m, vec![press(LogicalKey::Other, Some(" "))]);
    assert_eq!(out, vec!["<Space>".to_string()]);
}

#[test]
fn alt_ctrl_left() {
    let mut m = KeyboardManager::new(true);
    let out = frame(&mut m, vec![mods(true, true, false), press(LogicalKey::ArrowLeft, None)]);
    assert_eq!(out, vec!["<C-M-Left>".to_string()]);
}

#[test]
fn focus_gained_frame_sends_nothing() {
    let mut m = KeyboardManager::new(true);
    let out = frame(
        &mut m,
        vec![
            InputEvent::Focused(true),
            press(LogicalKey::Other, Some("a")),
            press(LogicalKey::Escape, None),
        ],
    );
    assert!(out.is_empty());
    assert_eq!(m.queued_len(), 0);
    assert!(!m.ignores_input_this_frame());
    let out = frame(&mut m, vec![press(LogicalKey::Other, Some("b"))]);
    assert_eq!(out, vec!["b".to_string()]);
}

#[test]
fn plain_x_is_bare() {
    let mut m = KeyboardManager::new(true);
    let out = frame(&mut m, vec![press(LogicalKey::Other, Some("x"))]);
    assert_eq!(out, vec!["x".to_string()]);
}

#[test]
fn control_keys_wrapped_under_every_modifier_combination() {
    for enabled in [false, true] {
        for bits in 0u8..8 {
            let (ctrl, alt, logo) = (bits & 1 != 0, bits & 2 != 0, bits & 4 != 0);
            for (key, name) in ALL_CONTROL_KEYS.iter() {
                let mut m = KeyboardManager::new(enabled);
                let out = frame(&mut m, vec![mods(ctrl, alt, logo), press(*key, Some("z"))]);
                let mut prefix = String::new();
                if ctrl {
                    prefix.push_str("C-");
                }
                if alt {
                    prefix.push_str("M-");
                }
                if logo && enabled {
                    prefix.push_str("D-");
                }
                assert_eq!(out, vec![format!("<{}{}>", prefix, name)]);
            }
        }
    }
}

#[test]
fn modifier_prefixes_in_fixed_order() {
    let mut m = KeyboardManager::new(true);
    let out = frame(&mut m, vec![mods(true, true, true), press(LogicalKey::Other, Some("a"))]);
    assert_eq!(out, vec!["<C-M-D-a>".to_string()]);
    let out = frame(&mut m, vec![mods(false, true, true), press(LogicalKey::Other, Some("a"))]);
    assert_eq!(out, vec!["<M-D-a>".to_string()]);
    let out = frame(&mut m, vec![mods(true, false, true), press(LogicalKey::Other, Some("a"))]);
    assert_eq!(out, vec!["<C-D-a>".to_string()]);
    let out = frame(&mut m, vec![mods(false, false, true), press(LogicalKey::Other, Some("a"))]);
    assert_eq!(out, vec!["<D-a>".to_string()]);
    let out = frame(&mut m, vec![mods(false, true, false), press(LogicalKey::Other, Some("a"))]);
    assert_eq!(out, vec!["<M-a>".to_string()]);
}

#[test]
fn logo_alone_on_masking_platform() {
    let mut m = KeyboardManager::new(false);
    let out = frame(&mut m, vec![mods(false, false, true), press(LogicalKey::Other, Some("a"))]);
    assert_eq!(out, vec!["<a>".to_string()]);
    let out = frame(&mut m, vec![mods(true, false, true), press(LogicalKey::Other, Some("a"))]);
    assert_eq!(out, vec!["<C-a>".to_string()]);
}

#[test]
fn empty_frame_clears_and_repeats() {
    let mut m = KeyboardManager::new(true);
    assert!(m.handle_event(&InputEvent::Focused(true)).is_empty());
    assert!(m.ignores_input_this_frame());
    assert!(m.handle_event(&InputEvent::MainEventsCleared).is_empty());
    assert_eq!(m.queued_len(), 0);
    assert!(!m.ignores_input_this_frame());
    assert!(m.handle_event(&InputEvent::MainEventsCleared).is_empty());
    assert_eq!(m.queued_len(), 0);
    assert!(!m.ignores_input_this_frame());
}

#[test]
fn releases_and_unresolved_keys_send_nothing() {
    let mut m = KeyboardManager::new(true);
    let out = frame(
        &mut m,
        vec![
            release(LogicalKey::Other, Some("a")),
            release(LogicalKey::Escape, None),
            press(LogicalKey::Other, None),
            press(LogicalKey::Other, Some("q")),
            release(LogicalKey::Other, Some("q")),
        ],
    );
    assert_eq!(out, vec!["q".to_string()]);
    assert_eq!(m.queued_len(), 0);
}

#[test]
fn special_texts_are_named() {
    let cases = [(" ", "<Space>"), ("<", "<lt>"), ("\\", "<Bslash>"), ("|", "<Bar>"), ("\t", "<Tab>"), ("\n", "<CR>")];
    for (text, expected) in cases.iter() {
        let mut m = KeyboardManager::new(true);
        let out = frame(&mut m, vec![press(LogicalKey::Other, Some(text))]);
        assert_eq!(out, vec![expected.to_string()]);
    }
    let mut m = KeyboardManager::new(true);
    let out = frame(&mut m, vec![mods(true, false, false), press(LogicalKey::Other, Some("<"))]);
    assert_eq!(out, vec!["<C-lt>".to_string()]);
}

#[test]
fn control_key_wins_over_its_text() {
    let mut m = KeyboardManager::new(true);
    let out = frame(&mut m, vec![press(LogicalKey::Backspace, Some("\u{8}")), press(LogicalKey::Delete, Some("\u{7f}"))]);
    assert_eq!(out, vec!["<BS>".to_string(), "<Del>".to_string()]);
}

#[test]
fn modifiers_read_at_frame_end() {
    let mut m = KeyboardManager::new(true);
    let out = frame(&mut m, vec![press(LogicalKey::Other, Some("a")), mods(true, false, false)]);
    assert_eq!(out, vec!["<C-a>".to_string()]);
    assert_eq!(m.modifiers(), Modifiers { ctrl: true, alt: false, logo: false });
    let out = frame(&mut m, vec![mods(false, false, false), press(LogicalKey::Other, Some("a"))]);
    assert_eq!(out, vec!["a".to_string()]);
}

#[test]
fn focus_lost_accepts_input() {
    let mut m = KeyboardManager::new(true);
    let out = frame(
        &mut m,
        vec![InputEvent::Focused(true), InputEvent::Focused(false), press(LogicalKey::Other, Some("a"))],
    );
    assert_eq!(out, vec!["a".to_string()]);
}

#[test]
fn arrival_order_kept_and_other_events_ignored() {
    let mut m = KeyboardManager::new(true);
    let out = frame(
        &mut m,
        vec![
            press(LogicalKey::Other, Some("h")),
            InputEvent::Other,
            press(LogicalKey::F5, None),
            press(LogicalKey::Other, Some("ab")),
            press(LogicalKey::Other, Some("é")),
        ],
    );
    assert_eq!(out, vec!["h".to_string(), "<F5>".to_string(), "ab".to_string(), "é".to_string()]);
    assert_eq!(m.queued_len(), 0);
}

#[test]
fn queue_grows_until_frame_end() {
    let mut m = KeyboardManager::new(true);
    assert_eq!(m.queued_len(), 0);
    m.handle_event(&press(LogicalKey::Other, Some("a")));
    m.handle_event(&release(LogicalKey::Other, Some("a")));
    assert_eq!(m.queued_len(), 2);
    assert_eq!(m.handle_event(&InputEvent::MainEventsCleared), vec!["a".to_string()]);
    assert_eq!(m.queued_len(), 0);
}

#[test]
fn control_key_table() {
    for (key, name) in ALL_CONTROL_KEYS.iter() {
        assert_eq!(is_control_key(*key), Some(*name));
    }
    assert_eq!(is_control_key(LogicalKey::Other), None);
}

#[test]
fn special_text_table() {
    assert_eq!(is_special(" "), Some("Space"));
    assert_eq!(is_special("<"), Some("lt"));
    assert_eq!(is_special("\\"), Some("Bslash"));
    assert_eq!(is_special("|"), Some("Bar"));
    assert_eq!(is_special("\t"), Some("Tab"));
    assert_eq!(is_special("\n"), Some("CR"));
    assert_eq!(is_special("a"), None);
    assert_eq!(is_special(""), None);
    assert_eq!(is_special("  "), None);
    assert_eq!(is_special(">"), None);
}

#[test]
fn small_helpers() {
    assert_eq!(or_empty(true, "C-"), "C-");
    assert_eq!(or_empty(false, "C-"), "");
    assert!(use_logo(true, true));
    assert!(!use_logo(true, false));
    assert!(!use_logo(false, true));
}

#[test]
fn format_under_held_modifiers() {
    let mut m = KeyboardManager::new(true);
    m.handle_event(&mods(true, false, true));
    assert_eq!(m.format_keybinding_string(false, "x"), "<C-D-x>");
    m.handle_event(&mods(false, false, false));
    assert_eq!(m.format_keybinding_string(false, "x"), "x");
    assert_eq!(m.format_keybinding_string(true, "Esc"), "<Esc>");
}
