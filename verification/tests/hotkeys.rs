use music_player::bindings::{Binding, Bindings};
use music_player::held::HeldKeys;
use music_player::hotkey::{check_hotkey, Combination};
use music_player::key::{Key, Modifier};
use music_player::matcher::{HotkeyMatcher, KeyEvent};
use music_player::modifiers::ModifierState;

fn held(keys: &[Key]) -> HeldKeys {
    let mut set = HeldKeys::new();
    for key in keys {
        set.insert(*key);
    }
    set
}

fn mods(shift: bool, ctrl: bool, alt: bool, meta: bool) -> ModifierState {
    ModifierState { shift, ctrl, alt, meta }
}

fn bindings(pairs: &[(&str, &str)]) -> Bindings {
    let mut made = Bindings::new();
    for (command, combination) in pairs {
        made.insert(command.to_string(), combination.to_string());
    }
    made
}

#[test]
fn ctrl_x_matches_and_ctrl_shift_x_does_not() {
    let pressed = held(&[Key::ControlLeft, Key::KeyX]);
    let ctrl = mods(false, true, false, false);
    assert!(check_hotkey(&pressed, &ctrl, "ctrl+x"));
    assert!(!check_hotkey(&pressed, &ctrl, "ctrl+shift+x"));
}

#[test]
fn extra_modifier_breaks_the_match() {
    let pressed = held(&[Key::ControlLeft, Key::ShiftLeft, Key::KeyX]);
    assert!(!check_hotkey(&pressed, &mods(true, true, false, false), "ctrl+x"));
    assert!(check_hotkey(&pressed, &mods(true, true, false, false), "ctrl+shift+x"));
    assert!(!check_hotkey(&pressed, &mods(false, true, false, true), "ctrl+x"));
    assert!(!check_hotkey(&pressed, &mods(false, true, true, false), "ctrl+x"));
}

#[test]
fn shift_alt_delete_needs_exactly_shift_and_alt() {
    let pressed = held(&[Key::ShiftLeft, Key::Alt, Key::Delete]);
    assert!(check_hotkey(&pressed, &mods(true, false, true, false), "shift+alt+delete"));
    assert!(!check_hotkey(&pressed, &mods(true, true, true, false), "shift+alt+delete"));
    assert!(!check_hotkey(&pressed, &mods(true, false, true, true), "shift+alt+delete"));
    assert!(!check_hotkey(&pressed, &mods(false, false, true, false), "shift+alt+delete"));
    assert!(!check_hotkey(&pressed, &mods(true, false, false, false), "shift+alt+delete"));
    assert!(!check_hotkey(&pressed, &mods(false, false, false, false), "shift+alt+delete"));
}

#[test]
fn shift_alt_delete_needs_delete_down() {
    let without = held(&[Key::ShiftLeft, Key::Alt]);
    assert!(!check_hotkey(&without, &mods(true, false, true, false), "shift+alt+delete"));
    let other = held(&[Key::ShiftLeft, Key::Alt, Key::Backspace]);
    assert!(!check_hotkey(&other, &mods(true, false, true, false), "shift+alt+delete"));
}

#[test]
fn releasing_shift_before_delete_makes_the_match_fail() {
    let mut matcher = HotkeyMatcher::new(bindings(&[("stop", "shift+alt+delete")]));
    assert!(matcher.handle_event(KeyEvent::Press(Key::ShiftLeft)).is_empty());
    assert!(matcher.handle_event(KeyEvent::Press(Key::Alt)).is_empty());
    assert!(matcher.handle_event(KeyEvent::Release(Key::ShiftLeft)).is_empty());
    assert!(matcher.handle_event(KeyEvent::Press(Key::Delete)).is_empty());
    assert!(matcher.handle_event(KeyEvent::Release(Key::Delete)).is_empty());
    assert!(matcher.handle_event(KeyEvent::Press(Key::ShiftRight)).is_empty());
    assert_eq!(matcher.handle_event(KeyEvent::Press(Key::Delete)), vec!["stop".to_string()]);
}

#[test]
fn token_order_does_not_matter() {
    let pressed = held(&[Key::Delete]);
    let down = mods(true, false, true, false);
    for text in ["shift+alt+delete", "alt+shift+delete", "delete+shift+alt", "alt+delete+shift"] {
        assert!(check_hotkey(&pressed, &down, text));
    }
}

#[test]
fn tokens_are_read_in_any_case() {
    let pressed = held(&[Key::KeyX]);
    let ctrl = mods(false, true, false, false);
    assert!(check_hotkey(&pressed, &ctrl, "CTRL+X"));
    assert!(check_hotkey(&pressed, &ctrl, "Ctrl+x"));
}

#[test]
fn meta_has_three_names() {
    let pressed = held(&[Key::KeyL]);
    let meta = mods(false, false, false, true);
    assert!(check_hotkey(&pressed, &meta, "meta+l"));
    assert!(check_hotkey(&pressed, &meta, "super+l"));
    assert!(check_hotkey(&pressed, &meta, "win+l"));
    assert!(check_hotkey(&pressed, &meta, "Super+Win+L"));
}

#[test]
fn key_alone_needs_no_modifier_down() {
    let pressed = held(&[Key::F5]);
    assert!(check_hotkey(&pressed, &mods(false, false, false, false), "f5"));
    assert!(!check_hotkey(&pressed, &mods(true, false, false, false), "f5"));
}

#[test]
fn unknown_key_name_never_matches() {
    let pressed = held(&[Key::ControlLeft, Key::KeyX, Key::Unknown(0x1008ff17)]);
    let ctrl = mods(false, true, false, false);
    assert!(!check_hotkey(&pressed, &ctrl, "ctrl+nosuchkey"));
    assert!(!check_hotkey(&pressed, &mods(false, false, false, false), "XF86AudioNext"));
    assert!(!check_hotkey(&pressed, &mods(false, false, false, false), ""));
}

#[test]
fn modifiers_alone_never_match() {
    let pressed = held(&[Key::ControlLeft, Key::ShiftLeft]);
    assert!(!check_hotkey(&pressed, &mods(true, true, false, false), "ctrl+shift"));
    assert!(!check_hotkey(&pressed, &mods(false, true, false, false), "ctrl"));
}

#[test]
fn last_key_token_decides() {
    let x = held(&[Key::KeyX]);
    let y = held(&[Key::KeyY]);
    let none = mods(false, false, false, false);
    assert!(!check_hotkey(&x, &none, "x+y"));
    assert!(check_hotkey(&y, &none, "x+y"));
    assert!(!check_hotkey(&x, &none, "x+nosuchkey"));
    assert!(check_hotkey(&x, &none, "nosuchkey+x"));
    assert!(!check_hotkey(&x, &none, "x+"));
    assert!(check_hotkey(&x, &none, "+x"));
}

#[test]
fn media_key_binding_matches_its_code() {
    let pressed = held(&[Key::Unknown(0x1008ff17)]);
    let none = mods(false, false, false, false);
    assert!(check_hotkey(&pressed, &none, "audionext"));
    assert!(check_hotkey(&pressed, &none, "NextSong"));
    assert!(!check_hotkey(&pressed, &none, "audioprev"));
}

#[test]
fn combination_is_parsed_into_modifiers_and_key() {
    assert_eq!(
        Combination::parse("ctrl+shift+f5"),
        Combination { modifiers: mods(true, true, false, false), key: Some(Key::F5) }
    );
    assert_eq!(Combination::parse(""), Combination { modifiers: mods(false, false, false, false), key: None });
    assert_eq!(
        Combination::parse("alt+win"),
        Combination { modifiers: mods(false, false, true, true), key: None }
    );
    assert_eq!(
        Combination::parse("ctrl+ctrl+a"),
        Combination { modifiers: mods(false, true, false, false), key: Some(Key::KeyA) }
    );
}

#[test]
fn combination_is_built_token_by_token() {
    let built = Combination::new().with_token("Shift").with_token("Home");
    assert_eq!(built, Combination { modifiers: mods(true, false, false, false), key: Some(Key::Home) });
    let by_parts = Combination::new().with_modifier(Modifier::Shift).with_key(Some(Key::Home));
    assert_eq!(built, by_parts);
    assert_eq!(built.with_token("nosuchkey").key, None);
}

#[test]
fn combination_matches_by_equal_modifiers_and_held_key() {
    let combination = Combination { modifiers: mods(false, true, false, false), key: Some(Key::KeyX) };
    assert!(combination.matches(&mods(false, true, false, false), &held(&[Key::KeyX])));
    assert!(!combination.matches(&mods(false, true, false, false), &held(&[Key::KeyY])));
    assert!(!combination.matches(&mods(true, true, false, false), &held(&[Key::KeyX])));
    let keyless = Combination { modifiers: mods(false, true, false, false), key: None };
    assert!(!keyless.matches(&mods(false, true, false, false), &held(&[Key::KeyX])));
}

#[test]
fn bindings_keep_one_combination_for_each_command() {
    let mut made = Bindings::new();
    assert_eq!(made.len(), 0);
    assert_eq!(made.insert("next".to_string(), "ctrl+n".to_string()), None);
    assert_eq!(made.insert("prev".to_string(), "ctrl+p".to_string()), None);
    assert_eq!(made.insert("next".to_string(), "alt+n".to_string()), Some("ctrl+n".to_string()));
    assert_eq!(made.len(), 2);
    assert_eq!(made.combination_of("next"), Some(&"alt+n".to_string()));
    assert_eq!(made.combination_of("prev"), Some(&"ctrl+p".to_string()));
    assert_eq!(made.combination_of("stop"), None);
    assert_eq!(
        made.get(0),
        Some(&Binding { command: "next".to_string(), combination: "alt+n".to_string() })
    );
    assert_eq!(
        made.get(1),
        Some(&Binding { command: "prev".to_string(), combination: "ctrl+p".to_string() })
    );
    assert_eq!(made.get(2), None);
}

#[test]
fn bindings_copy_is_equal() {
    let made = bindings(&[("next", "ctrl+n"), ("stop", "ctrl+q")]);
    let copy = made.clone();
    assert_eq!(copy.len(), 2);
    assert_eq!(copy.get(0), made.get(0));
    assert_eq!(copy.get(1), made.get(1));
}

#[test]
fn matcher_fires_on_press_only() {
    let mut matcher = HotkeyMatcher::new(bindings(&[("next", "ctrl+n")]));
    assert!(matcher.handle_event(KeyEvent::Press(Key::ControlLeft)).is_empty());
    assert_eq!(matcher.handle_event(KeyEvent::Press(Key::KeyN)), vec!["next".to_string()]);
    assert!(matcher.handle_event(KeyEvent::Other).is_empty());
    assert!(matcher.handle_event(KeyEvent::Release(Key::KeyN)).is_empty());
    assert!(matcher.handle_event(KeyEvent::Release(Key::ControlLeft)).is_empty());
    assert!(matcher.handle_event(KeyEvent::Press(Key::KeyN)).is_empty());
}

#[test]
fn matcher_fires_again_while_the_key_stays_down() {
    let mut matcher = HotkeyMatcher::new(bindings(&[("next", "n")]));
    assert_eq!(matcher.handle_event(KeyEvent::Press(Key::KeyN)), vec!["next".to_string()]);
    assert_eq!(matcher.handle_event(KeyEvent::Press(Key::KeyM)), vec!["next".to_string()]);
}

#[test]
fn matcher_fires_every_binding_that_holds() {
    let mut matcher = HotkeyMatcher::new(bindings(&[
        ("next", "ctrl+n"),
        ("volume_up", "ctrl+u"),
        ("prev", "shift+n"),
        ("pause", "ctrl+N"),
    ]));
    matcher.handle_event(KeyEvent::Press(Key::ControlRight));
    matcher.handle_event(KeyEvent::Press(Key::KeyU));
    let fired = matcher.handle_event(KeyEvent::Press(Key::KeyN));
    assert_eq!(fired, vec!["next".to_string(), "volume_up".to_string(), "pause".to_string()]);
}

#[test]
fn matcher_follows_the_keyboard() {
    let mut matcher = HotkeyMatcher::new(Bindings::new());
    matcher.handle_event(KeyEvent::Press(Key::ShiftLeft));
    matcher.handle_event(KeyEvent::Press(Key::KeyA));
    assert!(matcher.modifiers.shift);
    assert!(matcher.held.contains(&Key::ShiftLeft));
    assert!(matcher.held.contains(&Key::KeyA));
    matcher.handle_event(KeyEvent::Release(Key::ShiftLeft));
    assert!(!matcher.modifiers.shift);
    assert!(!matcher.held.contains(&Key::ShiftLeft));
    assert!(matcher.held.contains(&Key::KeyA));
    assert_eq!(matcher.bindings.len(), 0);
}

#[test]
fn matcher_press_and_release_do_as_the_events_do() {
    let mut matcher = HotkeyMatcher::new(bindings(&[("stop", "escape")]));
    assert_eq!(matcher.press(Key::Escape), vec!["stop".to_string()]);
    assert_eq!(matcher.fired_commands(), vec!["stop".to_string()]);
    matcher.release(Key::Escape);
    assert!(matcher.fired_commands().is_empty());
}
