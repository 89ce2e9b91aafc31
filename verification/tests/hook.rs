use emoji_picker::hooker::volatile::Volatile;
use emoji_picker::keyredir::{KeyRedirection, Redirected};
use emoji_picker::hooker::{
    hook_granted, install_hook, keyboard_hook, uninstall_hook, HookState, KeyVerdict, HOOK_REFUSED,
};

#[test]
fn volatile_holds_what_was_set() {
    let mut cell = Volatile::new(5usize);
    assert_eq!(cell.get(), 5);
    cell.set(8);
    assert_eq!(cell.get(), 8);
    assert_eq!(cell.get(), 8);
}

#[test]
fn library_starts_without_window_and_hook() {
    let state = HookState::new();
    assert_eq!(state.window.get(), 0);
    assert_eq!(state.hook.get(), 0);
}

#[test]
fn uninstall_without_hook_does_nothing() {
    let mut state = HookState::new();
    assert_eq!(uninstall_hook(&mut state), None);
    assert_eq!(state.hook.get(), 0);
    assert_eq!(state.window.get(), 0);
    assert_eq!(uninstall_hook(&mut state), None);
}

#[test]
fn install_asks_for_one_hook() {
    let mut state = HookState::new();
    assert!(install_hook(&mut state, 0x1234));
    assert_eq!(state.window.get(), 0x1234);
    assert_eq!(hook_granted(&mut state, 0xBEEF, 0), 0);
    assert_eq!(state.hook.get(), 0xBEEF);

    assert!(!install_hook(&mut state, 0x5678));
    assert_eq!(state.hook.get(), 0xBEEF);
    assert_eq!(state.window.get(), 0x5678);
}

#[test]
fn granted_hook_is_a_success_whatever_the_last_error() {
    let mut state = HookState::new();
    install_hook(&mut state, 1);
    assert_eq!(hook_granted(&mut state, 7, 1400), 0);
    assert_eq!(state.hook.get(), 7);
}

#[test]
fn refused_hook_gives_the_error_code() {
    let mut state = HookState::new();
    assert!(install_hook(&mut state, 1));
    assert_eq!(hook_granted(&mut state, 0, 1428), 1428);
    assert_eq!(state.hook.get(), 0);
    assert!(install_hook(&mut state, 1));
    assert_eq!(hook_granted(&mut state, 0, 0), HOOK_REFUSED);
    assert_eq!(HOOK_REFUSED, u32::MAX);
}

#[test]
fn uninstall_gives_the_hook_back_once() {
    let mut state = HookState::new();
    install_hook(&mut state, 0x10);
    hook_granted(&mut state, 0x20, 0);
    assert_eq!(uninstall_hook(&mut state), Some(0x20));
    assert_eq!(state.hook.get(), 0);
    assert_eq!(state.window.get(), 0);
    assert_eq!(uninstall_hook(&mut state), None);
    assert!(install_hook(&mut state, 0x10));
}

#[test]
fn key_strokes_go_to_the_window() {
    let mut state = HookState::new();
    install_hook(&mut state, 0x10);
    hook_granted(&mut state, 0x20, 0);
    assert_eq!(
        keyboard_hook(&mut state, 0, 0x41, 0x001E_0001),
        KeyVerdict::Redirect { window: 0x10, message: 0x0100 }
    );
    assert_eq!(
        keyboard_hook(&mut state, 0, 0x41, 0xC01E_0001u32 as isize),
        KeyVerdict::Redirect { window: 0x10, message: 0x0101 }
    );
    assert_eq!(
        keyboard_hook(&mut state, 3, 0x41, 0x4000_0000),
        KeyVerdict::Redirect { window: 0x10, message: 0x0100 }
    );
    assert_eq!(state.hook.get(), 0x20);
    assert_eq!(state.window.get(), 0x10);
}

#[test]
fn typed_characters_and_foreign_codes_are_passed_on() {
    let mut state = HookState::new();
    install_hook(&mut state, 0x10);
    hook_granted(&mut state, 0x20, 0);
    assert_eq!(keyboard_hook(&mut state, 0, 0xE7, 1), KeyVerdict::PassOn);
    assert_eq!(keyboard_hook(&mut state, -1, 0x41, 1), KeyVerdict::PassOn);
    assert_eq!(state.hook.get(), 0x20);
}

#[test]
fn hook_without_window_removes_itself() {
    let mut state = HookState::new();
    state.hook.set(0x20);
    assert_eq!(keyboard_hook(&mut state, 0, 0x41, 1), KeyVerdict::Unhook { hook: 0x20 });
    assert_eq!(state.hook.get(), 0);
    assert_eq!(keyboard_hook(&mut state, 0, 0x41, 1), KeyVerdict::PassOn);
}

#[test]
fn redirection_asks_for_a_hook_once() {
    let mut redirection = KeyRedirection::new();
    assert!(redirection.set_target(0x10));
    assert_eq!(redirection.target_hooked(Some(0x77)), Ok(()));
    assert!(!redirection.set_target(0x20));
    assert_eq!(redirection.stop(), Some(0x77));
    assert_eq!(redirection.stop(), None);
    assert!(redirection.set_target(0x20));
}

#[test]
fn refused_redirection_is_an_error_and_keeps_no_hook() {
    let mut redirection = KeyRedirection::new();
    assert!(redirection.set_target(0x10));
    assert_eq!(redirection.target_hooked(None), Err(()));
    assert_eq!(redirection.stop(), None);
    assert!(redirection.set_target(0x10));
}

#[test]
fn redirection_posts_every_key_but_escape() {
    let mut redirection = KeyRedirection::new();
    assert_eq!(redirection.keyboard_hook(0x41, 0x0100), Redirected::PassOn);
    assert_eq!(redirection.keyboard_hook(0x1B, 0x0100), Redirected::Swallow);
    redirection.set_target(0x10);
    assert_eq!(
        redirection.keyboard_hook(0x41, 0x0100),
        Redirected::Post { window: 0x10, message: 0x0100 }
    );
    assert_eq!(
        redirection.keyboard_hook(0x41, 0x0101),
        Redirected::Post { window: 0x10, message: 0x0101 }
    );
    assert_eq!(redirection.keyboard_hook(0x1B, 0x0101), Redirected::Swallow);
}
