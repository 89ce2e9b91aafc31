use emoji_picker::handler::Notifier;
use emoji_picker::handlers::back_click::{
    clicked_outside, generate_handlers, opacity, setup_transp_window_dimensions,
    transparent_window_proc, OverlayAction, OverlayPlacement,
};
use emoji_picker::handlers::key_shortcut::{
    key_is_down, HookVerdict, KeyShortcut, KeyShortcutError,
};
use emoji_picker::handlers::on_close_slint::get_close_shortcut_notifier;
use emoji_picker::handlers::tray_icon::{initialize, TrayAction, TrayCommand};
use emoji_picker::handlers::{NotifierReason, Source};
use emoji_picker::keyhandler::{HookAnswer, KeyHandler, KeyHandlerError};

const WM_KEYDOWN: usize = 0x0100;
const WM_KEYUP: usize = 0x0101;
const VK_LWIN: u32 = 0x5B;
const VK_RWIN: u32 = 0x5C;
const VK_OEM_PERIOD: u32 = 0xBE;

#[test]
fn key_state_with_high_bit_is_down() {
    assert!(key_is_down(i16::MIN));
    assert!(key_is_down(-1));
    assert!(key_is_down(-32767));
    assert!(!key_is_down(0));
    assert!(!key_is_down(1));
    assert!(!key_is_down(i16::MAX));
}

#[test]
fn shortcut_is_made_of_the_granted_hook() {
    let shortcut = KeyShortcut::create(Ok(77)).ok().unwrap();
    assert_eq!(shortcut.hook_handle(), 77);
}

#[test]
fn refused_hook_makes_no_shortcut() {
    match KeyShortcut::create(Err(-2147467259)) {
        Err(e) => assert_eq!(e, KeyShortcutError::HookError(-2147467259)),
        Ok(_) => panic!("a refused hook made a shortcut"),
    }
}

#[test]
fn period_with_windows_key_is_swallowed_and_asks_to_open() {
    let mut shortcut = KeyShortcut::create(Ok(1)).ok().unwrap();
    assert_eq!(shortcut.keyboard_hook(true, WM_KEYDOWN, VK_OEM_PERIOD), HookVerdict::Swallow);
    assert_eq!(shortcut.has_notified(), Some(NotifierReason::Shortcut));
    assert_eq!(shortcut.has_notified(), None);
}

#[test]
fn other_key_strokes_are_passed_on() {
    let mut shortcut = KeyShortcut::create(Ok(1)).ok().unwrap();
    assert_eq!(shortcut.keyboard_hook(false, WM_KEYDOWN, VK_OEM_PERIOD), HookVerdict::PassOn);
    assert_eq!(shortcut.keyboard_hook(true, WM_KEYUP, VK_OEM_PERIOD), HookVerdict::PassOn);
    assert_eq!(shortcut.keyboard_hook(true, WM_KEYDOWN, 0x41), HookVerdict::PassOn);
    assert_eq!(shortcut.has_notified(), None);
    assert_eq!(shortcut.hook_handle(), 1);
}

#[test]
fn repeated_shortcut_is_swallowed_and_queued_once() {
    let mut shortcut = KeyShortcut::create(Ok(1)).ok().unwrap();
    assert_eq!(shortcut.keyboard_hook(true, WM_KEYDOWN, VK_OEM_PERIOD), HookVerdict::Swallow);
    assert_eq!(shortcut.keyboard_hook(true, WM_KEYDOWN, VK_OEM_PERIOD), HookVerdict::Swallow);
    assert_eq!(shortcut.has_notified(), Some(NotifierReason::Shortcut));
    assert_eq!(shortcut.has_notified(), None);
}

#[test]
fn key_handler_answers() {
    assert!(matches!(KeyHandler::hook(HookAnswer::Refused), Err(KeyHandlerError::HookError)));
    assert!(matches!(KeyHandler::hook(HookAnswer::Unsupported), Err(KeyHandlerError::UnsupportedOS)));
    let handler = KeyHandler::hook(HookAnswer::Granted(9)).ok().unwrap();
    assert_eq!(handler.unhook(), Some(9));
}

#[test]
fn key_handler_errors_in_words() {
    assert_eq!(KeyHandlerError::HookError.message(), "Could not hook key handler.");
    assert_eq!(KeyHandlerError::UnsupportedOS.message(), "Unsupported OS");
}

#[test]
fn key_handler_follows_the_windows_keys() {
    let mut handler = KeyHandler::hook(HookAnswer::Granted(9)).ok().unwrap();
    assert_eq!(handler.keyboard_hook(VK_OEM_PERIOD, WM_KEYDOWN), HookVerdict::PassOn);
    assert_eq!(handler.keyboard_hook(VK_LWIN, WM_KEYDOWN), HookVerdict::PassOn);
    assert_eq!(handler.keyboard_hook(VK_OEM_PERIOD, WM_KEYUP), HookVerdict::PassOn);
    assert_eq!(handler.has_notified(), None);
    assert_eq!(handler.keyboard_hook(VK_OEM_PERIOD, WM_KEYDOWN), HookVerdict::Swallow);
    assert_eq!(handler.has_notified(), Some(()));
    assert_eq!(handler.has_notified(), None);
    assert_eq!(handler.keyboard_hook(VK_LWIN, WM_KEYUP), HookVerdict::PassOn);
    assert_eq!(handler.keyboard_hook(VK_OEM_PERIOD, WM_KEYDOWN), HookVerdict::PassOn);
    assert_eq!(handler.keyboard_hook(VK_RWIN, WM_KEYDOWN), HookVerdict::PassOn);
    assert_eq!(handler.keyboard_hook(VK_OEM_PERIOD, WM_KEYDOWN), HookVerdict::Swallow);
    assert_eq!(handler.keyboard_hook(VK_OEM_PERIOD, WM_KEYDOWN), HookVerdict::Swallow);
    assert_eq!(handler.has_notified(), Some(()));
    assert_eq!(handler.has_notified(), None);
}

#[test]
fn tray_show_asks_to_open_and_quit_ends_the_loop() {
    let mut tray = initialize();
    assert_eq!(tray.has_notified(), None);
    assert_eq!(tray.menu_chosen(TrayCommand::Show), TrayAction::Requested { queued: true });
    assert_eq!(tray.menu_chosen(TrayCommand::Show), TrayAction::Requested { queued: false });
    assert_eq!(tray.menu_chosen(TrayCommand::Quit), TrayAction::QuitEventLoop);
    assert_eq!(tray.has_notified(), Some(NotifierReason::TrayIcon));
    assert_eq!(tray.has_notified(), None);
}

#[test]
fn overlay_sorts_its_messages() {
    assert_eq!(transparent_window_proc(0x000F), OverlayAction::Paint);
    assert_eq!(transparent_window_proc(0x0002), OverlayAction::Quit);
    assert_eq!(transparent_window_proc(0x0201), OverlayAction::Default);
    for msg in 0x0202..=0x0209 {
        assert_eq!(transparent_window_proc(msg), OverlayAction::Click);
    }
    assert_eq!(transparent_window_proc(0x020A), OverlayAction::Default);
    assert_eq!(transparent_window_proc(0), OverlayAction::Default);
    assert_eq!(transparent_window_proc(0x0200), OverlayAction::Default);
    assert_eq!(transparent_window_proc(u32::MAX), OverlayAction::Default);
}

#[test]
fn overlay_covers_the_virtual_screen() {
    assert_eq!(
        setup_transp_window_dimensions(3840, 1080),
        Some(OverlayPlacement { x: 0, y: 0, width: 3840, height: 1080, flags: 0x0090 })
    );
    assert_eq!(setup_transp_window_dimensions(0, 1080), None);
    assert_eq!(setup_transp_window_dimensions(1920, 0), None);
    assert_eq!(setup_transp_window_dimensions(0, 0), None);
}

#[test]
fn overlay_is_all_but_invisible() {
    assert_eq!(opacity(true), 128);
    assert_eq!(opacity(false), 1);
}

#[test]
fn overlay_that_was_not_created_adds_nothing() {
    assert!(generate_handlers(false).is_none());
}

#[test]
fn overlay_reports_clicks_with_their_reason() {
    let mut parts = generate_handlers(true).unwrap();
    assert_eq!(parts.closer.has_notified(), None);
    assert!(clicked_outside(&mut parts.closer));
    assert!(!clicked_outside(&mut parts.closer));
    assert_eq!(parts.closer.has_notified(), Some(NotifierReason::Backclick));
    assert_eq!(parts.closer.has_notified(), None);
}

#[test]
fn close_request_source_starts_empty() {
    let mut closer = get_close_shortcut_notifier();
    assert!(matches!(closer, Source::Channel(_)));
    assert_eq!(closer.has_notified(), None);
}
