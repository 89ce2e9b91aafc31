use emoji_picker::backend_link::{BackendEventKind, BackendEvents};
use emoji_picker::handlers::emoji_selected::{
    clipboard, clipboard_step, encode_utf16, type_emoji, Cleanup, ClipboardMove, ClipboardStage,
    KeyInput,
};

#[test]
fn plain_text_is_encoded_unit_by_unit() {
    assert_eq!(encode_utf16(""), Vec::<u16>::new());
    assert_eq!(encode_utf16("a"), vec![0x61]);
    assert_eq!(encode_utf16("h\u{e9}"), vec![0x68, 0xE9]);
    assert_eq!(encode_utf16("\u{FFFF}"), vec![0xFFFF]);
    assert_eq!(encode_utf16("\u{D7FF}\u{E000}"), vec![0xD7FF, 0xE000]);
}

#[test]
fn emoji_is_encoded_as_surrogate_pairs() {
    assert_eq!(encode_utf16("\u{10000}"), vec![0xD800, 0xDC00]);
    assert_eq!(encode_utf16("\u{1F600}"), vec![0xD83D, 0xDE00]);
    assert_eq!(encode_utf16("\u{10FFFF}"), vec![0xDBFF, 0xDFFF]);
    assert_eq!(
        encode_utf16("\u{1F44D}\u{1F3FD}"),
        vec![0xD83D, 0xDC4D, 0xD83C, 0xDFFD]
    );
}

#[test]
fn encoding_agrees_with_the_standard_library() {
    for text in ["", "abc", "\u{2764}\u{FE0F}", "\u{1F468}\u{200D}\u{1F469}\u{200D}\u{1F467}", "z\u{1F680}z"] {
        let expected: Vec<u16> = text.encode_utf16().collect();
        assert_eq!(encode_utf16(text), expected);
    }
}

#[test]
fn typing_presses_every_unit_then_releases_every_unit() {
    assert_eq!(
        type_emoji("\u{1F600}"),
        vec![
            KeyInput { scan: 0xD83D, flags: 0x0004 },
            KeyInput { scan: 0xDE00, flags: 0x0004 },
            KeyInput { scan: 0xD83D, flags: 0x0006 },
            KeyInput { scan: 0xDE00, flags: 0x0006 },
        ]
    );
    assert_eq!(
        type_emoji("ok"),
        vec![
            KeyInput { scan: 0x6F, flags: 4 },
            KeyInput { scan: 0x6B, flags: 4 },
            KeyInput { scan: 0x6F, flags: 6 },
            KeyInput { scan: 0x6B, flags: 6 },
        ]
    );
    assert_eq!(type_emoji(""), vec![]);
}

#[test]
fn clipboard_text_ends_with_a_zero() {
    assert_eq!(clipboard(""), vec![0]);
    assert_eq!(clipboard("a"), vec![0x61, 0]);
    assert_eq!(clipboard("\u{1F600}"), vec![0xD83D, 0xDE00, 0]);
}

fn go_on(next: ClipboardStage) -> ClipboardMove {
    ClipboardMove { cleanup: Cleanup::Nothing, next: Some(next) }
}

fn end(cleanup: Cleanup) -> ClipboardMove {
    ClipboardMove { cleanup, next: None }
}

#[test]
fn copy_that_succeeds_walks_every_stage_and_closes_the_clipboard() {
    assert_eq!(clipboard_step(ClipboardStage::Open, true), go_on(ClipboardStage::Empty));
    assert_eq!(clipboard_step(ClipboardStage::Empty, true), go_on(ClipboardStage::Alloc));
    assert_eq!(clipboard_step(ClipboardStage::Alloc, true), go_on(ClipboardStage::Lock));
    assert_eq!(clipboard_step(ClipboardStage::Lock, true), go_on(ClipboardStage::Unlock));
    assert_eq!(clipboard_step(ClipboardStage::Unlock, true), go_on(ClipboardStage::Publish));
    assert_eq!(clipboard_step(ClipboardStage::Publish, true), end(Cleanup::Close));
}

#[test]
fn copy_that_fails_gives_back_what_it_took() {
    assert_eq!(clipboard_step(ClipboardStage::Open, false), end(Cleanup::Nothing));
    assert_eq!(clipboard_step(ClipboardStage::Alloc, false), end(Cleanup::Close));
    assert_eq!(clipboard_step(ClipboardStage::Lock, false), end(Cleanup::FreeAndClose));
    assert_eq!(clipboard_step(ClipboardStage::Unlock, false), end(Cleanup::FreeAndClose));
    assert_eq!(clipboard_step(ClipboardStage::Publish, false), end(Cleanup::FreeAndClose));
}

#[test]
fn clipboard_that_cannot_be_emptied_is_closed_and_the_copy_goes_on() {
    assert_eq!(
        clipboard_step(ClipboardStage::Empty, false),
        ClipboardMove { cleanup: Cleanup::Close, next: Some(ClipboardStage::Alloc) }
    );
}

#[test]
fn events_have_their_kind() {
    assert_eq!(BackendEvents::EmojiSelected("x".to_string()).kind(), BackendEventKind::EmojiSelected);
    assert_eq!(BackendEvents::EmojiFilter("x".to_string()).kind(), BackendEventKind::EmojiFilter);
    assert_eq!(BackendEvents::CloseRequested.kind(), BackendEventKind::CloseRequested);
    assert_eq!(BackendEvents::OpenRequested.kind(), BackendEventKind::OpenRequested);
}
