use minircore::keyboard::{
    completed_event, key_text, shown_text, DecodedKey, Decoder, KeyEvent, KeyState, ScreenText,
};
use pc_keyboard::{Error, KeyCode};

const A_PRESS: u8 = 0x1e;
const A_RELEASE: u8 = 0x9e;
const LEFT_SHIFT_PRESS: u8 = 0x2a;
const LEFT_SHIFT_RELEASE: u8 = 0xaa;
const CAPS_LOCK_PRESS: u8 = 0x3a;
const EXTENDED: u8 = 0xe0;

#[test]
fn letter_without_shift_is_lower_case() {
    let mut decoder = Decoder::new();
    let event = decoder.submit(A_PRESS).unwrap();
    assert_eq!(event, KeyEvent { code: KeyCode::A, state: KeyState::Down });
    assert_eq!(decoder.resolve(event), Some(DecodedKey::Unicode('a')));
}

#[test]
fn letter_after_shift_press_is_upper_case() {
    let mut decoder = Decoder::new();
    let shift = decoder.submit(LEFT_SHIFT_PRESS).unwrap();
    assert_eq!(shift, KeyEvent { code: KeyCode::ShiftLeft, state: KeyState::Down });
    assert_eq!(decoder.resolve(shift), None);
    let event = decoder.submit(A_PRESS).unwrap();
    assert_eq!(decoder.resolve(event), Some(DecodedKey::Unicode('A')));
}

#[test]
fn shift_release_ends_upper_case() {
    let mut decoder = Decoder::new();
    assert_eq!(decoder.decode(LEFT_SHIFT_PRESS), None);
    assert_eq!(decoder.decode(A_PRESS), Some(ScreenText::Character('A')));
    assert_eq!(decoder.decode(LEFT_SHIFT_RELEASE), None);
    assert_eq!(decoder.decode(A_PRESS), Some(ScreenText::Character('a')));
}

#[test]
fn caps_lock_latches() {
    let mut decoder = Decoder::new();
    assert_eq!(decoder.decode(CAPS_LOCK_PRESS), None);
    assert_eq!(decoder.decode(A_PRESS), Some(ScreenText::Character('A')));
    assert_eq!(decoder.decode(CAPS_LOCK_PRESS), None);
    assert_eq!(decoder.decode(A_PRESS), Some(ScreenText::Character('a')));
}

#[test]
fn key_release_shows_nothing() {
    let mut decoder = Decoder::new();
    let event = decoder.submit(A_RELEASE).unwrap();
    assert_eq!(event, KeyEvent { code: KeyCode::A, state: KeyState::Up });
    assert_eq!(decoder.resolve(event), None);
    assert_eq!(decoder.decode(A_RELEASE), None);
}

#[test]
fn open_sequence_gives_no_event() {
    let mut decoder = Decoder::new();
    assert_eq!(decoder.submit(EXTENDED), None);
    let event = decoder.submit(0x48).unwrap();
    assert_eq!(event, KeyEvent { code: KeyCode::ArrowUp, state: KeyState::Down });
    assert_eq!(decoder.resolve(event), Some(DecodedKey::RawKey(KeyCode::ArrowUp)));
}

#[test]
fn unknown_scancode_is_dropped() {
    let mut decoder = Decoder::new();
    assert_eq!(decoder.submit(0x7f), None);
    assert_eq!(decoder.decode(0x7f), None);
    assert_eq!(decoder.decode(A_PRESS), Some(ScreenText::Character('a')));
}

#[test]
fn digits_decode() {
    let mut decoder = Decoder::new();
    assert_eq!(decoder.decode(0x02), Some(ScreenText::Character('1')));
    assert_eq!(decoder.decode(0x0b), Some(ScreenText::Character('0')));
}

#[test]
fn key_without_character_shows_its_name() {
    let mut decoder = Decoder::new();
    assert_eq!(decoder.decode(0x3b), Some(ScreenText::KeyName(String::from("F1"))));
    assert_eq!(key_text(DecodedKey::RawKey(KeyCode::Home)), ScreenText::KeyName(String::from("Home")));
    assert_eq!(key_text(DecodedKey::Unicode('x')), ScreenText::Character('x'));
}

#[test]
fn rejected_byte_completes_no_event() {
    assert_eq!(completed_event(Err(Error::UnknownKeyCode)), None);
    assert_eq!(completed_event(Ok(None)), None);
    let event = KeyEvent { code: KeyCode::B, state: KeyState::Down };
    assert_eq!(completed_event(Ok(Some(event))), Some(event));
}

#[test]
fn release_scancodes_never_show_text() {
    let mut decoder = Decoder::new();
    for scancode in 0x80..=0xffu8 {
        assert_eq!(decoder.decode(scancode), None);
    }
    let mut decoder = Decoder::new();
    for scancode in 0x80..=0xffu8 {
        if let Some(event) = decoder.submit(scancode) {
            assert_eq!(event.state, KeyState::Up);
            assert_eq!(decoder.resolve(event), None);
        }
    }
}

#[test]
fn press_scancodes_give_press_events() {
    let mut decoder = Decoder::new();
    for scancode in 0x00..0x80u8 {
        if let Some(event) = decoder.submit(scancode) {
            assert_eq!(event.state, KeyState::Down);
        }
    }
    assert_eq!(decoder.submit(0xe0), None);
    for scancode in 0x00..0x80u8 {
        decoder.submit(0xe0);
        if let Some(event) = decoder.submit(scancode) {
            assert_eq!(event.state, KeyState::Down);
        }
    }
}

#[test]
fn release_of_any_key_resolves_to_nothing() {
    let mut decoder = Decoder::new();
    for code in [KeyCode::A, KeyCode::ShiftLeft, KeyCode::F1, KeyCode::Enter, KeyCode::CapsLock] {
        assert_eq!(decoder.resolve(KeyEvent { code, state: KeyState::Up }), None);
    }
}

#[test]
fn shown_text_follows_the_keystroke() {
    assert_eq!(shown_text(None), None);
    assert_eq!(shown_text(Some(DecodedKey::Unicode('q'))), Some(ScreenText::Character('q')));
    assert_eq!(
        shown_text(Some(DecodedKey::RawKey(KeyCode::Insert))),
        Some(ScreenText::KeyName(String::from("Insert")))
    );
}

#[test]
fn new_decoder_has_the_numeric_lock_on_and_no_shift() {
    let mut decoder = Decoder::new();
    assert_eq!(decoder.decode(0x48), Some(ScreenText::Character('8')));
    assert_eq!(decoder.decode(0x1e), Some(ScreenText::Character('a')));
    assert_eq!(decoder.decode(0x45), None);
    assert_eq!(decoder.decode(0x48), Some(ScreenText::KeyName(String::from("ArrowUp"))));
}

#[test]
fn sequence_is_open_for_one_byte_only() {
    let mut decoder = Decoder::new();
    assert_eq!(decoder.submit(EXTENDED), None);
    assert_eq!(
        decoder.submit(0x48),
        Some(KeyEvent { code: KeyCode::ArrowUp, state: KeyState::Down })
    );
    assert_eq!(
        decoder.submit(0x48),
        Some(KeyEvent { code: KeyCode::Numpad8, state: KeyState::Down })
    );
}

#[test]
fn refused_byte_closes_the_sequence() {
    let mut decoder = Decoder::new();
    assert_eq!(decoder.submit(EXTENDED), None);
    assert_eq!(decoder.submit(0x60), None);
    assert_eq!(
        decoder.submit(0x48),
        Some(KeyEvent { code: KeyCode::Numpad8, state: KeyState::Down })
    );
}

#[test]
fn sequence_byte_inside_a_sequence_closes_it() {
    let mut decoder = Decoder::new();
    assert_eq!(decoder.submit(EXTENDED), None);
    assert_eq!(decoder.submit(EXTENDED), None);
    assert_eq!(
        decoder.submit(0x48),
        Some(KeyEvent { code: KeyCode::Numpad8, state: KeyState::Down })
    );
}

#[test]
fn refused_byte_outside_a_sequence_opens_none() {
    let mut decoder = Decoder::new();
    assert_eq!(decoder.submit(0x7f), None);
    assert_eq!(
        decoder.submit(0x48),
        Some(KeyEvent { code: KeyCode::Numpad8, state: KeyState::Down })
    );
}

#[test]
fn resolving_leaves_an_open_sequence_open() {
    let mut decoder = Decoder::new();
    assert_eq!(decoder.submit(EXTENDED), None);
    assert_eq!(
        decoder.resolve(KeyEvent { code: KeyCode::ShiftLeft, state: KeyState::Down }),
        None
    );
    assert_eq!(
        decoder.submit(0x48),
        Some(KeyEvent { code: KeyCode::ArrowUp, state: KeyState::Down })
    );
    assert_eq!(
        decoder.resolve(KeyEvent { code: KeyCode::A, state: KeyState::Down }),
        Some(DecodedKey::Unicode('A'))
    );
}

#[test]
fn submitting_leaves_the_modifiers() {
    let mut decoder = Decoder::new();
    assert_eq!(decoder.submit(LEFT_SHIFT_PRESS).map(|event| event.code), Some(KeyCode::ShiftLeft));
    assert_eq!(
        decoder.resolve(KeyEvent { code: KeyCode::A, state: KeyState::Down }),
        Some(DecodedKey::Unicode('a'))
    );
}
