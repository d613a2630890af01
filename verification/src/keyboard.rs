//! Decoding of keyboard scancodes into keystrokes and the text they show.

use pc_keyboard::layouts::Us104Key;
use pc_keyboard::Error;
use pc_keyboard::HandleControl;
use pc_keyboard::KeyCode;
use pc_keyboard::Keyboard;
use pc_keyboard::ScancodeSet1;
use vstd::prelude::*;

verus! {

#[verifier::external_type_specification]
#[verifier::external_body]
pub struct ExKeyCode(KeyCode);

#[verifier::external_type_specification]
#[verifier::external_body]
pub struct ExError(Error);

/// Whether a key went down or came up.
#[derive(Debug, Clone, Copy, PartialEq, Eq, Structural)]
pub enum KeyState {
    /// The key was released.
    Up,
    /// The key was pressed.
    Down,
}

/// A key and what happened to it.
#[derive(Debug, Clone, Copy, PartialEq, Eq)]
pub struct KeyEvent {
    /// The key's identity.
    pub code: KeyCode,
    /// Whether the key was pressed or released.
    pub state: KeyState,
}

/// What a scancode byte says of its key: bytes from 0x80 on are releases,
/// the others presses.
pub open spec fn state_of_scancode(byte: u8) -> KeyState {
    if byte >= 0x80 {
        KeyState::Up
    } else {
        KeyState::Down
    }
}

/// A keystroke after the modifier keys have been applied.
#[derive(Debug, Clone, Copy, PartialEq, Eq)]
pub enum DecodedKey {
    /// A key without a character, by its identity.
    RawKey(KeyCode),
    /// A key that stands for a character.
    Unicode(char),
}

/// Text that a handler hands to the screen.
#[derive(Debug, PartialEq, Eq)]
pub enum ScreenText {
    /// One character.
    Character(char),
    /// The name of a key without a character.
    KeyName(String),
}

/// The modifier keys that are held or latched.
#[derive(Debug, Clone, Copy, PartialEq, Eq, Structural)]
pub struct Modifiers {
    /// The left shift key is held.
    pub lshift: bool,
    /// The right shift key is held.
    pub rshift: bool,
    /// The left control key is held.
    pub lctrl: bool,
    /// The right control key is held.
    pub rctrl: bool,
    /// The numeric lock is on.
    pub numlock: bool,
    /// The capitals lock is on.
    pub capslock: bool,
    /// The right alt key is held.
    pub alt_gr: bool,
}

/// What a decoder remembers between bytes.
#[derive(Debug, Clone, Copy, PartialEq, Eq, Structural)]
pub struct DecoderState {
    /// The byte that opens a two-byte sequence has been fed and the byte that
    /// closes it has not.
    pub extended: bool,
    /// The modifier keys held or latched.
    pub modifiers: Modifiers,
}

/// The state of a decoder to which nothing has been fed: no sequence open,
/// no modifier held, the numeric lock on.
pub open spec fn initial_state() -> DecoderState {
    DecoderState {
        extended: false,
        modifiers: Modifiers {
            lshift: false,
            rshift: false,
            lctrl: false,
            rctrl: false,
            numlock: true,
            capslock: false,
            alt_gr: false,
        },
    }
}

/// The keyboard's decoding state: the scancode sequence in progress and the
/// modifier keys held or latched. It is kept by a `Keyboard` for the US layout
/// with 104 keys and scancode set 1.
#[verifier::external_body]
pub struct Decoder {
    keyboard: Keyboard<Us104Key, ScancodeSet1>,
}

/// What the keyboard inside a decoder holds.
pub uninterp spec fn decoder_state(decoder: Decoder) -> DecoderState;

/// What feeding `byte` gives in scancode set 1, with or without a sequence
/// open: an event, none, or the refusal of the byte.
pub uninterp spec fn scan_result(extended: bool, byte: u8) -> Result<Option<KeyEvent>, Error>;

/// What applying the modifiers of `state` to `event` gives on the US layout:
/// the state afterwards and the keystroke, if there is one.
pub uninterp spec fn resolved(state: DecoderState, event: KeyEvent) -> (
    DecoderState,
    Option<DecodedKey>,
);

/// The name of a key, as its `Debug` form writes it.
pub uninterp spec fn key_name_text(code: KeyCode) -> Seq<char>;

impl View for Decoder {
    type V = DecoderState;

    open spec fn view(&self) -> DecoderState {
        decoder_state(*self)
    }
}

/// The state after `byte` has been fed: a sequence is open exactly when none
/// was open and the byte is the one that opens one; the modifiers are as
/// before.
pub open spec fn state_after_byte(state: DecoderState, byte: u8) -> DecoderState {
    DecoderState { extended: !state.extended && byte == 0xe0, modifiers: state.modifiers }
}

/// The key event that feeding `byte` completes: that of the scan, none where
/// the byte is refused.
pub open spec fn event_after_byte(state: DecoderState, byte: u8) -> Option<KeyEvent> {
    match scan_result(state.extended, byte) {
        Ok(completed) => completed,
        Err(_) => None,
    }
}

/// Whether `text` is what the keystroke `key` shows: its character, or else
/// the key's name.
pub open spec fn shows(text: ScreenText, key: DecodedKey) -> bool {
    match key {
        DecodedKey::Unicode(character) => text == ScreenText::Character(character),
        DecodedKey::RawKey(code) => text matches ScreenText::KeyName(name) && name@
            == key_name_text(code),
    }
}

/// Whether `text` is what the outcome `key` of resolving an event shows:
/// nothing where there is no keystroke.
pub open spec fn shows_outcome(text: Option<ScreenText>, key: Option<DecodedKey>) -> bool {
    match key {
        Some(key) => text matches Some(shown) && shows(shown, key),
        None => text.is_none(),
    }
}

/// Whether feeding `byte` in the state `before` leaves the state `after` and
/// shows `text`: the byte is scanned, and the event it completes, if any, is
/// resolved and its keystroke shown.
pub open spec fn decodes_to(
    before: DecoderState,
    byte: u8,
    after: DecoderState,
    text: Option<ScreenText>,
) -> bool {
    match event_after_byte(before, byte) {
        Some(event) => {
            let outcome = resolved(state_after_byte(before, byte), event);
            after == outcome.0 && shows_outcome(text, outcome.1)
        },
        None => after == state_after_byte(before, byte) && text.is_none(),
    }
}

/// `Keyboard::new`, with the control keys handled like any other key: no
/// sequence is open, no modifier is held and the numeric lock is on.
#[verifier::external_body]
fn new_keyboard() -> (decoder: Decoder)
    ensures
        decoder_state(decoder) == initial_state(),
{
    Decoder { keyboard: Keyboard::new(Us104Key, ScancodeSet1, HandleControl::Ignore) }
}

/// `Keyboard::add_byte`: feeds one scancode byte to the keyboard's state
/// machine. The result is that of scancode set 1 for the byte, given whether
/// a sequence was open. Of it: the byte 0xE0 outside a sequence opens one and
/// completes nothing, any other byte completes an event or is refused, and
/// the event of a byte from 0x80 on is a release, that of any other byte a
/// press. Afterwards a sequence is open only if this byte opened it; the
/// modifiers are untouched.
#[verifier::external_body]
fn add_byte(decoder: &mut Decoder, byte: u8) -> (fed: Result<Option<KeyEvent>, Error>)
    ensures
        fed == scan_result(decoder_state(*old(decoder)).extended, byte),
        (fed == Ok::<Option<KeyEvent>, Error>(None)) == (!decoder_state(*old(decoder)).extended
            && byte == 0xe0),
        fed matches Ok(Some(event)) ==> event.state == state_of_scancode(byte),
        decoder_state(*final(decoder)) == state_after_byte(decoder_state(*old(decoder)), byte),
{
    match decoder.keyboard.add_byte(byte) {
        Ok(Some(event)) => {
            let state = match event.state {
                pc_keyboard::KeyState::Up => KeyState::Up,
                pc_keyboard::KeyState::Down => KeyState::Down,
            };
            Ok(Some(KeyEvent { code: event.code, state }))
        },
        Ok(None) => Ok(None),
        Err(error) => Err(error),
    }
}

/// `Keyboard::process_keyevent`: applies the modifier keys to a key event
/// and latches those that the event changes. The keystroke and the state
/// afterwards are those of the US layout for the event and the state before.
/// Of them: a release gives no keystroke, and the open sequence, if any,
/// stays open.
#[verifier::external_body]
fn process_keyevent(decoder: &mut Decoder, event: KeyEvent) -> (key: Option<DecodedKey>)
    ensures
        (decoder_state(*final(decoder)), key) == resolved(decoder_state(*old(decoder)), event),
        event.state == KeyState::Up ==> key.is_none(),
        decoder_state(*final(decoder)).extended == decoder_state(*old(decoder)).extended,
{
    let state = match event.state {
        KeyState::Up => pc_keyboard::KeyState::Up,
        KeyState::Down => pc_keyboard::KeyState::Down,
    };
    match decoder.keyboard.process_keyevent(pc_keyboard::KeyEvent::new(event.code, state)) {
        Some(pc_keyboard::DecodedKey::Unicode(character)) => Some(DecodedKey::Unicode(character)),
        Some(pc_keyboard::DecodedKey::RawKey(code)) => Some(DecodedKey::RawKey(code)),
        None => None,
    }
}

/// `KeyCode`'s `Debug` form: the name of the key.
#[verifier::external_body]
fn key_name(code: KeyCode) -> (name: String)
    ensures
        name@ == key_name_text(code),
{
    format!("{:?}", code)
}

/// The key event, if any, that feeding a byte completed; a byte that the
/// keyboard rejects completes none.
pub fn completed_event(fed: Result<Option<KeyEvent>, Error>) -> (event: Option<KeyEvent>)
    ensures
        event == match fed {
            Ok(completed) => completed,
            Err(_) => None::<KeyEvent>,
        },
{
    match fed {
        Ok(completed) => completed,
        Err(_) => None,
    }
}

/// The text that a keystroke shows: its character, or else the key's name.
pub fn key_text(key: DecodedKey) -> (text: ScreenText)
    ensures
        shows(text, key),
{
    match key {
        DecodedKey::Unicode(character) => ScreenText::Character(character),
        DecodedKey::RawKey(code) => ScreenText::KeyName(key_name(code)),
    }
}

/// The text, if any, that the outcome of resolving a key event shows.
pub fn shown_text(key: Option<DecodedKey>) -> (text: Option<ScreenText>)
    ensures
        shows_outcome(text, key),
{
    match key {
        Some(key) => Some(key_text(key)),
        None => None,
    }
}

impl Decoder {
    /// A decoder at the start of a scancode sequence, with no modifier held.
    pub fn new() -> (decoder: Self)
        ensures
            decoder@ == initial_state(),
    {
        new_keyboard()
    }

    /// Feeds one scancode byte; returns the key event that it completed, or
    /// `None` where the byte opens a sequence or is not recognised. An event
    /// is a release exactly when the byte is 0x80 or more. The byte that
    /// opens a sequence leaves it open; any other byte closes it.
    pub fn submit(&mut self, scancode: u8) -> (event: Option<KeyEvent>)
        ensures
            event == event_after_byte(old(self)@, scancode),
            final(self)@ == state_after_byte(old(self)@, scancode),
            !old(self)@.extended && scancode == 0xe0 ==> event.is_none(),
            event matches Some(completed) ==> completed.state == state_of_scancode(scancode),
    {
        completed_event(add_byte(self, scancode))
    }

    /// Applies the modifier keys to a key event and latches those that the
    /// event changes; returns the keystroke, or `None` where the event only
    /// changes a modifier or releases a key.
    pub fn resolve(&mut self, event: KeyEvent) -> (key: Option<DecodedKey>)
        ensures
            (final(self)@, key) == resolved(old(self)@, event),
            event.state == KeyState::Up ==> key.is_none(),
            final(self)@.extended == old(self)@.extended,
    {
        process_keyevent(self, event)
    }

    /// Feeds one scancode byte and returns the text of the keystroke it
    /// completed, if it completed one. A release shows nothing, and neither
    /// does the byte that opens a sequence.
    pub fn decode(&mut self, scancode: u8) -> (text: Option<ScreenText>)
        ensures
            decodes_to(old(self)@, scancode, final(self)@, text),
            scancode >= 0x80 ==> text.is_none(),
            final(self)@.extended == (!old(self)@.extended && scancode == 0xe0),
    {
        match self.submit(scancode) {
            Some(event) => shown_text(self.resolve(event)),
            None => None,
        }
    }
}

} // verus!
