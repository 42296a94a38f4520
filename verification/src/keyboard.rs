//! The virtual keyboard: which native code an abstract key has, which keys
//! the device declares when it is created, and the plan for each request.

use vstd::prelude::*;
use crate::codes::{
    KEY_0, KEY_1, KEY_2, KEY_3, KEY_4, KEY_5, KEY_6, KEY_7, KEY_8, KEY_9, KEY_A, KEY_B,
    KEY_BACKSPACE, KEY_C, KEY_CAPSLOCK, KEY_D, KEY_DELETE, KEY_DOWN, KEY_E, KEY_END, KEY_ENTER,
    KEY_ESC, KEY_F, KEY_F1, KEY_F10, KEY_F11, KEY_F12, KEY_F2, KEY_F3, KEY_F4, KEY_F5, KEY_F6,
    KEY_F7, KEY_F8, KEY_F9, KEY_G, KEY_H, KEY_HOME, KEY_I, KEY_INSERT, KEY_J, KEY_K, KEY_L,
    KEY_LEFT, KEY_LEFTALT, KEY_LEFTCTRL, KEY_LEFTMETA, KEY_LEFTSHIFT, KEY_M, KEY_N, KEY_O,
    KEY_P, KEY_PAGEDOWN, KEY_PAGEUP, KEY_PAUSE, KEY_Q, KEY_R, KEY_RIGHT, KEY_RIGHTALT,
    KEY_RIGHTCTRL, KEY_RIGHTMETA, KEY_RIGHTSHIFT, KEY_S, KEY_SCROLLLOCK, KEY_SPACE, KEY_SYSRQ,
    KEY_T, KEY_TAB, KEY_U, KEY_UP, KEY_V, KEY_W, KEY_X, KEY_Y, KEY_Z,
};
use crate::event::{
    batch_of_one, delivered_from, emitted_from, lemma_well_paired_concat, report, settle, well_paired,
    DeviceDescriptor, InputEvent, OnFailure, Plan, StepView,
};

verus! {

/// The abstract key vocabulary that requests are made in.
#[derive(Clone, Copy, Debug, PartialEq, Eq, Structural)]
pub enum Key {
    /// The key that produces this character on the layout in use.
    Layout(char),
    /// A key named by a platform key code.
    Raw(u16),
    Space,
    Return,
    Backspace,
    Tab,
    Escape,
    LeftShift,
    RightShift,
    LeftControl,
    RightControl,
    LeftAlt,
    RightAlt,
    LeftMeta,
    RightMeta,
    CapsLock,
    F1,
    F2,
    F3,
    F4,
    F5,
    F6,
    F7,
    F8,
    F9,
    F10,
    F11,
    F12,
    Delete,
    Home,
    End,
    PageUp,
    PageDown,
    UpArrow,
    DownArrow,
    LeftArrow,
    RightArrow,
    Insert,
    Pause,
    Print,
    ScrollLock,
    Numlock,
    /// Any other key of the vocabulary.
    Other,
}

/// The codes of the letter keys, `a` first.
pub open spec fn letter_codes() -> Seq<u16> {
    seq![
        KEY_A, KEY_B, KEY_C, KEY_D, KEY_E, KEY_F, KEY_G, KEY_H, KEY_I, KEY_J, KEY_K, KEY_L, KEY_M,
        KEY_N, KEY_O, KEY_P, KEY_Q, KEY_R, KEY_S, KEY_T, KEY_U, KEY_V, KEY_W, KEY_X, KEY_Y, KEY_Z,
    ]
}

/// The codes of the digit keys in the order of the keyboard's top row:
/// `1` to `9`, then `0`.
pub open spec fn digit_codes() -> Seq<u16> {
    seq![KEY_1, KEY_2, KEY_3, KEY_4, KEY_5, KEY_6, KEY_7, KEY_8, KEY_9, KEY_0]
}

/// The codes of the keys that are neither letters nor digits, as the device
/// declares them.
pub open spec fn control_codes() -> Seq<u16> {
    seq![
        KEY_SPACE, KEY_ENTER, KEY_BACKSPACE, KEY_LEFTSHIFT, KEY_RIGHTSHIFT, KEY_LEFTCTRL,
        KEY_RIGHTCTRL, KEY_LEFTALT, KEY_RIGHTALT, KEY_LEFTMETA, KEY_RIGHTMETA, KEY_TAB,
        KEY_CAPSLOCK, KEY_F1, KEY_F2, KEY_F3, KEY_F4, KEY_F5, KEY_F6, KEY_F7, KEY_F8, KEY_F9,
        KEY_F10, KEY_F11, KEY_F12, KEY_ESC, KEY_SYSRQ, KEY_SCROLLLOCK, KEY_PAUSE, KEY_INSERT,
        KEY_HOME, KEY_PAGEUP, KEY_DELETE, KEY_END, KEY_PAGEDOWN, KEY_RIGHT, KEY_LEFT, KEY_DOWN,
        KEY_UP,
    ]
}

/// The native code of the key that types `c`: lower-case Latin letters and
/// decimal digits have one, nothing else has.
pub open spec fn layout_code(c: char) -> Option<u16> {
    if 'a' <= c && c <= 'z' {
        Some(letter_codes()[c as u32 - 'a' as u32])
    } else if '1' <= c && c <= '9' {
        Some(digit_codes()[c as u32 - '1' as u32])
    } else if c == '0' {
        Some(KEY_0)
    } else {
        None
    }
}

/// The mapping table: the native code of an abstract key, or `None` where
/// the virtual keyboard has no code for it.
pub open spec fn key_code(key: Key) -> Option<u16> {
    match key {
        Key::Layout(c) => layout_code(c),
        Key::Space => Some(KEY_SPACE),
        Key::Return => Some(KEY_ENTER),
        Key::Backspace => Some(KEY_BACKSPACE),
        Key::Tab => Some(KEY_TAB),
        Key::Escape => Some(KEY_ESC),
        Key::LeftShift => Some(KEY_LEFTSHIFT),
        Key::RightShift => Some(KEY_RIGHTSHIFT),
        Key::LeftControl => Some(KEY_LEFTCTRL),
        Key::RightControl => Some(KEY_RIGHTCTRL),
        Key::LeftAlt => Some(KEY_LEFTALT),
        Key::RightAlt => Some(KEY_RIGHTALT),
        Key::LeftMeta => Some(KEY_LEFTMETA),
        Key::RightMeta => Some(KEY_RIGHTMETA),
        Key::CapsLock => Some(KEY_CAPSLOCK),
        Key::F1 => Some(KEY_F1),
        Key::F2 => Some(KEY_F2),
        Key::F3 => Some(KEY_F3),
        Key::F4 => Some(KEY_F4),
        Key::F5 => Some(KEY_F5),
        Key::F6 => Some(KEY_F6),
        Key::F7 => Some(KEY_F7),
        Key::F8 => Some(KEY_F8),
        Key::F9 => Some(KEY_F9),
        Key::F10 => Some(KEY_F10),
        Key::F11 => Some(KEY_F11),
        Key::F12 => Some(KEY_F12),
        Key::Delete => Some(KEY_DELETE),
        Key::Home => Some(KEY_HOME),
        Key::End => Some(KEY_END),
        Key::PageUp => Some(KEY_PAGEUP),
        Key::PageDown => Some(KEY_PAGEDOWN),
        Key::UpArrow => Some(KEY_UP),
        Key::DownArrow => Some(KEY_DOWN),
        Key::LeftArrow => Some(KEY_LEFT),
        Key::RightArrow => Some(KEY_RIGHT),
        _ => None,
    }
}

/// The key codes that the virtual keyboard declares at creation.
pub open spec fn keyboard_keys() -> Seq<u16> {
    letter_codes() + digit_codes() + control_codes()
}

/// How long a key is held between press and release, in milliseconds.
pub const KEY_SETTLE_MILLIS: u64 = 10;

/// Plan for pressing `key`. With `strict`, a failed write ends the request
/// as failed; without, the sync marker of a failed press is left out and
/// nothing is reported.
pub open spec fn press_plan(key: Key, strict: bool) -> Seq<StepView> {
    match key_code(key) {
        Some(code) => if strict {
            report(seq![InputEvent::key_spec(code, true)], OnFailure::Abort, OnFailure::Abort)
        } else {
            report(seq![InputEvent::key_spec(code, true)], OnFailure::SkipNext, OnFailure::Ignore)
        },
        None => Seq::empty(),
    }
}

/// Plan for `key_down`: the press and its sync marker, or nothing for a key
/// without a code.
pub open spec fn key_down_plan(key: Key) -> Seq<StepView> {
    press_plan(key, true)
}

/// Plan for `key_up`: the release and its sync marker, both written
/// whatever happens, or nothing for a key without a code.
pub open spec fn key_up_plan(key: Key) -> Seq<StepView> {
    match key_code(key) {
        Some(code) => report(
            seq![InputEvent::key_spec(code, false)],
            OnFailure::Ignore,
            OnFailure::Ignore,
        ),
        None => Seq::empty(),
    }
}

/// Plan for `key_click`: press, settle, release. No failure is reported.
pub open spec fn key_click_plan(key: Key) -> Seq<StepView> {
    press_plan(key, false) + settle(KEY_SETTLE_MILLIS) + key_up_plan(key)
}

/// Plan for `key_sequence`: one click per character, in the text's order.
pub open spec fn key_sequence_plan(text: Seq<char>) -> Seq<StepView>
    decreases text.len(),
{
    if text.len() == 0 {
        Seq::empty()
    } else {
        key_sequence_plan(text.drop_last()) + key_click_plan(Key::Layout(text.last()))
    }
}

/// The logic of the virtual keyboard. It holds no state: the device it
/// speaks for cannot be read back.
#[derive(Debug, PartialEq, Eq)]
pub struct EvdevInputKeyboard {}

impl EvdevInputKeyboard {
    pub fn new() -> (keyboard: EvdevInputKeyboard) {
        EvdevInputKeyboard {  }
    }

    /// Looks `key` up in the mapping table.
    pub fn map_enigo_key_to_evdev(&self, key: Key) -> (code: Option<u16>)
        ensures
            code == key_code(key),
    {
        match key {
            Key::Layout('a') => Some(KEY_A),
            Key::Layout('b') => Some(KEY_B),
            Key::Layout('c') => Some(KEY_C),
            Key::Layout('d') => Some(KEY_D),
            Key::Layout('e') => Some(KEY_E),
            Key::Layout('f') => Some(KEY_F),
            Key::Layout('g') => Some(KEY_G),
            Key::Layout('h') => Some(KEY_H),
            Key::Layout('i') => Some(KEY_I),
            Key::Layout('j') => Some(KEY_J),
            Key::Layout('k') => Some(KEY_K),
            Key::Layout('l') => Some(KEY_L),
            Key::Layout('m') => Some(KEY_M),
            Key::Layout('n') => Some(KEY_N),
            Key::Layout('o') => Some(KEY_O),
            Key::Layout('p') => Some(KEY_P),
            Key::Layout('q') => Some(KEY_Q),
            Key::Layout('r') => Some(KEY_R),
            Key::Layout('s') => Some(KEY_S),
            Key::Layout('t') => Some(KEY_T),
            Key::Layout('u') => Some(KEY_U),
            Key::Layout('v') => Some(KEY_V),
            Key::Layout('w') => Some(KEY_W),
            Key::Layout('x') => Some(KEY_X),
            Key::Layout('y') => Some(KEY_Y),
            Key::Layout('z') => Some(KEY_Z),
            Key::Layout('0') => Some(KEY_0),
            Key::Layout('1') => Some(KEY_1),
            Key::Layout('2') => Some(KEY_2),
            Key::Layout('3') => Some(KEY_3),
            Key::Layout('4') => Some(KEY_4),
            Key::Layout('5') => Some(KEY_5),
            Key::Layout('6') => Some(KEY_6),
            Key::Layout('7') => Some(KEY_7),
            Key::Layout('8') => Some(KEY_8),
            Key::Layout('9') => Some(KEY_9),
            Key::Space => Some(KEY_SPACE),
            Key::Return => Some(KEY_ENTER),
            Key::Backspace => Some(KEY_BACKSPACE),
            Key::Tab => Some(KEY_TAB),
            Key::Escape => Some(KEY_ESC),
            Key::LeftShift => Some(KEY_LEFTSHIFT),
            Key::RightShift => Some(KEY_RIGHTSHIFT),
            Key::LeftControl => Some(KEY_LEFTCTRL),
            Key::RightControl => Some(KEY_RIGHTCTRL),
            Key::LeftAlt => Some(KEY_LEFTALT),
            Key::RightAlt => Some(KEY_RIGHTALT),
            Key::LeftMeta => Some(KEY_LEFTMETA),
            Key::RightMeta => Some(KEY_RIGHTMETA),
            Key::CapsLock => Some(KEY_CAPSLOCK),
            Key::F1 => Some(KEY_F1),
            Key::F2 => Some(KEY_F2),
            Key::F3 => Some(KEY_F3),
            Key::F4 => Some(KEY_F4),
            Key::F5 => Some(KEY_F5),
            Key::F6 => Some(KEY_F6),
            Key::F7 => Some(KEY_F7),
            Key::F8 => Some(KEY_F8),
            Key::F9 => Some(KEY_F9),
            Key::F10 => Some(KEY_F10),
            Key::F11 => Some(KEY_F11),
            Key::F12 => Some(KEY_F12),
            Key::Delete => Some(KEY_DELETE),
            Key::Home => Some(KEY_HOME),
            Key::End => Some(KEY_END),
            Key::PageUp => Some(KEY_PAGEUP),
            Key::PageDown => Some(KEY_PAGEDOWN),
            Key::UpArrow => Some(KEY_UP),
            Key::DownArrow => Some(KEY_DOWN),
            Key::LeftArrow => Some(KEY_LEFT),
            Key::RightArrow => Some(KEY_RIGHT),
            _ => None,
        }
    }

    /// Always `false`: a device that is only written to cannot tell whether
    /// a key is down.
    pub fn get_key_state(&self, key: Key) -> (pressed: bool)
        ensures
            !pressed,
    {
        false
    }

    /// What the device is created with: its name and every key code it
    /// may be asked to write.
    pub fn descriptor(&self) -> (descriptor: DeviceDescriptor)
        ensures
            descriptor.name@ == "RustDesk Virtual Keyboard"@,
            descriptor.keys@ == keyboard_keys(),
            descriptor.relative_axes@ == Seq::<u16>::empty(),
    {
        let keys: Vec<u16> = vec![
            KEY_A, KEY_B, KEY_C, KEY_D, KEY_E, KEY_F, KEY_G, KEY_H, KEY_I, KEY_J, KEY_K, KEY_L,
            KEY_M, KEY_N, KEY_O, KEY_P, KEY_Q, KEY_R, KEY_S, KEY_T, KEY_U, KEY_V, KEY_W, KEY_X,
            KEY_Y, KEY_Z, KEY_1, KEY_2, KEY_3, KEY_4, KEY_5, KEY_6, KEY_7, KEY_8, KEY_9, KEY_0,
            KEY_SPACE, KEY_ENTER, KEY_BACKSPACE, KEY_LEFTSHIFT, KEY_RIGHTSHIFT, KEY_LEFTCTRL,
            KEY_RIGHTCTRL, KEY_LEFTALT, KEY_RIGHTALT, KEY_LEFTMETA, KEY_RIGHTMETA, KEY_TAB,
            KEY_CAPSLOCK, KEY_F1, KEY_F2, KEY_F3, KEY_F4, KEY_F5, KEY_F6, KEY_F7, KEY_F8, KEY_F9,
            KEY_F10, KEY_F11, KEY_F12, KEY_ESC, KEY_SYSRQ, KEY_SCROLLLOCK, KEY_PAUSE, KEY_INSERT,
            KEY_HOME, KEY_PAGEUP, KEY_DELETE, KEY_END, KEY_PAGEDOWN, KEY_RIGHT, KEY_LEFT, KEY_DOWN,
            KEY_UP,
        ];
        assert(keys@ =~= keyboard_keys());
        DeviceDescriptor {
            name: String::from_str("RustDesk Virtual Keyboard"),
            keys,
            relative_axes: Vec::new(),
        }
    }

    /// The press of `key` with its sync marker, under the policy that
    /// `strict` selects; nothing for a key without a code.
    fn press(&self, key: Key, strict: bool) -> (plan: Plan)
        ensures
            plan@ == press_plan(key, strict),
    {
        let mut plan = Plan::new();
        if let Some(code) = self.map_enigo_key_to_evdev(key) {
            if strict {
                plan.push_report(batch_of_one(InputEvent::key(code, true)), OnFailure::Abort, OnFailure::Abort);
            } else {
                plan.push_report(
                    batch_of_one(InputEvent::key(code, true)),
                    OnFailure::SkipNext,
                    OnFailure::Ignore,
                );
            }
        }
        plan
    }

    /// Presses `key`. The request fails if the press or its sync marker
    /// cannot be written; after a failed press no sync marker is written.
    /// A key without a code is passed over: nothing is written and the
    /// request succeeds.
    pub fn key_down(&self, key: Key) -> (plan: Plan)
        ensures
            plan@ == key_down_plan(key),
    {
        self.press(key, true)
    }

    /// Releases `key`. The release and its sync marker are both written
    /// whatever happens to either, so that no key is left down.
    pub fn key_up(&self, key: Key) -> (plan: Plan)
        ensures
            plan@ == key_up_plan(key),
    {
        let mut plan = Plan::new();
        if let Some(code) = self.map_enigo_key_to_evdev(key) {
            plan.push_report(batch_of_one(InputEvent::key(code, false)), OnFailure::Ignore, OnFailure::Ignore);
        }
        plan
    }

    /// Presses `key`, lets it settle, and releases it.
    pub fn key_click(&self, key: Key) -> (plan: Plan)
        ensures
            plan@ == key_click_plan(key),
    {
        let mut plan = self.press(key, false);
        plan.push_settle(KEY_SETTLE_MILLIS);
        plan.append(self.key_up(key));
        plan
    }

    /// Clicks the key of each character of `text`, first character first.
    pub fn key_sequence(&self, text: &str) -> (plan: Plan)
        ensures
            plan@ == key_sequence_plan(text@),
    {
        let mut plan = Plan::new();
        let count = text.unicode_len();
        let mut i: usize = 0;
        while i < count
            invariant
                count == text@.len(),
                i <= count,
                plan@ == key_sequence_plan(text@.take(i as int)),
            decreases count - i,
        {
            let c = text.get_char(i);
            assert(text@.take(i + 1).drop_last() =~= text@.take(i as int));
            plan.append(self.key_click(Key::Layout(c)));
            i = i + 1;
        }
        assert(text@.take(count as int) =~= text@);
        plan
    }
}

/// A key that the mapping table does not hold is passed over in silence:
/// `key_down` writes nothing to the device and does not fail, whatever the
/// device would have answered.
pub proof fn lemma_unmapped_key_is_silent(key: Key, ok: spec_fn(int) -> bool)
    requires
        key_code(key) is None,
    ensures
        key_down_plan(key) == Seq::<StepView>::empty(),
        emitted_from(key_down_plan(key), 0, ok) == Seq::<Seq<InputEvent>>::empty(),
        delivered_from(key_down_plan(key), 0, ok),
{
}

/// Every code that the mapping table can give is among the key codes that
/// the device declares at creation.
pub proof fn lemma_mapped_keys_are_declared(key: Key)
    ensures
        key_code(key) matches Some(code) ==> keyboard_keys().contains(code),
{
    let keys = keyboard_keys();
    assert(keys.len() == 75);
    match key {
        Key::Layout(c) => {
            if 'a' <= c && c <= 'z' {
                let k = c as u32 - 'a' as u32;
                assert(keys[k] == letter_codes()[k]);
            } else if '1' <= c && c <= '9' {
                let k = c as u32 - '1' as u32;
                assert(keys[26 + k] == digit_codes()[k]);
            } else if c == '0' {
                assert(keys[35] == KEY_0);
            }
        },
        Key::Space => assert(keys[36] == KEY_SPACE),
        Key::Return => assert(keys[37] == KEY_ENTER),
        Key::Backspace => assert(keys[38] == KEY_BACKSPACE),
        Key::LeftShift => assert(keys[39] == KEY_LEFTSHIFT),
        Key::RightShift => assert(keys[40] == KEY_RIGHTSHIFT),
        Key::LeftControl => assert(keys[41] == KEY_LEFTCTRL),
        Key::RightControl => assert(keys[42] == KEY_RIGHTCTRL),
        Key::LeftAlt => assert(keys[43] == KEY_LEFTALT),
        Key::RightAlt => assert(keys[44] == KEY_RIGHTALT),
        Key::LeftMeta => assert(keys[45] == KEY_LEFTMETA),
        Key::RightMeta => assert(keys[46] == KEY_RIGHTMETA),
        Key::Tab => assert(keys[47] == KEY_TAB),
        Key::CapsLock => assert(keys[48] == KEY_CAPSLOCK),
        Key::F1 => assert(keys[49] == KEY_F1),
        Key::F2 => assert(keys[50] == KEY_F2),
        Key::F3 => assert(keys[51] == KEY_F3),
        Key::F4 => assert(keys[52] == KEY_F4),
        Key::F5 => assert(keys[53] == KEY_F5),
        Key::F6 => assert(keys[54] == KEY_F6),
        Key::F7 => assert(keys[55] == KEY_F7),
        Key::F8 => assert(keys[56] == KEY_F8),
        Key::F9 => assert(keys[57] == KEY_F9),
        Key::F10 => assert(keys[58] == KEY_F10),
        Key::F11 => assert(keys[59] == KEY_F11),
        Key::F12 => assert(keys[60] == KEY_F12),
        Key::Escape => assert(keys[61] == KEY_ESC),
        Key::Home => assert(keys[66] == KEY_HOME),
        Key::PageUp => assert(keys[67] == KEY_PAGEUP),
        Key::Delete => assert(keys[68] == KEY_DELETE),
        Key::End => assert(keys[69] == KEY_END),
        Key::PageDown => assert(keys[70] == KEY_PAGEDOWN),
        Key::RightArrow => assert(keys[71] == KEY_RIGHT),
        Key::LeftArrow => assert(keys[72] == KEY_LEFT),
        Key::DownArrow => assert(keys[73] == KEY_DOWN),
        Key::UpArrow => assert(keys[74] == KEY_UP),
        _ => {},
    }
}

/// In every plan of the keyboard each key event is directly followed by a
/// sync marker.
pub proof fn lemma_key_plans_well_paired(key: Key)
    ensures
        well_paired(key_down_plan(key)),
        well_paired(key_up_plan(key)),
        well_paired(key_click_plan(key)),
{
    assert(well_paired(press_plan(key, false)));
    assert(well_paired(settle(KEY_SETTLE_MILLIS)));
    lemma_well_paired_concat(press_plan(key, false), settle(KEY_SETTLE_MILLIS));
    lemma_well_paired_concat(press_plan(key, false) + settle(KEY_SETTLE_MILLIS), key_up_plan(key));
}

/// The same holds of the plan for a whole text.
pub proof fn lemma_key_sequence_well_paired(text: Seq<char>)
    ensures
        well_paired(key_sequence_plan(text)),
    decreases text.len(),
{
    if text.len() > 0 {
        lemma_key_sequence_well_paired(text.drop_last());
        lemma_key_plans_well_paired(Key::Layout(text.last()));
        lemma_well_paired_concat(
            key_sequence_plan(text.drop_last()),
            key_click_plan(Key::Layout(text.last())),
        );
    }
}

} // verus!
