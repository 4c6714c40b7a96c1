//! Key events on their way from a physical keyboard to a guest.
use crate::duplicate::Duplicate;
use crate::text::model::Text;
use vstd::prelude::*;

verus! {

/// Whether a key goes down or comes up.
#[derive(Clone, Copy, Debug, Eq, PartialEq, Structural)]
pub enum KeyTransition {
    Down,
    Up,
}

/// The keys that change what others mean.
#[derive(Clone, Copy, Debug, Eq, PartialEq, Structural)]
pub enum ModifierKey {
    LeftShift,
    RightShift,
    LeftControl,
    RightControl,
    LeftAlt,
    RightAlt,
    LeftWindows,
    RightWindows,
}

/// A key event, freed of how it was reported.
#[derive(Debug, Eq, PartialEq)]
pub struct NormalizedKeyEvent {
    pub physical_device_id: String,
    pub raw_input_path: String,
    pub scan_code: u16,
    pub virtual_key: u16,
    pub extended_e0: bool,
    pub extended_e1: bool,
    pub transition: KeyTransition,
    pub modifier: Option<ModifierKey>,
}

/// The model of [`NormalizedKeyEvent`].
#[verifier::ext_equal]
pub struct NormalizedKeyEventView {
    pub physical_device_id: Text,
    pub raw_input_path: Text,
    pub scan_code: u16,
    pub virtual_key: u16,
    pub extended_e0: bool,
    pub extended_e1: bool,
    pub transition: KeyTransition,
    pub modifier: Option<ModifierKey>,
}

impl View for NormalizedKeyEvent {
    type V = NormalizedKeyEventView;

    open spec fn view(&self) -> NormalizedKeyEventView {
        NormalizedKeyEventView {
            physical_device_id: self.physical_device_id@,
            raw_input_path: self.raw_input_path@,
            scan_code: self.scan_code,
            virtual_key: self.virtual_key,
            extended_e0: self.extended_e0,
            extended_e1: self.extended_e1,
            transition: self.transition,
            modifier: self.modifier,
        }
    }
}

impl Duplicate for NormalizedKeyEvent {
    fn duplicate(&self) -> (r: Self) {
        NormalizedKeyEvent {
            physical_device_id: self.physical_device_id.clone(),
            raw_input_path: self.raw_input_path.clone(),
            scan_code: self.scan_code,
            virtual_key: self.virtual_key,
            extended_e0: self.extended_e0,
            extended_e1: self.extended_e1,
            transition: self.transition,
            modifier: self.modifier,
        }
    }
}

impl Clone for NormalizedKeyEvent {
    fn clone(&self) -> (r: Self)
        ensures
            r@ == self@,
    {
        self.duplicate()
    }
}

/// The modifier that a scan code stands for.
pub open spec fn modifier_of(scan_code: u16, extended_e0: bool) -> Option<ModifierKey> {
    if scan_code == 0x2a {
        Some(ModifierKey::LeftShift)
    } else if scan_code == 0x36 {
        Some(ModifierKey::RightShift)
    } else if scan_code == 0x1d {
        Some(
            if extended_e0 {
                ModifierKey::RightControl
            } else {
                ModifierKey::LeftControl
            },
        )
    } else if scan_code == 0x38 {
        Some(
            if extended_e0 {
                ModifierKey::RightAlt
            } else {
                ModifierKey::LeftAlt
            },
        )
    } else if scan_code == 0x5b && extended_e0 {
        Some(ModifierKey::LeftWindows)
    } else if scan_code == 0x5c && extended_e0 {
        Some(ModifierKey::RightWindows)
    } else {
        None
    }
}

fn modifier_for(scan_code: u16, extended_e0: bool) -> (r: Option<ModifierKey>)
    ensures
        r == modifier_of(scan_code, extended_e0),
{
    if scan_code == 0x2a {
        Some(ModifierKey::LeftShift)
    } else if scan_code == 0x36 {
        Some(ModifierKey::RightShift)
    } else if scan_code == 0x1d {
        Some(
            if extended_e0 {
                ModifierKey::RightControl
            } else {
                ModifierKey::LeftControl
            },
        )
    } else if scan_code == 0x38 {
        Some(
            if extended_e0 {
                ModifierKey::RightAlt
            } else {
                ModifierKey::LeftAlt
            },
        )
    } else if scan_code == 0x5b && extended_e0 {
        Some(ModifierKey::LeftWindows)
    } else if scan_code == 0x5c && extended_e0 {
        Some(ModifierKey::RightWindows)
    } else {
        None
    }
}

/// A raw key event, normalized. Of the flags, the lowest bit says that the key comes up, and the
/// next two that the scan code is extended.
pub open spec fn normalized(
    physical_device_id: Text,
    raw_input_path: Text,
    make_code: u16,
    flags: u16,
    virtual_key: u16,
) -> NormalizedKeyEventView {
    NormalizedKeyEventView {
        physical_device_id,
        raw_input_path,
        scan_code: make_code,
        virtual_key,
        extended_e0: flags & 2 != 0,
        extended_e1: flags & 4 != 0,
        transition: if flags & 1 != 0 {
            KeyTransition::Up
        } else {
            KeyTransition::Down
        },
        modifier: modifier_of(make_code, flags & 2 != 0),
    }
}

/// A raw key event, normalized. Of the flags, the lowest bit says that the key comes up, and the
/// next two that the scan code is extended.
pub fn normalize_raw_keyboard_event(
    physical_device_id: String,
    raw_input_path: String,
    make_code: u16,
    flags: u16,
    virtual_key: u16,
) -> (r: NormalizedKeyEvent)
    ensures
        r@ == (NormalizedKeyEventView {
            physical_device_id: physical_device_id@,
            raw_input_path: raw_input_path@,
            scan_code: make_code,
            virtual_key,
            extended_e0: flags & 2 != 0,
            extended_e1: flags & 4 != 0,
            transition: if flags & 1 != 0 {
                KeyTransition::Up
            } else {
                KeyTransition::Down
            },
            modifier: modifier_of(make_code, flags & 2 != 0),
        }),
        r@ == normalized(physical_device_id@, raw_input_path@, make_code, flags, virtual_key),
{
    let extended_e0 = flags & 2 != 0;
    NormalizedKeyEvent {
        physical_device_id,
        raw_input_path,
        scan_code: make_code,
        virtual_key,
        extended_e0,
        extended_e1: flags & 4 != 0,
        transition: if flags & 1 != 0 {
            KeyTransition::Up
        } else {
            KeyTransition::Down
        },
        modifier: modifier_for(make_code, extended_e0),
    }
}

/// The low byte of a scan code, with the top bit set where the key comes up.
pub open spec fn code_byte(scan_code: u16, transition: KeyTransition) -> u8 {
    let make = (scan_code & 0x7f) as u8;
    match transition {
        KeyTransition::Down => make,
        KeyTransition::Up => (make + 0x80) as u8,
    }
}

impl NormalizedKeyEventView {
    /// The bytes that a keyboard would send for the event.
    pub open spec fn scancodes(self) -> Seq<u8> {
        (if self.extended_e0 {
            seq![0xe0u8]
        } else {
            seq![]
        }) + (if self.extended_e1 {
            seq![0xe1u8]
        } else {
            seq![]
        }) + seq![code_byte(self.scan_code, self.transition)]
    }

    /// What tells one key from another.
    pub open spec fn key(self) -> (u16, bool, bool) {
        (self.scan_code, self.extended_e0, self.extended_e1)
    }
}

impl NormalizedKeyEvent {
    /// The bytes that a keyboard would send for the event.
    pub fn virtual_box_scancodes(&self) -> (r: Vec<u8>)
        ensures
            r@ == self@.scancodes(),
    {
        let mut bytes: Vec<u8> = Vec::new();
        if self.extended_e0 {
            bytes.push(0xe0);
        }
        if self.extended_e1 {
            bytes.push(0xe1);
        }
        let scan_code = self.scan_code;
        assert(scan_code & 0x7f <= 0x7f) by (bit_vector);
        let make: u8 = (scan_code & 0x7f) as u8;
        let code: u8 = match self.transition {
            KeyTransition::Down => make,
            KeyTransition::Up => make + 0x80,
        };
        bytes.push(code);
        bytes
    }
}

/// What takes the key events of a guest.
pub trait GuestKeyboardSink {
    fn key_down(&mut self, event: &NormalizedKeyEvent) -> Result<(), String>;

    fn key_up(&mut self, event: &NormalizedKeyEvent) -> Result<(), String>;

    fn release_all(&mut self) -> Result<(), String>;
}

// ---- Laws ------------------------------------------------------------------------------

/// The keys that change what other keys do, by the codes that a keyboard sends for them.
pub proof fn law_modifiers_are_known_by_their_codes(scan_code: u16, extended_e0: bool)
    ensures
        ({
            let found = modifier_of(scan_code, extended_e0);
            &&& found == Some(ModifierKey::LeftShift) <==> scan_code == 42
            &&& found == Some(ModifierKey::RightShift) <==> scan_code == 54
            &&& found == Some(ModifierKey::LeftControl) <==> scan_code == 29 && !extended_e0
            &&& found == Some(ModifierKey::RightControl) <==> scan_code == 29 && extended_e0
            &&& found == Some(ModifierKey::LeftAlt) <==> scan_code == 56 && !extended_e0
            &&& found == Some(ModifierKey::RightAlt) <==> scan_code == 56 && extended_e0
            &&& found == Some(ModifierKey::LeftWindows) <==> scan_code == 91 && extended_e0
            &&& found == Some(ModifierKey::RightWindows) <==> scan_code == 92 && extended_e0
        }),
{
}

/// A key comes up where the number of its flags is odd, and goes down otherwise. Its code is
/// extended by the second bit of the flags in one way and by the third in another. Whatever else
/// the event says stays as it was.
pub proof fn law_flags_tell_the_transition(
    physical_device_id: Text,
    raw_input_path: Text,
    make_code: u16,
    flags: u16,
    virtual_key: u16,
)
    ensures
        ({
            let event = normalized(
                physical_device_id,
                raw_input_path,
                make_code,
                flags,
                virtual_key,
            );
            &&& event.transition == KeyTransition::Up <==> flags % 2 == 1
            &&& event.extended_e0 <==> (flags / 2) % 2 == 1
            &&& event.extended_e1 <==> (flags / 4) % 2 == 1
            &&& event.physical_device_id == physical_device_id
            &&& event.raw_input_path == raw_input_path
            &&& event.scan_code == make_code
            &&& event.virtual_key == virtual_key
            &&& event.modifier == modifier_of(make_code, event.extended_e0)
        }),
{
    assert(flags & 1 != 0 <==> flags % 2 == 1) by (bit_vector);
    assert(flags & 2 != 0 <==> (flags / 2) % 2 == 1) by (bit_vector);
    assert(flags & 4 != 0 <==> (flags / 4) % 2 == 1) by (bit_vector);
}

/// The bytes of a key event are its prefixes, the first before the second, and then its code,
/// with 128 added to it where the key comes up. A key that comes up sends what it sent going
/// down, but for that.
pub proof fn law_a_key_sends_its_prefixes_and_its_code(event: NormalizedKeyEventView)
    ensures
        ({
            let bytes = event.scancodes();
            let n = bytes.len() as int;
            &&& n == 1 + (if event.extended_e0 {
                1int
            } else {
                0
            }) + (if event.extended_e1 {
                1int
            } else {
                0
            })
            &&& event.extended_e0 ==> bytes[0] == 224
            &&& event.extended_e1 ==> bytes[n - 2] == 225
            &&& event.transition == KeyTransition::Down ==> bytes[n - 1] == event.scan_code % 128
            &&& event.transition == KeyTransition::Up ==> bytes[n - 1] == event.scan_code % 128
                + 128
        }),
        ({
            let down = NormalizedKeyEventView { transition: KeyTransition::Down, ..event };
            let up = NormalizedKeyEventView { transition: KeyTransition::Up, ..event };
            let n = down.scancodes().len() as int;
            &&& up.scancodes().len() == n
            &&& up.scancodes().take(n - 1) == down.scancodes().take(n - 1)
            &&& up.scancodes().last() == down.scancodes().last() + 128
        }),
{
    let code = event.scan_code;
    assert(code & 0x7f == code % 128) by (bit_vector);
    let down = NormalizedKeyEventView { transition: KeyTransition::Down, ..event };
    let up = NormalizedKeyEventView { transition: KeyTransition::Up, ..event };
    let n = down.scancodes().len() as int;
    assert(up.scancodes().take(n - 1) =~= down.scancodes().take(n - 1));
}

} // verus!
