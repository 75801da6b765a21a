//! The USB MIDI device's identity, the check that its names fit a string descriptor, and the
//! connection state its bus events add up to.

use vstd::prelude::*;

verus! {

/// Size of the buffer control transfers are answered from. The USB stack also builds string
/// descriptors in it and fails mid-enumeration on one that does not fit, so it holds the
/// longest a descriptor can be (255 bytes).
pub const CONTROL_BUFFER_SIZE: usize = 256;

/// UTF-16 code units a string descriptor can hold in [`CONTROL_BUFFER_SIZE`], after its two
/// header bytes and the spare two the USB stack insists on.
pub const MAX_STRING_LENGTH: usize = 126;

/// UTF-16 code units `c` takes: two for characters beyond the basic multilingual plane.
pub open spec fn utf16_units(c: char) -> nat {
    if c as u32 >= 0x1_0000 { 2 } else { 1 }
}

/// UTF-16 code units the characters `s` take.
pub open spec fn utf16_len(s: Seq<char>) -> nat
    decreases s.len(),
{
    if s.len() == 0 {
        0
    } else {
        utf16_len(s.drop_last()) + utf16_units(s.last())
    }
}

/// Whether `name` fits a string descriptor.
pub fn string_descriptor_fits(name: &str) -> (r: bool)
    ensures
        r == (utf16_len(name@) <= MAX_STRING_LENGTH),
{
    let length = name.unicode_len();
    let mut units: usize = 0;
    let mut i: usize = 0;
    while i < length
        invariant
            length == name@.len(),
            i <= length,
            units == utf16_len(name@.subrange(0, i as int)),
            units <= MAX_STRING_LENGTH,
        decreases length - i,
    {
        assert(name@.subrange(0, i + 1).drop_last() =~= name@.subrange(0, i as int));
        let c = name.get_char(i);
        units = units + if c as u32 >= 0x1_0000 { 2 } else { 1 };
        if units > MAX_STRING_LENGTH {
            proof {
                lemma_utf16_len_prefix(name@, i + 1);
            }
            return false;
        }
        i += 1;
    }
    assert(name@.subrange(0, length as int) =~= name@);
    true
}

/// A prefix never takes more code units than the whole.
proof fn lemma_utf16_len_prefix(s: Seq<char>, n: int)
    requires
        0 <= n <= s.len(),
    ensures
        utf16_len(s.subrange(0, n)) <= utf16_len(s),
    decreases s.len() - n,
{
    if n < s.len() {
        assert(s.subrange(0, n + 1).drop_last() =~= s.subrange(0, n));
        lemma_utf16_len_prefix(s, n + 1);
    } else {
        assert(s.subrange(0, n) =~= s);
    }
}

/// The USB device's identity.
#[derive(Debug, Clone, Copy)]
pub struct UsbMidiConfig {
    pub vendor_id: u16,
    pub product_id: u16,
    pub manufacturer: &'static str,
    pub product: &'static str,
}

impl UsbMidiConfig {
    /// Whether both names fit a string descriptor, as every host asking for them needs.
    pub fn strings_fit(&self) -> (r: bool)
        ensures
            r == (utf16_len(self.manufacturer@) <= MAX_STRING_LENGTH && utf16_len(self.product@)
                <= MAX_STRING_LENGTH),
    {
        string_descriptor_fits(self.manufacturer) && string_descriptor_fits(self.product)
    }
}

impl Default for UsbMidiConfig {
    /// pid.codes test IDs, reserved for development use only.
    fn default() -> (r: Self)
        ensures
            r.vendor_id == 0x1209,
            r.product_id == 0x0001,
            r.manufacturer@ == "Amon Benson"@,
            r.product@ == "Expression Adapter"@,
    {
        Self {
            vendor_id: 0x1209,
            product_id: 0x0001,
            manufacturer: "Amon Benson",
            product: "Expression Adapter",
        }
    }
}

/// Follows the device state the USB stack reports: a host is connected while it has
/// configured the device and is not suspending it. Without VBUS sensing, a host going away
/// shows up as a suspend too, since the bus falls idle.
#[derive(Debug, Clone, Copy)]
pub struct ConnectionTracker {
    configured: bool,
    suspended: bool,
}

impl ConnectionTracker {
    pub closed spec fn spec_configured(self) -> bool {
        self.configured
    }

    pub closed spec fn spec_suspended(self) -> bool {
        self.suspended
    }

    /// Whether a host is connected in this state.
    pub open spec fn spec_connected(self) -> bool {
        self.spec_configured() && !self.spec_suspended()
    }

    pub fn new() -> (r: Self)
        ensures
            !r.spec_configured(),
            !r.spec_suspended(),
    {
        Self { configured: false, suspended: false }
    }

    pub fn connected(&self) -> (r: bool)
        ensures
            r == self.spec_connected(),
    {
        self.configured && !self.suspended
    }

    /// The bus was enabled or disabled; disabling drops the configuration.
    pub fn enabled(&mut self, enabled: bool)
        ensures
            final(self).spec_configured() == (old(self).spec_configured() && enabled),
            final(self).spec_suspended() == old(self).spec_suspended(),
    {
        if !enabled {
            self.configured = false;
        }
    }

    /// A bus reset: the device is neither configured nor suspended any more.
    pub fn reset(&mut self)
        ensures
            !final(self).spec_configured(),
            !final(self).spec_suspended(),
    {
        self.configured = false;
        self.suspended = false;
    }

    pub fn configured(&mut self, configured: bool)
        ensures
            final(self).spec_configured() == configured,
            final(self).spec_suspended() == old(self).spec_suspended(),
    {
        self.configured = configured;
    }

    pub fn suspended(&mut self, suspended: bool)
        ensures
            final(self).spec_suspended() == suspended,
            final(self).spec_configured() == old(self).spec_configured(),
    {
        self.suspended = suspended;
    }
}

} // verus!
