//! The expression controller's outputs: the control changes the measurement loop sends to the
//! USB MIDI host, and the bookkeeping around them.

use usbd_midi::message::{Channel, ControlFunction, FromClamped, U7};
use usbd_midi::{CableNumber, Message};
use vstd::prelude::*;

use crate::topology::JackMode;

verus! {

/// Highest value of a MIDI control change, and highest controller number.
pub const MIDI_MAX_VALUE: u8 = 127;

/// `value` clamped to the seven bits a MIDI data byte carries.
pub open spec fn clamped_data(value: u8) -> u8 {
    if value > MIDI_MAX_VALUE { MIDI_MAX_VALUE } else { value }
}

/// The USB MIDI event packet of a control change on cable 0: code index 0xB, the status byte
/// with the channel, then the controller and the value.
pub open spec fn control_change_bytes(channel: u8, controller: u8, value: u8) -> Seq<u8> {
    seq![0x0Bu8, (0xB0 + channel) as u8, clamped_data(controller), clamped_data(value)]
}

/// `usbd_midi`'s `Message::ControlChange(..).into_packet(CableNumber::Cable0)`, with the
/// channel converted by `Channel::try_from` and the controller and value by
/// `U7::from_clamped`. Claims what that crate's source shows: the conversion fails exactly for
/// channels above 15, `from_clamped` saturates at 127, and the packet's raw bytes are the cable
/// and code index byte 0x0B, the status byte 0xB0 with the channel, the controller and the
/// value.
#[verifier::external_body]
fn control_change_packet(channel: u8, controller: u8, value: u8) -> (r: Option<[u8; 4]>)
    ensures
        r is Some <==> channel < 16,
        r matches Some(bytes) ==> bytes@ == control_change_bytes(channel, controller, value),
{
    let Ok(channel) = Channel::try_from(channel) else {
        return None;
    };
    let message = Message::ControlChange(
        channel,
        ControlFunction(U7::from_clamped(controller)),
        U7::from_clamped(value),
    );
    Some(message.into_packet(CableNumber::Cable0).to_raw_bytes())
}

/// A control change the measurement loop has decided to send.
#[derive(Debug, Clone, Copy, PartialEq, Eq, Structural)]
pub struct MidiUpdate {
    /// Zero-based MIDI channel (`0..=15`).
    pub channel: u8,
    /// MIDI control change number (`0..=127`).
    pub controller: u8,
    pub value: u8,
}

impl MidiUpdate {
    /// The USB MIDI event packet sending this control change on cable 0, `None` if its channel
    /// is out of range - such an update is not sent at all. A controller or value above 127
    /// goes out as 127.
    pub fn packet(&self) -> (r: Option<[u8; 4]>)
        ensures
            r is Some <==> self.channel < 16,
            r matches Some(bytes) ==> bytes@ == control_change_bytes(
                self.channel,
                self.controller,
                self.value,
            ),
    {
        control_change_packet(self.channel, self.controller, self.value)
    }
}

/// Whether a jack in `mode` is followed reading by reading, so every change of its report is
/// a position update.
pub fn followed(mode: JackMode) -> (r: bool)
    ensures
        r <==> (mode == JackMode::Tracking || mode == JackMode::Switch || mode
            == JackMode::Rheostat),
{
    match mode {
        JackMode::Tracking | JackMode::Switch | JackMode::Rheostat => true,
        _ => false,
    }
}

/// Position updates per second, rounded down, from `updates` counted over `window_millis`.
pub fn updates_per_second(updates: u32, window_millis: u32) -> (r: u32)
    requires
        window_millis > 0,
        updates * 1000 <= u32::MAX,
    ensures
        r == updates * 1000 / window_millis as int,
{
    updates * 1000 / window_millis
}

} // verus!
