//! The WiFi access point's passphrase rule.

use vstd::prelude::*;

verus! {

/// Shortest and longest WPA2 passphrase, in characters.
pub const MIN_PASSWORD_LENGTH: usize = 8;

pub const MAX_PASSWORD_LENGTH: usize = 63;

/// Whether `c` may stand in a WPA2 passphrase: a space or a visible ASCII character.
pub open spec fn passphrase_char(c: char) -> bool {
    0x20 <= c as u32 <= 0x7E
}

/// Whether `password` is a WPA2 passphrase: 8 to 63 printable ASCII characters (being ASCII,
/// as many bytes as characters).
pub open spec fn spec_wpa2_password(password: Seq<char>) -> bool {
    &&& MIN_PASSWORD_LENGTH <= password.len() <= MAX_PASSWORD_LENGTH
    &&& forall|i: int| 0 <= i < password.len() ==> passphrase_char(#[trigger] password[i])
}

/// Whether `password` is a WPA2 passphrase the access point can be started with.
pub fn wpa2_password_valid(password: &str) -> (r: bool)
    ensures
        r == spec_wpa2_password(password@),
{
    let length = password.unicode_len();
    if length < MIN_PASSWORD_LENGTH || length > MAX_PASSWORD_LENGTH {
        return false;
    }
    let mut i: usize = 0;
    while i < length
        invariant
            length == password@.len(),
            i <= length,
            forall|j: int| 0 <= j < i ==> passphrase_char(#[trigger] password@[j]),
        decreases length - i,
    {
        let c = password.get_char(i);
        if !(c == ' ' || ('!' <= c && c <= '~')) {
            return false;
        }
        i += 1;
    }
    true
}

} // verus!
