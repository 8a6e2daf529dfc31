//! What is checked of the network credentials before the node joins.

use crate::config::WifiConfig;
use std::str::FromStr;
use vstd::prelude::*;
use vstd::utf8::encode_utf8;

verus! {

/// Bytes a network name may have.
pub const SSID_CAPACITY: usize = 32;

/// Bytes a password may have.
pub const PASSWORD_CAPACITY: usize = 64;

/// Why the credentials cannot be handed to the radio.
#[derive(Clone, Copy, Debug, PartialEq, Eq, Structural)]
pub enum CredentialError {
    SsidTooLong,
    PasswordTooLong,
}

/// How many bytes `text` takes.
pub open spec fn byte_len(text: Seq<char>) -> nat {
    encode_utf8(text).len()
}

/// `heapless::String::<N>::from_str`: whether `text` can be stored in a
/// string of capacity `N`, which is the case exactly when it has at most `N`
/// bytes.
#[verifier::external_body]
fn fits_capacity<const N: usize>(text: &str) -> (fits: bool)
    ensures
        fits == (byte_len(text@) <= N),
{
    heapless::String::<N>::from_str(text).is_ok()
}

/// Checks that the radio can take the credentials: the network name first,
/// then the password.
pub fn check_credentials(wifi: &WifiConfig) -> (checked: Result<(), CredentialError>)
    ensures
        match checked {
            Ok(_) => {
                &&& byte_len(wifi.ssid@) <= SSID_CAPACITY
                &&& byte_len(wifi.password@) <= PASSWORD_CAPACITY
            },
            Err(CredentialError::SsidTooLong) => byte_len(wifi.ssid@) > SSID_CAPACITY,
            Err(CredentialError::PasswordTooLong) => {
                &&& byte_len(wifi.ssid@) <= SSID_CAPACITY
                &&& byte_len(wifi.password@) > PASSWORD_CAPACITY
            },
        },
{
    if !fits_capacity::<SSID_CAPACITY>(wifi.ssid.as_str()) {
        return Err(CredentialError::SsidTooLong);
    }
    if !fits_capacity::<PASSWORD_CAPACITY>(wifi.password.as_str()) {
        return Err(CredentialError::PasswordTooLong);
    }
    Ok(())
}

} // verus!
