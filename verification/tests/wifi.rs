use plant_telemetry::config::{load_config, WifiConfig};
use plant_telemetry::wifi::{
    check_credentials, CredentialError, PASSWORD_CAPACITY, SSID_CAPACITY,
};

fn wifi(ssid: &str, password: &str) -> WifiConfig {
    WifiConfig { ssid: String::from(ssid), password: String::from(password) }
}

#[test]
fn built_in_credentials_fit() {
    assert_eq!(check_credentials(&load_config().unwrap().wifi), Ok(()));
}

#[test]
fn credentials_up_to_the_capacity_fit() {
    assert_eq!(SSID_CAPACITY, 32);
    assert_eq!(PASSWORD_CAPACITY, 64);
    assert_eq!(check_credentials(&wifi("", "")), Ok(()));
    assert_eq!(check_credentials(&wifi(&"s".repeat(32), &"p".repeat(64))), Ok(()));
}

#[test]
fn long_ssid_is_refused() {
    assert_eq!(
        check_credentials(&wifi(&"s".repeat(33), "secret")),
        Err(CredentialError::SsidTooLong)
    );
}

#[test]
fn long_password_is_refused() {
    assert_eq!(
        check_credentials(&wifi("garden", &"p".repeat(65))),
        Err(CredentialError::PasswordTooLong)
    );
}

#[test]
fn ssid_is_looked_at_first() {
    assert_eq!(
        check_credentials(&wifi(&"s".repeat(33), &"p".repeat(65))),
        Err(CredentialError::SsidTooLong)
    );
}

#[test]
fn length_is_counted_in_bytes() {
    // Sixteen letters of two bytes each fill the name; one more does not fit.
    assert_eq!(check_credentials(&wifi(&"\u{17e}".repeat(16), "")), Ok(()));
    assert_eq!(
        check_credentials(&wifi(&"\u{17e}".repeat(17), "")),
        Err(CredentialError::SsidTooLong)
    );
    assert_eq!(check_credentials(&wifi("", &"\u{20ac}".repeat(21))), Ok(()));
    assert_eq!(
        check_credentials(&wifi("", &"\u{20ac}".repeat(22))),
        Err(CredentialError::PasswordTooLong)
    );
}
